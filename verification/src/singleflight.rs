//! The single-flight guarantee of two concurrent ensure operations.
//!
//! The shared flag "the daemon is currently being started" is the only
//! cross-call mutable state.  This module models two callers, each running
//! the supervisor machine, interleaved in any order against that one flag:
//! a step picks a caller and feeds it one event, the flag's test-and-set
//! answers with its atomic read-modify-write (`acquired` exactly when the
//! flag was clear, and the flag is set afterwards either way), and a
//! terminal `Finish { release: true, .. }` clears it.

use vstd::prelude::*;

use crate::supervisor::{
    SupervisorEnv, SupState, SupEvent, SupAction, spec_sup_expects, spec_sane_clock, spec_sup_step,
};

verus! {

/// The shared flag, the two callers' states, and how many spawns and flag
/// releases have happened.
pub struct World {
    pub flag: bool,
    pub first: SupState,
    pub second: SupState,
    pub spawns: nat,
    pub releases: nat,
}

/// One interleaving step: which caller moves, and what it observed.
pub struct WorldStep {
    pub who: bool,
    pub event: SupEvent,
}

pub open spec fn world_caller(w: World, who: bool) -> SupState {
    if who {
        w.first
    } else {
        w.second
    }
}

/// A step is well-formed when the event answers the moving caller's state
/// and, for the flag's test-and-set, reports exactly the atomic outcome.
pub open spec fn spec_world_wf_step(w: World, s: WorldStep) -> bool {
    &&& spec_sup_expects(world_caller(w, s.who), s.event)
    &&& spec_sane_clock(s.event)
    &&& (s.event matches SupEvent::AcquireResult { acquired, .. } ==> acquired == !w.flag)
}

pub open spec fn spec_world_next(env: SupervisorEnv, w: World, s: WorldStep) -> World {
    let (st, act) = spec_sup_step(env, world_caller(w, s.who), s.event);
    World {
        flag: if s.event is AcquireResult {
            true
        } else if act matches SupAction::Finish { release: true, .. } {
            false
        } else {
            w.flag
        },
        first: if s.who {
            st
        } else {
            w.first
        },
        second: if s.who {
            w.second
        } else {
            st
        },
        spawns: w.spawns + if act is SpawnServe {
            1nat
        } else {
            0nat
        },
        releases: w.releases + if act matches SupAction::Finish { release: true, .. } {
            1nat
        } else {
            0nat
        },
    }
}

pub open spec fn spec_world_run(env: SupervisorEnv, w0: World, trace: Seq<WorldStep>) -> World
    decreases trace.len(),
{
    if trace.len() == 0 {
        w0
    } else {
        spec_world_next(env, spec_world_run(env, w0, trace.drop_last()), trace.last())
    }
}

pub open spec fn spec_world_valid(env: SupervisorEnv, w0: World, trace: Seq<WorldStep>) -> bool
    decreases trace.len(),
{
    trace.len() == 0 || {
        &&& spec_world_valid(env, w0, trace.drop_last())
        &&& spec_world_wf_step(spec_world_run(env, w0, trace.drop_last()), trace.last())
    }
}

/// Two ensure operations issued concurrently while the daemon is
/// unreachable: both callers start at the probe, the flag is clear, nothing
/// spawned or released yet.
pub open spec fn spec_world_init(w: World) -> bool {
    &&& !w.flag
    &&& w.first == SupState::Probing
    &&& w.second == SupState::Probing
    &&& w.spawns == 0
    &&& w.releases == 0
}

/// The inductive bound: a spawn happens only by acquiring the clear flag,
/// so the spawns can exceed the releases only by the one acquisition still
/// held.
pub proof fn lemma_spawn_bound(env: SupervisorEnv, w0: World, trace: Seq<WorldStep>)
    requires
        spec_world_init(w0),
        spec_world_valid(env, w0, trace),
    ensures
        spec_world_run(env, w0, trace).spawns <= spec_world_run(env, w0, trace).releases + if spec_world_run(env, w0, trace).flag {
            1nat
        } else {
            0nat
        },
    decreases trace.len(),
{
    if trace.len() > 0 {
        lemma_spawn_bound(env, w0, trace.drop_last());
    }
}

/// The single-flight law: however the two concurrent operations
/// interleave, as long as neither has released the flag (that is, the
/// acquiring operation has not yet reached its terminal outcome), at most
/// one daemon spawn has been initiated.  Once the acquirer finishes it
/// releases the flag, and a *later* ensure operation may legitimately
/// spawn again.
pub proof fn lemma_single_flight(env: SupervisorEnv, w0: World, trace: Seq<WorldStep>)
    requires
        spec_world_init(w0),
        spec_world_valid(env, w0, trace),
        spec_world_run(env, w0, trace).releases == 0,
    ensures
        spec_world_run(env, w0, trace).spawns <= 1,
{
    lemma_spawn_bound(env, w0, trace);
}

} // verus!
