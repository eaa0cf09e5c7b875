//! Daemon supervision: probe, spawn, poll until ready.
//!
//! One ensure operation runs this machine: probe the inventory endpoint;
//! if unreachable, test-and-set the shared single-flight flag; the caller
//! that acquires it spawns the daemon's background serve process, every
//! other caller joins as a passive poller; both poll until the daemon
//! answers or a fixed deadline passes.  A platform that lacks a clean
//! background-serve affordance may, when a default model is configured,
//! make one last-resort model invocation and poll once more on a shorter
//! deadline.  The outcome is a plain readiness boolean — never a hard
//! error — and the acquirer releases the flag with its terminal outcome.
//!
//! The machine is pure: each step maps the current state and one observed
//! event to the next state and the one action the surrounding process must
//! perform.  Times are clock readings in milliseconds.

use vstd::prelude::*;

verus! {

/// How long readiness polling may run, in milliseconds.
pub const READY_DEADLINE_MILLIS: u64 = 12000;

/// The shorter deadline after the last-resort model invocation.
pub const RESORT_DEADLINE_MILLIS: u64 = 8000;

/// The pause between readiness probes, in milliseconds.
pub const POLL_INTERVAL_MILLIS: u64 = 900;

/// A clock reading late enough that adding a deadline cannot overflow; any
/// millisecond wall clock of this era is far below it.
pub const LATEST_SANE_CLOCK: u64 = 0xffff_ffff_ffff_0000;

/// The capabilities the machine may use: whether this platform wants the
/// last-resort model invocation, and whether a default model is configured
/// (the invocation needs one).
#[derive(Clone, Copy, PartialEq, Eq, Structural, Debug)]
pub struct SupervisorEnv {
    pub allow_model_resort: bool,
    pub has_default_model: bool,
}

/// The supervisor's states.  `owner` marks the caller that acquired the
/// single-flight flag and must release it.
#[derive(Clone, Copy, PartialEq, Eq, Structural, Debug)]
pub enum SupState {
    /// Awaiting the initial reachability probe.
    Probing,
    /// The probe failed; awaiting the flag's test-and-set.
    Acquiring,
    /// Flag acquired; awaiting the serve-process launch.
    Spawning { deadline: u64 },
    /// Awaiting the next readiness poll.
    Polling { owner: bool, deadline: u64 },
    /// Deadline passed; awaiting the last-resort model invocation.
    ResortStarting,
    /// Awaiting a readiness poll on the last-resort deadline.
    ResortPolling { deadline: u64 },
    /// Terminal: the readiness outcome.
    Done { ready: bool },
}

/// What the surrounding process observed for the pending action.
#[derive(Clone, Copy, PartialEq, Eq, Structural, Debug)]
pub enum SupEvent {
    /// The initial probe answered (`ok`) or failed, at time `now`.
    ProbeResult { ok: bool, now: u64 },
    /// The flag's atomic test-and-set: `acquired` iff it was clear.
    AcquireResult { acquired: bool, now: u64 },
    /// The serve-process launch finished (well or badly — launch failures
    /// are deliberately swallowed), at time `now`.
    Spawned { now: u64 },
    /// One readiness poll answered (`ok`) or failed, at time `now`.
    PollResult { ok: bool, now: u64 },
    /// The last-resort model invocation was issued, at time `now`.
    ResortLaunched { now: u64 },
}

/// The one thing the surrounding process must do next.
#[derive(Clone, Copy, PartialEq, Eq, Structural, Debug)]
pub enum SupAction {
    /// `GET` the inventory endpoint once.
    Probe,
    /// Atomically test-and-set the shared single-flight flag.
    TryAcquire,
    /// Launch the daemon's background serve process, hidden, fire-and-forget.
    SpawnServe,
    /// Sleep one poll interval, then `GET` the inventory endpoint.
    Poll,
    /// Invoke the daemon on the default model once, fire-and-forget.
    LaunchModelResort,
    /// Report `ready`; first clear the flag when `release` is set.
    Finish { ready: bool, release: bool },
}

/// Which events answer which states.
pub open spec fn spec_sup_expects(state: SupState, event: SupEvent) -> bool {
    match state {
        SupState::Probing => event is ProbeResult,
        SupState::Acquiring => event is AcquireResult,
        SupState::Spawning { .. } => event is Spawned,
        SupState::Polling { .. } => event is PollResult,
        SupState::ResortStarting => event is ResortLaunched,
        SupState::ResortPolling { .. } => event is PollResult,
        SupState::Done { .. } => false,
    }
}

/// Clock readings stay below `LATEST_SANE_CLOCK` so deadline arithmetic
/// cannot overflow.
pub open spec fn spec_sane_clock(event: SupEvent) -> bool {
    match event {
        SupEvent::ProbeResult { now, .. } => now <= LATEST_SANE_CLOCK,
        SupEvent::AcquireResult { now, .. } => now <= LATEST_SANE_CLOCK,
        SupEvent::Spawned { now } => now <= LATEST_SANE_CLOCK,
        SupEvent::PollResult { now, .. } => now <= LATEST_SANE_CLOCK,
        SupEvent::ResortLaunched { now } => now <= LATEST_SANE_CLOCK,
    }
}

/// The transition relation, as one total function over expected events.
pub open spec fn spec_sup_step(env: SupervisorEnv, state: SupState, event: SupEvent) -> (
    SupState,
    SupAction,
) {
    match (state, event) {
        (SupState::Probing, SupEvent::ProbeResult { ok, now }) => {
            if ok {
                (SupState::Done { ready: true }, SupAction::Finish { ready: true, release: false })
            } else {
                (SupState::Acquiring, SupAction::TryAcquire)
            }
        },
        (SupState::Acquiring, SupEvent::AcquireResult { acquired, now }) => {
            if acquired {
                (
                    SupState::Spawning { deadline: (now + READY_DEADLINE_MILLIS) as u64 },
                    SupAction::SpawnServe,
                )
            } else {
                (
                    SupState::Polling {
                        owner: false,
                        deadline: (now + READY_DEADLINE_MILLIS) as u64,
                    },
                    SupAction::Poll,
                )
            }
        },
        (SupState::Spawning { deadline }, SupEvent::Spawned { now }) => {
            (SupState::Polling { owner: true, deadline }, SupAction::Poll)
        },
        (SupState::Polling { owner, deadline }, SupEvent::PollResult { ok, now }) => {
            if ok {
                (
                    SupState::Done { ready: true },
                    SupAction::Finish { ready: true, release: owner },
                )
            } else if now <= deadline {
                (SupState::Polling { owner, deadline }, SupAction::Poll)
            } else if owner && env.allow_model_resort && env.has_default_model {
                (SupState::ResortStarting, SupAction::LaunchModelResort)
            } else {
                (
                    SupState::Done { ready: false },
                    SupAction::Finish { ready: false, release: owner },
                )
            }
        },
        (SupState::ResortStarting, SupEvent::ResortLaunched { now }) => {
            (
                SupState::ResortPolling { deadline: (now + RESORT_DEADLINE_MILLIS) as u64 },
                SupAction::Poll,
            )
        },
        (SupState::ResortPolling { deadline }, SupEvent::PollResult { ok, now }) => {
            if ok {
                (SupState::Done { ready: true }, SupAction::Finish { ready: true, release: true })
            } else if now < deadline {
                (SupState::ResortPolling { deadline }, SupAction::Poll)
            } else {
                (
                    SupState::Done { ready: false },
                    SupAction::Finish { ready: false, release: true },
                )
            }
        },
        _ => (state, SupAction::Probe),
    }
}

/// An ensure operation begins by probing.
pub fn sup_start() -> (r: (SupState, SupAction))
    ensures
        r.0 == SupState::Probing,
        r.1 == SupAction::Probe,
{
    (SupState::Probing, SupAction::Probe)
}

pub fn sup_step(env: SupervisorEnv, state: SupState, event: SupEvent) -> (r: (SupState, SupAction))
    requires
        spec_sup_expects(state, event),
        spec_sane_clock(event),
    ensures
        r == spec_sup_step(env, state, event),
{
    match (state, event) {
        (SupState::Probing, SupEvent::ProbeResult { ok, now: _ }) => {
            if ok {
                (SupState::Done { ready: true }, SupAction::Finish { ready: true, release: false })
            } else {
                (SupState::Acquiring, SupAction::TryAcquire)
            }
        },
        (SupState::Acquiring, SupEvent::AcquireResult { acquired, now }) => {
            if acquired {
                (SupState::Spawning { deadline: now + READY_DEADLINE_MILLIS }, SupAction::SpawnServe)
            } else {
                (
                    SupState::Polling { owner: false, deadline: now + READY_DEADLINE_MILLIS },
                    SupAction::Poll,
                )
            }
        },
        (SupState::Spawning { deadline }, SupEvent::Spawned { now: _ }) => {
            (SupState::Polling { owner: true, deadline }, SupAction::Poll)
        },
        (SupState::Polling { owner, deadline }, SupEvent::PollResult { ok, now }) => {
            if ok {
                (SupState::Done { ready: true }, SupAction::Finish { ready: true, release: owner })
            } else if now <= deadline {
                (SupState::Polling { owner, deadline }, SupAction::Poll)
            } else if owner && env.allow_model_resort && env.has_default_model {
                (SupState::ResortStarting, SupAction::LaunchModelResort)
            } else {
                (
                    SupState::Done { ready: false },
                    SupAction::Finish { ready: false, release: owner },
                )
            }
        },
        (SupState::ResortStarting, SupEvent::ResortLaunched { now }) => {
            (
                SupState::ResortPolling { deadline: now + RESORT_DEADLINE_MILLIS },
                SupAction::Poll,
            )
        },
        (SupState::ResortPolling { deadline }, SupEvent::PollResult { ok, now }) => {
            if ok {
                (SupState::Done { ready: true }, SupAction::Finish { ready: true, release: true })
            } else if now < deadline {
                (SupState::ResortPolling { deadline }, SupAction::Poll)
            } else {
                (
                    SupState::Done { ready: false },
                    SupAction::Finish { ready: false, release: true },
                )
            }
        },
        _ => (state, SupAction::Probe),
    }
}

/// Readiness is exactly an observed success, stated as a law: a step
/// reaches `Done { ready: true }` if and only if the event it consumed was
/// a successful probe or poll.  Who spawned, who held the flag, and every
/// deadline are irrelevant to the outcome — so two concurrent ensure
/// operations whose final observations agree report the same readiness.
pub proof fn lemma_ready_iff_observed(env: SupervisorEnv, state: SupState, event: SupEvent)
    requires
        spec_sup_expects(state, event),
    ensures
        spec_sup_step(env, state, event).0 == (SupState::Done { ready: true }) <==> (event
            matches SupEvent::ProbeResult { ok: true, .. } || event
            matches SupEvent::PollResult { ok: true, .. }),
{
}

/// The flag is released exactly with the terminal outcome, stated as a
/// law: a step issues `Finish { release: true, .. }` only when it reaches
/// `Done`, and a step that reaches `Done` from a flag-holding state (the
/// spawner's polling or the last-resort states) always releases.
pub proof fn lemma_release_with_outcome(env: SupervisorEnv, state: SupState, event: SupEvent)
    requires
        spec_sup_expects(state, event),
    ensures
        (spec_sup_step(env, state, event).1 matches SupAction::Finish { release: true, .. })
            ==> spec_sup_step(env, state, event).0 is Done,
        (spec_sup_step(env, state, event).0 is Done && (state matches SupState::Polling {
            owner: true,
            ..
        } || state is ResortPolling)) ==> spec_sup_step(env, state, event).1 matches
            SupAction::Finish { release: true, .. },
{
}

} // verus!
