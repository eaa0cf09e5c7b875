//! Model inventory: listing, existence checking, and the best-effort
//! pre-warm pull decision.

use vstd::prelude::*;

use crate::json::{
    tags_models_of, parse_tags_models, remote_models_of, parse_remote_models, json_list_of,
    to_json_list,
};

verus! {

/// The names from a daemon inventory body, or `None` when the body is not
/// JSON (the caller surfaces that as a parse failure).
pub fn local_model_names(body: &str) -> (r: Option<Vec<String>>)
    ensures
        r is Some <==> tags_models_of(body@) is Some,
        r is Some ==> r->0.deep_view() == tags_models_of(body@)->0,
{
    parse_tags_models(body)
}

/// The identifiers from a remote inventory body, or `None` when the body is
/// not JSON.
pub fn remote_model_names(body: &str) -> (r: Option<Vec<String>>)
    ensures
        r is Some <==> remote_models_of(body@) is Some,
        r is Some ==> r->0.deep_view() == remote_models_of(body@)->0,
{
    parse_remote_models(body)
}

/// The UI-facing inventory payload: the name list, re-serialized as one
/// JSON array of strings.  `None` when the body is not JSON.
pub fn local_models_payload(body: &str) -> (r: Option<String>)
    ensures
        r is Some <==> tags_models_of(body@) is Some,
        r is Some ==> r->0@ == json_list_of(tags_models_of(body@)->0),
{
    match parse_tags_models(body) {
        Some(names) => Some(to_json_list(&names)),
        None => None,
    }
}

/// The remote counterpart of `local_models_payload`.
pub fn remote_models_payload(body: &str) -> (r: Option<String>)
    ensures
        r is Some <==> remote_models_of(body@) is Some,
        r is Some ==> r->0@ == json_list_of(remote_models_of(body@)->0),
{
    match parse_remote_models(body) {
        Some(names) => Some(to_json_list(&names)),
        None => None,
    }
}

/// Whether `model` appears, exactly, in the name list.
pub fn model_listed(names: &Vec<String>, model: &String) -> (r: bool)
    ensures
        r == names.deep_view().contains(model@),
{
    let n = names.len();
    let mut i: usize = 0;
    while i < n
        invariant
            i <= n,
            n == names@.len(),
            forall|j: int| 0 <= j < i ==> names.deep_view()[j] != model@,
        decreases n - i,
    {
        if names[i].eq(model) {
            proof {
                assert(names.deep_view()[i as int] == model@);
            }
            return true;
        }
        i += 1;
    }
    proof {
        assert(!names.deep_view().contains(model@));
    }
    false
}

/// An existence check needs an inventory request only for a non-empty model
/// name; the empty name trivially exists.
pub fn needs_model_check(model: &String) -> (r: bool)
    ensures
        r == (model@.len() > 0),
{
    model.as_str().unicode_len() > 0
}

/// The existence verdict for a non-empty model name, from the inventory
/// body: `None` when the body is not JSON (surfaced as a parse failure);
/// otherwise whether the exact name is listed — a missing or malformed
/// `models` array counts as "not present".
pub fn model_check_verdict(model: &String, body: &str) -> (r: Option<bool>)
    requires
        model@.len() > 0,
    ensures
        r is Some <==> tags_models_of(body@) is Some,
        r is Some ==> r->0 == tags_models_of(body@)->0.contains(model@),
{
    match parse_tags_models(body) {
        Some(names) => Some(model_listed(&names, model)),
        None => None,
    }
}

/// The pre-warm decision of the ensure-model step.
#[derive(PartialEq, Eq, Structural, Debug)]
pub enum PullDecision {
    /// The model is known present, or none was named: nothing to do.
    NoAction,
    /// Reach for the daemon's command-line pull, best-effort.
    PullModel,
}

/// What the ensure-model step decides, given the inventory probe's body
/// (`None` when the probe itself failed): an empty model name needs
/// nothing; a listed model needs nothing; anything else — including an
/// unreachable daemon or an unparsable inventory — prompts one best-effort
/// pull attempt.
pub open spec fn spec_ensure_model_decision(
    model: Seq<char>,
    probe_body: Option<Seq<char>>,
) -> PullDecision {
    if model.len() == 0 {
        PullDecision::NoAction
    } else {
        match probe_body {
            Some(body) => match tags_models_of(body) {
                Some(names) => if names.contains(model) {
                    PullDecision::NoAction
                } else {
                    PullDecision::PullModel
                },
                None => PullDecision::PullModel,
            },
            None => PullDecision::PullModel,
        }
    }
}

pub fn ensure_model_decision(model: &String, probe_body: &Option<String>) -> (r: PullDecision)
    ensures
        r == spec_ensure_model_decision(
            model@,
            crate::config::opt_string_view(*probe_body),
        ),
{
    if model.as_str().unicode_len() == 0 {
        return PullDecision::NoAction;
    }
    match probe_body {
        Some(body) => match parse_tags_models(body.as_str()) {
            Some(names) => if model_listed(&names, model) {
                PullDecision::NoAction
            } else {
                PullDecision::PullModel
            },
            None => PullDecision::PullModel,
        },
        None => PullDecision::PullModel,
    }
}

/// The executable that serves and pulls models: the configured path when it
/// has any non-blank text, otherwise the daemon's conventional name.
pub open spec fn spec_is_blank(s: Seq<char>) -> bool {
    forall|i: int| 0 <= i < s.len() ==> (s[i] == ' ' || s[i] == '\t' || s[i] == '\n' || s[i]
        == '\r')
}

pub open spec fn spec_resolve_daemon_exe(path: Option<Seq<char>>) -> Seq<char> {
    match path {
        Some(p) => if spec_is_blank(p) {
            "ollama"@
        } else {
            p
        },
        None => "ollama"@,
    }
}

fn is_blank_str(s: &str) -> (r: bool)
    ensures
        r == spec_is_blank(s@),
{
    let len = s.unicode_len();
    let mut i: usize = 0;
    while i < len
        invariant
            i <= len,
            len == s@.len(),
            forall|j: int| 0 <= j < i ==> (s@[j] == ' ' || s@[j] == '\t' || s@[j] == '\n' || s@[j]
                == '\r'),
        decreases len - i,
    {
        let c = s.get_char(i);
        if c != ' ' && c != '\t' && c != '\n' && c != '\r' {
            proof {
                assert(!spec_is_blank(s@)) by {
                    assert(s@[i as int] != ' ' && s@[i as int] != '\t' && s@[i as int] != '\n'
                        && s@[i as int] != '\r');
                }
            }
            return false;
        }
        i += 1;
    }
    true
}

pub fn resolve_daemon_exe(path: &Option<String>) -> (r: String)
    ensures
        r@ == spec_resolve_daemon_exe(crate::config::opt_string_view(*path)),
{
    match path {
        Some(p) => {
            if is_blank_str(p.as_str()) {
                String::from_str("ollama")
            } else {
                p.clone()
            }
        },
        None => String::from_str("ollama"),
    }
}

} // verus!
