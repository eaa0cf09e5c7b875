//! Call configuration and the chat message type.

use vstd::prelude::*;

verus! {

/// One named backend entry as the UI stores it.
#[derive(Clone)]
pub struct ModelConfig {
    pub name: String,
    pub provider: String,
    pub base_url: String,
    pub api_key: Option<String>,
}

/// The configuration a caller supplies with each request.  It is immutable
/// for the duration of one call; no state is kept across calls.
///
/// The wire format carries the sampling temperature as a decimal fraction;
/// here it is held in thousandths (600 stands for 0.6), so that the
/// contracts stay over integers.
#[derive(Clone)]
pub struct GatewayConfig {
    pub provider: String,
    pub base_url: String,
    pub api_key: Option<String>,
    pub model: Option<String>,
    pub ollama_path: Option<String>,
    pub models: Option<Vec<ModelConfig>>,
    pub streaming_enabled: Option<bool>,
    pub default_think: Option<bool>,
    pub max_context_messages: Option<u32>,
    pub temperature_milli: Option<u32>,
}

/// One message of a conversation; the order of a message sequence is
/// caller-significant and preserved end to end.
pub struct ChatMessage {
    pub role: String,
    pub content: String,
}

/// Mathematical image of a `ChatMessage`.
pub struct MessageView {
    pub role: Seq<char>,
    pub content: Seq<char>,
}

impl View for ChatMessage {
    type V = MessageView;

    open spec fn view(&self) -> MessageView {
        MessageView { role: self.role@, content: self.content@ }
    }
}

/// The image of a message list.
pub open spec fn msgs_view(msgs: Seq<ChatMessage>) -> Seq<MessageView> {
    msgs.map_values(|m: ChatMessage| m@)
}

/// The content of the conversation's most recent user message, if any —
/// what the start-of-chat log record quotes as the turn's input.
pub open spec fn spec_last_user_content(msgs: Seq<MessageView>) -> Option<Seq<char>>
    decreases msgs.len(),
{
    if msgs.len() == 0 {
        None
    } else if msgs.last().role == "user"@ {
        Some(msgs.last().content)
    } else {
        spec_last_user_content(msgs.drop_last())
    }
}

pub fn last_user_content(msgs: &Vec<ChatMessage>) -> (r: Option<String>)
    ensures
        opt_string_view(r) == spec_last_user_content(msgs_view(msgs@)),
{
    let user: String = String::from_str("user");
    let n = msgs.len();
    let mut i = n;
    proof {
        assert(msgs_view(msgs@).take(n as int) =~= msgs_view(msgs@));
    }
    while i > 0
        invariant
            i <= n,
            n == msgs@.len(),
            user@ == "user"@,
            spec_last_user_content(msgs_view(msgs@).take(i as int)) == spec_last_user_content(
                msgs_view(msgs@),
            ),
        decreases i,
    {
        proof {
            assert(msgs_view(msgs@).take(i as int).last() == msgs@[i - 1]@);
            assert(msgs_view(msgs@).take(i as int).drop_last() =~= msgs_view(msgs@).take(i - 1));
        }
        if msgs[i - 1].role.eq(&user) {
            return Some(msgs[i - 1].content.clone());
        }
        i -= 1;
    }
    None
}

/// The provider identifier that selects the local daemon; every other
/// identifier selects the remote OpenAI-compatible path.
pub open spec fn spec_is_local(provider: Seq<char>) -> bool {
    provider == "ollama"@
}

pub fn is_local_provider(provider: &String) -> (r: bool)
    ensures
        r == spec_is_local(provider@),
{
    let local: String = String::from_str("ollama");
    provider.eq(&local)
}

/// Sampling temperature used when the caller sets none, in thousandths.
pub const DEFAULT_TEMPERATURE_MILLI: u32 = 600;

pub open spec fn spec_effective_temperature(t: Option<u32>) -> u32 {
    match t {
        Some(v) => v,
        None => DEFAULT_TEMPERATURE_MILLI,
    }
}

pub fn effective_temperature_milli(t: &Option<u32>) -> (r: u32)
    ensures
        r == spec_effective_temperature(*t),
{
    match t {
        Some(v) => *v,
        None => DEFAULT_TEMPERATURE_MILLI,
    }
}

/// Copies one message; `clone` on a `String` is known to preserve the value.
pub fn copy_message(m: &ChatMessage) -> (r: ChatMessage)
    ensures
        r@ == m@,
{
    ChatMessage { role: m.role.clone(), content: m.content.clone() }
}

/// An empty model identifier stands for "none chosen": the outgoing request
/// then carries no model field.
pub open spec fn spec_normalize_model(model: Seq<char>) -> Option<Seq<char>> {
    if model.len() == 0 {
        None
    } else {
        Some(model)
    }
}

pub fn normalize_model(model: String) -> (r: Option<String>)
    ensures
        match (r, spec_normalize_model(model@)) {
            (Some(m), Some(v)) => m@ == v,
            (None, None) => true,
            _ => false,
        },
{
    if model.as_str().unicode_len() == 0 {
        None
    } else {
        Some(model)
    }
}

/// A credential is attached only when present and non-empty.
pub open spec fn spec_normalize_key(key: Option<Seq<char>>) -> Option<Seq<char>> {
    match key {
        Some(k) => if k.len() == 0 {
            None
        } else {
            Some(k)
        },
        None => None,
    }
}

pub open spec fn opt_string_view(o: Option<String>) -> Option<Seq<char>> {
    match o {
        Some(s) => Some(s@),
        None => None,
    }
}

pub fn normalize_key(key: Option<String>) -> (r: Option<String>)
    ensures
        opt_string_view(r) == spec_normalize_key(opt_string_view(key)),
{
    match key {
        Some(k) => if k.as_str().unicode_len() == 0 {
            None
        } else {
            Some(k)
        },
        None => None,
    }
}

} // verus!
