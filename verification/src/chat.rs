//! One chat turn, as a state machine over HTTP exchanges.
//!
//! `plan_chat` turns a configuration, a message list, a model identifier
//! and the think flag into the first outgoing request; `chat_turn_step`
//! consumes the outcome of one exchange and either finishes with text or a
//! classified error, or hands back the next request (the local daemon has a
//! documented completion-endpoint fallback; the remote path has none).  The
//! surrounding process only sends what a state carries and feeds the answer
//! back in.

use vstd::prelude::*;

use crate::config::{
    ChatMessage, GatewayConfig, MessageView, msgs_view, opt_string_view, spec_is_local,
    is_local_provider, spec_normalize_model, normalize_model, spec_normalize_key, normalize_key,
    spec_effective_temperature, effective_temperature_milli, copy_message,
};
use crate::endpoints::{spec_trim_base, chat_endpoint, generate_endpoint, completions_endpoint};
use crate::think::{
    spec_apply_think, apply_think_to_messages, spec_apply_think_prompt, apply_think_to_prompt,
    spec_flatten_messages, flatten_messages,
};
use crate::json::{chat_reply_of, parse_chat_reply, remote_reply_of, parse_remote_reply};
use crate::handles::{spec_decimal, u64_decimal};

verus! {

/// A structured chat request to the local daemon; `think` asks for the
/// reasoning-effort hint (the message contents already carry the disable
/// directive when it is off).
pub struct LocalChatRequest {
    pub url: String,
    pub model: Option<String>,
    pub messages: Vec<ChatMessage>,
    pub think: bool,
}

/// The local daemon's fallback request: the flattened prompt against the
/// plain completion endpoint.
pub struct GenerateRequest {
    pub url: String,
    pub model: Option<String>,
    pub prompt: String,
    pub think: bool,
}

/// A chat request to the remote OpenAI-compatible provider.
pub struct RemoteChatRequest {
    pub url: String,
    pub model: String,
    pub messages: Vec<ChatMessage>,
    pub temperature_milli: u32,
    pub api_key: Option<String>,
}

pub struct LocalChatRequestV {
    pub url: Seq<char>,
    pub model: Option<Seq<char>>,
    pub messages: Seq<MessageView>,
    pub think: bool,
}

pub struct GenerateRequestV {
    pub url: Seq<char>,
    pub model: Option<Seq<char>>,
    pub prompt: Seq<char>,
    pub think: bool,
}

pub struct RemoteChatRequestV {
    pub url: Seq<char>,
    pub model: Seq<char>,
    pub messages: Seq<MessageView>,
    pub temperature_milli: u32,
    pub api_key: Option<Seq<char>>,
}

impl View for LocalChatRequest {
    type V = LocalChatRequestV;

    open spec fn view(&self) -> LocalChatRequestV {
        LocalChatRequestV {
            url: self.url@,
            model: opt_string_view(self.model),
            messages: msgs_view(self.messages@),
            think: self.think,
        }
    }
}

impl View for GenerateRequest {
    type V = GenerateRequestV;

    open spec fn view(&self) -> GenerateRequestV {
        GenerateRequestV {
            url: self.url@,
            model: opt_string_view(self.model),
            prompt: self.prompt@,
            think: self.think,
        }
    }
}

impl View for RemoteChatRequest {
    type V = RemoteChatRequestV;

    open spec fn view(&self) -> RemoteChatRequestV {
        RemoteChatRequestV {
            url: self.url@,
            model: self.model@,
            messages: msgs_view(self.messages@),
            temperature_milli: self.temperature_milli,
            api_key: opt_string_view(self.api_key),
        }
    }
}

/// The dispatcher's states: which exchange is in flight, and for the local
/// fallback, the primary exchange's status and body, kept for diagnostics.
#[allow(inconsistent_fields)]
pub enum ChatTurn {
    LocalPrimary { request: LocalChatRequest, fallback: GenerateRequest },
    LocalFallback { request: GenerateRequest, primary_status: u16, primary_body: String },
    Remote { request: RemoteChatRequest },
}

#[allow(inconsistent_fields)]
pub enum TurnV {
    LocalPrimary { request: LocalChatRequestV, fallback: GenerateRequestV },
    LocalFallback { request: GenerateRequestV, primary_status: u16, primary_body: Seq<char> },
    Remote { request: RemoteChatRequestV },
}

impl View for ChatTurn {
    type V = TurnV;

    open spec fn view(&self) -> TurnV {
        match self {
            ChatTurn::LocalPrimary { request, fallback } => TurnV::LocalPrimary {
                request: request@,
                fallback: fallback@,
            },
            ChatTurn::LocalFallback { request, primary_status, primary_body } => {
                TurnV::LocalFallback {
                    request: request@,
                    primary_status: *primary_status,
                    primary_body: primary_body@,
                }
            },
            ChatTurn::Remote { request } => TurnV::Remote { request: request@ },
        }
    }
}

/// What one HTTP exchange came to: a transport failure before any reply, or
/// a reply with its status code and raw body.
pub enum HttpEvent {
    Transport(String),
    Response { status: u16, body: String },
}

pub enum EventV {
    Transport(Seq<char>),
    Response { status: u16, body: Seq<char> },
}

impl View for HttpEvent {
    type V = EventV;

    open spec fn view(&self) -> EventV {
        match self {
            HttpEvent::Transport(e) => EventV::Transport(e@),
            HttpEvent::Response { status, body } => EventV::Response {
                status: *status,
                body: body@,
            },
        }
    }
}

/// The classified failures of a chat turn.
pub enum ChatError {
    /// The request never reached the backend, or no reply came.
    Transport(String),
    /// The backend answered with a failure status and this message (its
    /// structured error string when present, otherwise the raw body).
    Upstream(String),
    /// A well-formed reply held no extractable content after every
    /// strategy; carries the primary exchange's status and body.
    Empty { status: u16, body: String },
}

pub enum ChatErrorV {
    Transport(Seq<char>),
    Upstream(Seq<char>),
    Empty { status: u16, body: Seq<char> },
}

impl View for ChatError {
    type V = ChatErrorV;

    open spec fn view(&self) -> ChatErrorV {
        match self {
            ChatError::Transport(e) => ChatErrorV::Transport(e@),
            ChatError::Upstream(e) => ChatErrorV::Upstream(e@),
            ChatError::Empty { status, body } => ChatErrorV::Empty {
                status: *status,
                body: body@,
            },
        }
    }
}

pub open spec fn outcome_view(r: Result<String, ChatError>) -> Result<Seq<char>, ChatErrorV> {
    match r {
        Ok(s) => Ok(s@),
        Err(e) => Err(e@),
    }
}

/// One step's result: the next exchange to perform, or the turn's outcome.
pub enum TurnResult {
    Pending(ChatTurn),
    Done(Result<String, ChatError>),
}

pub enum StepV {
    Pending(TurnV),
    Done(Result<Seq<char>, ChatErrorV>),
}

impl View for TurnResult {
    type V = StepV;

    open spec fn view(&self) -> StepV {
        match self {
            TurnResult::Pending(t) => StepV::Pending(t@),
            TurnResult::Done(r) => StepV::Done(outcome_view(*r)),
        }
    }
}

/// An HTTP status that counts as success.
pub open spec fn spec_status_success(status: u16) -> bool {
    200 <= status < 300
}

pub fn status_success(status: u16) -> (r: bool)
    ensures
        r == spec_status_success(status),
{
    200 <= status && status < 300
}

/// The first request of a turn: the local daemon's structured chat request
/// with its fallback precomputed, or the remote provider's single request.
pub open spec fn spec_plan_chat(
    provider: Seq<char>,
    base: Seq<char>,
    api_key: Option<Seq<char>>,
    temperature_milli: Option<u32>,
    msgs: Seq<MessageView>,
    model: Seq<char>,
    think: bool,
) -> TurnV {
    if spec_is_local(provider) {
        TurnV::LocalPrimary {
            request: LocalChatRequestV {
                url: spec_trim_base(base) + "/api/chat"@,
                model: spec_normalize_model(model),
                messages: spec_apply_think(msgs, think),
                think,
            },
            fallback: GenerateRequestV {
                url: spec_trim_base(base) + "/api/generate"@,
                model: spec_normalize_model(model),
                prompt: spec_apply_think_prompt(spec_flatten_messages(msgs), think),
                think,
            },
        }
    } else {
        TurnV::Remote {
            request: RemoteChatRequestV {
                url: spec_trim_base(base) + "/chat/completions"@,
                model: model,
                messages: msgs,
                temperature_milli: spec_effective_temperature(temperature_milli),
                api_key: spec_normalize_key(api_key),
            },
        }
    }
}

pub fn plan_chat(
    config: &GatewayConfig,
    messages: &Vec<ChatMessage>,
    model: String,
    think: bool,
) -> (t: ChatTurn)
    ensures
        t@ == spec_plan_chat(
            config.provider@,
            config.base_url@,
            opt_string_view(config.api_key),
            config.temperature_milli,
            msgs_view(messages@),
            model@,
            think,
        ),
{
    if is_local_provider(&config.provider) {
        let request = LocalChatRequest {
            url: chat_endpoint(config.base_url.as_str()),
            model: normalize_model(model.clone()),
            messages: apply_think_to_messages(messages, think),
            think,
        };
        let fallback = GenerateRequest {
            url: generate_endpoint(config.base_url.as_str()),
            model: normalize_model(model),
            prompt: apply_think_to_prompt(flatten_messages(messages), think),
            think,
        };
        ChatTurn::LocalPrimary { request, fallback }
    } else {
        let api_key = match &config.api_key {
            Some(k) => Some(k.clone()),
            None => None,
        };
        let request = RemoteChatRequest {
            url: completions_endpoint(config.base_url.as_str()),
            model,
            messages: copy_messages(messages),
            temperature_milli: effective_temperature_milli(&config.temperature_milli),
            api_key: normalize_key(api_key),
        };
        ChatTurn::Remote { request }
    }
}

fn copy_messages(msgs: &Vec<ChatMessage>) -> (r: Vec<ChatMessage>)
    ensures
        msgs_view(r@) == msgs_view(msgs@),
{
    let mut out: Vec<ChatMessage> = Vec::new();
    let n = msgs.len();
    let mut i: usize = 0;
    while i < n
        invariant
            i <= n,
            n == msgs@.len(),
            out@.len() == i,
            forall|j: int| 0 <= j < i ==> out@[j]@ == msgs@[j]@,
        decreases n - i,
    {
        out.push(copy_message(&msgs[i]));
        i += 1;
    }
    proof {
        assert(msgs_view(out@) =~= msgs_view(msgs@));
    }
    out
}

/// The primary reply, classified in priority order: non-empty
/// `message.content`, else non-empty `response`, else on a failure status
/// the daemon's error (or the raw body), else the fallback exchange.  A
/// body that is not JSON also goes to the fallback.
pub open spec fn spec_local_primary_step(
    fallback: GenerateRequestV,
    status: u16,
    body: Seq<char>,
) -> StepV {
    match chat_reply_of(body) {
        Some((mc, rs, er)) => {
            if mc is Some && mc->0.len() > 0 {
                StepV::Done(Ok(mc->0))
            } else if rs is Some && rs->0.len() > 0 {
                StepV::Done(Ok(rs->0))
            } else if !spec_status_success(status) {
                StepV::Done(
                    Err(
                        ChatErrorV::Upstream(
                            match er {
                                Some(e) => e,
                                None => body,
                            },
                        ),
                    ),
                )
            } else {
                StepV::Pending(
                    TurnV::LocalFallback {
                        request: fallback,
                        primary_status: status,
                        primary_body: body,
                    },
                )
            }
        },
        None => StepV::Pending(
            TurnV::LocalFallback { request: fallback, primary_status: status, primary_body: body },
        ),
    }
}

/// The fallback reply, classified against its `response` field only; when
/// nothing usable comes back, the turn fails as empty, carrying the primary
/// exchange's status and body.
pub open spec fn spec_local_fallback_step(
    primary_status: u16,
    primary_body: Seq<char>,
    status: u16,
    body: Seq<char>,
) -> StepV {
    match chat_reply_of(body) {
        Some((mc, rs, er)) => {
            if rs is Some && rs->0.len() > 0 {
                StepV::Done(Ok(rs->0))
            } else if !spec_status_success(status) {
                StepV::Done(
                    Err(
                        ChatErrorV::Upstream(
                            match er {
                                Some(e) => e,
                                None => body,
                            },
                        ),
                    ),
                )
            } else {
                StepV::Done(Err(ChatErrorV::Empty { status: primary_status, body: primary_body }))
            }
        },
        None => StepV::Done(Err(ChatErrorV::Empty { status: primary_status, body: primary_body })),
    }
}

/// The remote reply, classified: `choices[0].message.content` when present
/// (exactly as sent), else on a failure status the provider's nested error
/// message (or the raw body), else an empty-response failure with this
/// exchange's status and body.
pub open spec fn spec_remote_step(status: u16, body: Seq<char>) -> StepV {
    match remote_reply_of(body) {
        Some((c, er)) => {
            if c is Some {
                StepV::Done(Ok(c->0))
            } else if !spec_status_success(status) {
                StepV::Done(
                    Err(
                        ChatErrorV::Upstream(
                            match er {
                                Some(e) => e,
                                None => body,
                            },
                        ),
                    ),
                )
            } else {
                StepV::Done(Err(ChatErrorV::Empty { status, body }))
            }
        },
        None => StepV::Done(Err(ChatErrorV::Empty { status, body })),
    }
}

/// One full step: a transport failure ends any state; otherwise the state's
/// classifier runs on the reply.
pub open spec fn spec_turn_step(turn: TurnV, event: EventV) -> StepV {
    match event {
        EventV::Transport(e) => StepV::Done(Err(ChatErrorV::Transport(e))),
        EventV::Response { status, body } => match turn {
            TurnV::LocalPrimary { request: _, fallback } => spec_local_primary_step(
                fallback,
                status,
                body,
            ),
            TurnV::LocalFallback { request: _, primary_status, primary_body } => {
                spec_local_fallback_step(primary_status, primary_body, status, body)
            },
            TurnV::Remote { request: _ } => spec_remote_step(status, body),
        },
    }
}

pub fn chat_turn_step(turn: ChatTurn, event: HttpEvent) -> (r: TurnResult)
    ensures
        r@ == spec_turn_step(turn@, event@),
{
    match event {
        HttpEvent::Transport(e) => TurnResult::Done(Err(ChatError::Transport(e))),
        HttpEvent::Response { status, body } => match turn {
            ChatTurn::LocalPrimary { request: _, fallback } => {
                match parse_chat_reply(body.as_str()) {
                    Some(fields) => {
                        let has_content = match &fields.message_content {
                            Some(c) => c.as_str().unicode_len() > 0,
                            None => false,
                        };
                        if has_content {
                            let c = match fields.message_content {
                                Some(c) => c,
                                None => String::new(),
                            };
                            TurnResult::Done(Ok(c))
                        } else {
                            let has_response = match &fields.response {
                                Some(c) => c.as_str().unicode_len() > 0,
                                None => false,
                            };
                            if has_response {
                                let c = match fields.response {
                                    Some(c) => c,
                                    None => String::new(),
                                };
                                TurnResult::Done(Ok(c))
                            } else if !status_success(status) {
                                let message = match fields.error {
                                    Some(e) => e,
                                    None => body,
                                };
                                TurnResult::Done(Err(ChatError::Upstream(message)))
                            } else {
                                TurnResult::Pending(
                                    ChatTurn::LocalFallback {
                                        request: fallback,
                                        primary_status: status,
                                        primary_body: body,
                                    },
                                )
                            }
                        }
                    },
                    None => TurnResult::Pending(
                        ChatTurn::LocalFallback {
                            request: fallback,
                            primary_status: status,
                            primary_body: body,
                        },
                    ),
                }
            },
            ChatTurn::LocalFallback { request: _, primary_status, primary_body } => {
                match parse_chat_reply(body.as_str()) {
                    Some(fields) => {
                        let has_response = match &fields.response {
                            Some(c) => c.as_str().unicode_len() > 0,
                            None => false,
                        };
                        if has_response {
                            let c = match fields.response {
                                Some(c) => c,
                                None => String::new(),
                            };
                            TurnResult::Done(Ok(c))
                        } else if !status_success(status) {
                            let message = match fields.error {
                                Some(e) => e,
                                None => body,
                            };
                            TurnResult::Done(Err(ChatError::Upstream(message)))
                        } else {
                            TurnResult::Done(
                                Err(
                                    ChatError::Empty {
                                        status: primary_status,
                                        body: primary_body,
                                    },
                                ),
                            )
                        }
                    },
                    None => TurnResult::Done(
                        Err(ChatError::Empty { status: primary_status, body: primary_body }),
                    ),
                }
            },
            ChatTurn::Remote { request: _ } => {
                match parse_remote_reply(body.as_str()) {
                    Some(fields) => {
                        match fields.content {
                            Some(c) => TurnResult::Done(Ok(c)),
                            None => {
                                if !status_success(status) {
                                    let message = match fields.error_message {
                                        Some(e) => e,
                                        None => body,
                                    };
                                    TurnResult::Done(Err(ChatError::Upstream(message)))
                                } else {
                                    TurnResult::Done(Err(ChatError::Empty { status, body }))
                                }
                            },
                        }
                    },
                    None => TurnResult::Done(Err(ChatError::Empty { status, body })),
                }
            },
        },
    }
}

/// The human-readable description handed to the UI for each failure.
pub open spec fn spec_describe_error(e: ChatErrorV) -> Seq<char> {
    match e {
        ChatErrorV::Transport(m) => m,
        ChatErrorV::Upstream(m) => m,
        ChatErrorV::Empty { status, body } => "empty response: status="@
            + spec_decimal(status as nat) + " body="@ + body,
    }
}

pub fn describe_error(e: &ChatError) -> (r: String)
    ensures
        r@ == spec_describe_error(e@),
{
    match e {
        ChatError::Transport(m) => m.clone(),
        ChatError::Upstream(m) => m.clone(),
        ChatError::Empty { status, body } => {
            let mut s: String = String::from_str("empty response: status=");
            let digits = u64_decimal(*status as u64);
            s.append(digits.as_str());
            s.append(" body=");
            s.append(body.as_str());
            s
        },
    }
}

/// Primary-field exactness, stated as a law: whenever the backend's reply
/// carries content in the primary field (the daemon's non-empty
/// `message.content`, the remote provider's `choices[0].message.content`),
/// the turn finishes with exactly that text — no truncation, no
/// re-encoding — whatever the status code and the other fields.
pub proof fn lemma_primary_content_exact(
    fallback: GenerateRequestV,
    status: u16,
    body: Seq<char>,
    c: Seq<char>,
)
    requires
        chat_reply_of(body) matches Some((mc, _, _)) && mc == Some(c),
        c.len() > 0,
    ensures
        spec_local_primary_step(fallback, status, body) == StepV::Done(Ok(c)),
{
}

/// The remote half of the same law; there the provider's content is taken
/// even when empty, and no fallback exists.
pub proof fn lemma_remote_content_exact(status: u16, body: Seq<char>, c: Seq<char>)
    requires
        remote_reply_of(body) matches Some((cc, _)) && cc == Some(c),
    ensures
        spec_remote_step(status, body) == StepV::Done(Ok(c)),
{
}

} // verus!
