//! The trusted boundary to `serde_json`.
//!
//! Each backend reply is a JSON document of one documented shape, and the
//! gateway's decisions depend only on a handful of fields of it.  Each
//! wrapper below parses one such shape and hands the fields back as plain
//! values; what the parse returns for a given text is a function of that
//! text alone, so it is given a name (an uninterpreted spec function) and
//! every caller's contract speaks through that name.

use vstd::prelude::*;

use crate::config::opt_string_view;

verus! {

/// The fields the local daemon's chat (and completion) replies can carry.
pub struct ChatReplyFields {
    pub message_content: Option<String>,
    pub response: Option<String>,
    pub error: Option<String>,
}

/// What parsing a local-daemon reply body yields: `None` when the body is
/// not JSON; otherwise the `message.content`, `response` and `error` string
/// fields, each absent when missing or not a string.
pub uninterp spec fn chat_reply_of(body: Seq<char>) -> Option<
    (Option<Seq<char>>, Option<Seq<char>>, Option<Seq<char>>),
>;

/// Relies on `serde_json::from_str::<Value>` and `Value::{get, as_str}`:
/// whether the body parses and which of the three fields it carries are
/// functions of the body text alone.
#[verifier::external_body]
pub(crate) fn parse_chat_reply(body: &str) -> (r: Option<ChatReplyFields>)
    ensures
        r is Some <==> chat_reply_of(body@) is Some,
        r is Some ==> {
            let (mc, rs, er) = chat_reply_of(body@)->Some_0;
            &&& opt_string_view(r->Some_0.message_content) == mc
            &&& opt_string_view(r->Some_0.response) == rs
            &&& opt_string_view(r->Some_0.error) == er
        },
{
    let v: serde_json::Value = serde_json::from_str(body).ok()?;
    Some(ChatReplyFields {
        message_content: v
            .get("message")
            .and_then(|m| m.get("content"))
            .and_then(|c| c.as_str())
            .map(String::from),
        response: v.get("response").and_then(|c| c.as_str()).map(String::from),
        error: v.get("error").and_then(|e| e.as_str()).map(String::from),
    })
}

/// The fields a remote OpenAI-compatible reply can carry.
pub struct RemoteReplyFields {
    pub content: Option<String>,
    pub error_message: Option<String>,
}

/// What parsing a remote reply body yields: `None` when the body is not
/// JSON; otherwise `choices[0].message.content` and `error.message`, each
/// absent when missing or not a string.
pub uninterp spec fn remote_reply_of(body: Seq<char>) -> Option<
    (Option<Seq<char>>, Option<Seq<char>>),
>;

/// Relies on `serde_json::from_str::<Value>` and `Value::{get, as_str}`:
/// both fields are functions of the body text alone.
#[verifier::external_body]
pub(crate) fn parse_remote_reply(body: &str) -> (r: Option<RemoteReplyFields>)
    ensures
        r is Some <==> remote_reply_of(body@) is Some,
        r is Some ==> {
            let (c, er) = remote_reply_of(body@)->Some_0;
            &&& opt_string_view(r->Some_0.content) == c
            &&& opt_string_view(r->Some_0.error_message) == er
        },
{
    let v: serde_json::Value = serde_json::from_str(body).ok()?;
    let content = v.get("choices").and_then(|c| c.get(0)).and_then(|c| c.get("message"));
    Some(RemoteReplyFields {
        content: content.and_then(|m| m.get("content")).and_then(|c| c.as_str()).map(String::from),
        error_message: v
            .get("error")
            .and_then(|e| e.get("message"))
            .and_then(|m| m.as_str())
            .map(String::from),
    })
}

/// What parsing a daemon inventory body yields: `None` when the body is not
/// JSON; otherwise the `name` strings of the entries of `models`, in order,
/// empty when `models` is missing or not an array, entries without a string
/// `name` skipped.
pub uninterp spec fn tags_models_of(body: Seq<char>) -> Option<Seq<Seq<char>>>;

/// Relies on `serde_json::from_str::<Value>` and
/// `Value::{get, as_array, as_str}`: the name list is a function of the
/// body text alone.
#[verifier::external_body]
pub(crate) fn parse_tags_models(body: &str) -> (r: Option<Vec<String>>)
    ensures
        r is Some <==> tags_models_of(body@) is Some,
        r is Some ==> r->Some_0.deep_view() == tags_models_of(body@)->Some_0,
{
    match serde_json::from_str::<serde_json::Value>(body) {
        Ok(v) => Some(
            v.get("models")
                .and_then(|m| m.as_array())
                .map(|arr| {
                    arr.iter()
                        .filter_map(|m| m.get("name").and_then(|n| n.as_str()).map(String::from))
                        .collect()
                })
                .unwrap_or_default(),
        ),
        Err(_) => None,
    }
}

/// What parsing a remote inventory body yields: as for the daemon's, with
/// the entries of `data` and their `id` strings.
pub uninterp spec fn remote_models_of(body: Seq<char>) -> Option<Seq<Seq<char>>>;

/// Relies on `serde_json::from_str::<Value>` and
/// `Value::{get, as_array, as_str}`: the identifier list is a function of
/// the body text alone.
#[verifier::external_body]
pub(crate) fn parse_remote_models(body: &str) -> (r: Option<Vec<String>>)
    ensures
        r is Some <==> remote_models_of(body@) is Some,
        r is Some ==> r->Some_0.deep_view() == remote_models_of(body@)->Some_0,
{
    match serde_json::from_str::<serde_json::Value>(body) {
        Ok(v) => Some(
            v.get("data")
                .and_then(|m| m.as_array())
                .map(|arr| {
                    arr.iter()
                        .filter_map(|m| m.get("id").and_then(|n| n.as_str()).map(String::from))
                        .collect()
                })
                .unwrap_or_default(),
        ),
        Err(_) => None,
    }
}

/// One line of the pull-progress protocol, parsed.
pub struct PullRecord {
    pub status: String,
    pub total: u64,
    pub completed: u64,
}

/// What parsing one progress line yields: `None` when the line is not JSON;
/// otherwise the `status` string (empty when missing) and the `total` and
/// `completed` byte counts (zero when missing or not an unsigned integer).
pub uninterp spec fn pull_record_of(line: Seq<u8>) -> Option<(Seq<char>, u64, u64)>;

/// Relies on `serde_json::from_slice::<Value>` and
/// `Value::{get, as_str, as_u64}`: the record is a function of the line's
/// bytes alone.
#[verifier::external_body]
pub(crate) fn parse_pull_record(line: &[u8]) -> (r: Option<PullRecord>)
    ensures
        r is Some <==> pull_record_of(line@) is Some,
        r is Some ==> {
            let (status, total, completed) = pull_record_of(line@)->Some_0;
            &&& r->Some_0.status@ == status
            &&& r->Some_0.total == total
            &&& r->Some_0.completed == completed
        },
{
    match serde_json::from_slice::<serde_json::Value>(line) {
        Ok(v) => Some(PullRecord {
            status: v.get("status").and_then(|s| s.as_str()).unwrap_or("").to_string(),
            total: v.get("total").and_then(|t| t.as_u64()).unwrap_or(0),
            completed: v.get("completed").and_then(|t| t.as_u64()).unwrap_or(0),
        }),
        Err(_) => None,
    }
}

/// ASCII bytes read as the characters with the same code points.
pub open spec fn ascii_chars_of(bytes: Seq<u8>) -> Seq<char> {
    bytes.map_values(|b: u8| b as char)
}

/// What decoding a byte line as text yields.
pub uninterp spec fn utf8_lossy_of(bytes: Seq<u8>) -> Seq<char>;

/// Relies on `String::from_utf8_lossy`: the text is a function of the bytes
/// alone; valid UTF-8 decodes unchanged, and since UTF-8 extends ASCII, a
/// line of bytes below 128 decodes to exactly those characters.
#[verifier::external_body]
pub(crate) fn bytes_to_text(bytes: &[u8]) -> (r: String)
    ensures
        r@ == utf8_lossy_of(bytes@),
        (forall|i: int| 0 <= i < bytes@.len() ==> bytes@[i] < 128) ==> r@ == ascii_chars_of(
            bytes@,
        ),
{
    String::from_utf8_lossy(bytes).into_owned()
}

/// What serializing a string list to JSON yields.
pub uninterp spec fn json_list_of(items: Seq<Seq<char>>) -> Seq<char>;

/// Relies on `serde_json::to_string`: serializing a `Vec<String>` is a
/// function of the strings alone, and cannot fail for this type (no map
/// keys, no fallible serializer), so the error arm is unreachable.
#[verifier::external_body]
pub(crate) fn to_json_list(items: &Vec<String>) -> (r: String)
    ensures
        r@ == json_list_of(items.deep_view()),
{
    serde_json::to_string(items).unwrap_or_else(|_| String::new())
}

} // verus!
