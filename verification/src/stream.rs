//! Framed delivery of one chat turn.
//!
//! A finished turn is delivered to the UI as an ordered sequence of named
//! emissions on the stream's handle: the response text cut into fixed-size
//! character batches, one chunk emission per batch, then exactly one end
//! emission — or, on failure, exactly one error emission and nothing else.

use vstd::prelude::*;

use crate::chat::{ChatError, ChatErrorV, spec_describe_error, describe_error, outcome_view};

verus! {

/// Characters per chunk emission.
pub const CHUNK_SIZE: usize = 8;

/// The text cut front-to-back into batches of `CHUNK_SIZE` characters, the
/// final partial batch included; empty text has no batches.
pub open spec fn spec_chunks(s: Seq<char>) -> Seq<Seq<char>>
    decreases s.len(),
{
    if s.len() == 0 {
        Seq::empty()
    } else if s.len() <= CHUNK_SIZE {
        seq![s]
    } else {
        seq![s.take(CHUNK_SIZE as int)] + spec_chunks(s.skip(CHUNK_SIZE as int))
    }
}

pub open spec fn strs_view(v: Seq<String>) -> Seq<Seq<char>> {
    v.map_values(|s: String| s@)
}

pub fn chunk_text(s: &str) -> (r: Vec<String>)
    ensures
        strs_view(r@) == spec_chunks(s@),
{
    let len = s.unicode_len();
    let mut out: Vec<String> = Vec::new();
    let mut i: usize = 0;
    proof {
        assert(s@.skip(0) =~= s@);
        assert(strs_view(out@) + spec_chunks(s@) =~= spec_chunks(s@));
    }
    while i < len
        invariant
            i <= len,
            len == s@.len(),
            strs_view(out@) + spec_chunks(s@.skip(i as int)) == spec_chunks(s@),
        decreases len - i,
    {
        let j = if len - i > CHUNK_SIZE {
            i + CHUNK_SIZE
        } else {
            len
        };
        let piece = String::from_str(s.substring_char(i, j));
        out.push(piece);
        proof {
            let rest = s@.skip(i as int);
            if rest.len() <= CHUNK_SIZE {
                assert(rest =~= s@.subrange(i as int, j as int));
                assert(s@.skip(j as int) =~= Seq::<char>::empty());
                assert(spec_chunks(rest) == seq![rest]);
            } else {
                assert(rest.take(CHUNK_SIZE as int) =~= s@.subrange(i as int, j as int));
                assert(rest.skip(CHUNK_SIZE as int) =~= s@.skip(j as int));
            }
            assert(strs_view(out@) =~= strs_view(out@.drop_last()) + seq![
                s@.subrange(i as int, j as int),
            ]);
            assert(strs_view(out@) + spec_chunks(s@.skip(j as int)) =~= spec_chunks(s@));
        }
        i = j;
    }
    proof {
        assert(s@.skip(len as int) =~= Seq::<char>::empty());
        assert(strs_view(out@) =~= spec_chunks(s@));
    }
    out
}

/// Batching loses nothing, stated as a law: concatenating the batches in
/// order reproduces the text exactly, whatever its length.
pub proof fn lemma_chunks_concat(s: Seq<char>)
    ensures
        spec_chunks(s).flatten() == s,
    decreases s.len(),
{
    if s.len() == 0 {
        assert(spec_chunks(s).flatten() =~= s);
    } else if s.len() <= CHUNK_SIZE {
        assert(seq![s].flatten() =~= s) by {
            assert(seq![s].drop_first() =~= Seq::<Seq<char>>::empty());
            assert(seq![s].flatten() == s + Seq::<Seq<char>>::empty().flatten());
        }
    } else {
        lemma_chunks_concat(s.skip(CHUNK_SIZE as int));
        let chunks = spec_chunks(s);
        assert(chunks.first() == s.take(CHUNK_SIZE as int));
        assert(chunks.drop_first() =~= spec_chunks(s.skip(CHUNK_SIZE as int)));
        assert(chunks.flatten() == s.take(CHUNK_SIZE as int) + spec_chunks(
            s.skip(CHUNK_SIZE as int),
        ).flatten());
        assert(chunks.flatten() =~= s);
    }
}

/// One UI delivery: the channel it goes out on (the event's name, a colon,
/// the stream handle) and its payload.
pub struct Emission {
    pub channel: String,
    pub payload: String,
}

pub struct EmissionV {
    pub channel: Seq<char>,
    pub payload: Seq<char>,
}

impl View for Emission {
    type V = EmissionV;

    open spec fn view(&self) -> EmissionV {
        EmissionV { channel: self.channel@, payload: self.payload@ }
    }
}

pub open spec fn emissions_view(v: Seq<Emission>) -> Seq<EmissionV> {
    v.map_values(|e: Emission| e@)
}

/// The channel of one named event on one handle.
pub fn event_channel(name: &str, handle: &str) -> (r: String)
    ensures
        r@ == name@ + ":"@ + handle@,
{
    let mut s = String::from_str(name);
    s.append(":");
    s.append(handle);
    s
}

/// The whole delivery of one finished chat turn: chunk emissions for each
/// batch in order, then one end emission with an empty payload; or one
/// error emission carrying the failure's description.
pub open spec fn spec_chat_emissions(
    handle: Seq<char>,
    outcome: Result<Seq<char>, ChatErrorV>,
) -> Seq<EmissionV> {
    match outcome {
        Ok(text) => spec_chunks(text).map_values(
            |t: Seq<char>| EmissionV { channel: "chat-chunk"@ + ":"@ + handle, payload: t },
        ) + seq![
            EmissionV { channel: "chat-end"@ + ":"@ + handle, payload: Seq::empty() },
        ],
        Err(e) => seq![
            EmissionV { channel: "chat-error"@ + ":"@ + handle, payload: spec_describe_error(e) },
        ],
    }
}

pub fn chat_emissions(handle: &str, outcome: Result<String, ChatError>) -> (r: Vec<Emission>)
    ensures
        emissions_view(r@) == spec_chat_emissions(handle@, outcome_view(outcome)),
{
    match outcome {
        Ok(text) => {
            let chunks = chunk_text(text.as_str());
            let ghost chunk_views = spec_chunks(text@);
            let ghost mapped = chunk_views.map_values(
                |t: Seq<char>| EmissionV { channel: "chat-chunk"@ + ":"@ + handle@, payload: t },
            );
            let mut out: Vec<Emission> = Vec::new();
            let n = chunks.len();
            let mut i: usize = 0;
            while i < n
                invariant
                    i <= n,
                    n == chunks@.len(),
                    strs_view(chunks@) == chunk_views,
                    mapped == chunk_views.map_values(
                        |t: Seq<char>| EmissionV { channel: "chat-chunk"@ + ":"@ + handle@, payload: t },
                    ),
                    out@.len() == i,
                    forall|j: int| 0 <= j < i ==> out@[j]@ == mapped[j],
                decreases n - i,
            {
                let e = Emission {
                    channel: event_channel("chat-chunk", handle),
                    payload: chunks[i].clone(),
                };
                proof {
                    assert(chunk_views[i as int] == chunks@[i as int]@);
                    assert(mapped[i as int] == EmissionV {
                        channel: "chat-chunk"@ + ":"@ + handle@,
                        payload: chunk_views[i as int],
                    });
                }
                out.push(e);
                i += 1;
            }
            let done = Emission { channel: event_channel("chat-end", handle), payload: String::new() };
            out.push(done);
            proof {
                assert(emissions_view(out@) =~= spec_chat_emissions(handle@, outcome_view(Ok(text))));
            }
            out
        },
        Err(e) => {
            let message = describe_error(&e);
            let mut out: Vec<Emission> = Vec::new();
            out.push(Emission { channel: event_channel("chat-error", handle), payload: message });
            proof {
                assert(emissions_view(out@) =~= spec_chat_emissions(handle@, outcome_view(Err(e))));
            }
            out
        },
    }
}

/// The delivery frame, stated as a law: every finished turn emits at least
/// one emission; on success every emission but the last is a chunk and the
/// last is the single end; on failure the single error emission stands
/// alone.  End and error are mutually exclusive and terminal.
pub proof fn lemma_chat_emissions_framing(
    handle: Seq<char>,
    outcome: Result<Seq<char>, ChatErrorV>,
)
    ensures
        spec_chat_emissions(handle, outcome).len() >= 1,
        outcome is Ok ==> spec_chat_emissions(handle, outcome).last().channel == "chat-end"@
            + ":"@ + handle,
        outcome is Ok ==> forall|i: int|
            0 <= i < spec_chat_emissions(handle, outcome).len() - 1 ==> #[trigger] spec_chat_emissions(
                handle,
                outcome,
            )[i].channel == "chat-chunk"@ + ":"@ + handle,
        outcome is Err ==> spec_chat_emissions(handle, outcome) =~= seq![
            EmissionV {
                channel: "chat-error"@ + ":"@ + handle,
                payload: spec_describe_error(outcome->Err_0),
            },
        ],
{
    match outcome {
        Ok(text) => {
            let mapped = spec_chunks(text).map_values(
                |t: Seq<char>| EmissionV { channel: "chat-chunk"@ + ":"@ + handle, payload: t },
            );
            let evs = spec_chat_emissions(handle, outcome);
            assert(evs.last().channel == "chat-end"@ + ":"@ + handle);
            assert forall|i: int| 0 <= i < evs.len() - 1 implies #[trigger] evs[i].channel
                == "chat-chunk"@ + ":"@ + handle by {
                assert(evs[i] == mapped[i]);
            }
        },
        Err(_) => {},
    }
}

/// Chunk delivery reproduces the text, stated as a law: on success, the
/// concatenation of the chunk payloads in emission order is exactly the
/// response text.
pub proof fn lemma_chat_emissions_text(handle: Seq<char>, text: Seq<char>)
    ensures
        spec_chat_emissions(handle, Ok(text)).drop_last().map_values(
            |e: EmissionV| e.payload,
        ).flatten() == text,
{
    let mapped = spec_chunks(text).map_values(
        |t: Seq<char>| EmissionV { channel: "chat-chunk"@ + ":"@ + handle, payload: t },
    );
    assert(spec_chat_emissions(handle, Ok(text)).drop_last() =~= mapped);
    assert(mapped.map_values(|e: EmissionV| e.payload) =~= spec_chunks(text));
    lemma_chunks_concat(text);
}

} // verus!
