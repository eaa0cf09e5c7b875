//! Reasoning-mode ("think") translation.
//!
//! The local daemon's older releases lack a native reasoning toggle, so when
//! thinking is *not* requested, a literal disable directive is appended to
//! the content of the last outgoing message (or to the flattened prompt).
//! When thinking *is* requested, the messages are left untouched and the
//! request carries a reasoning-effort hint instead.

use vstd::prelude::*;

use crate::config::{ChatMessage, MessageView, msgs_view, copy_message};

verus! {

/// The directive, with its single separating space.
pub open spec fn no_think_directive() -> Seq<char> {
    " /no_think"@
}

/// Messages as they go out: when thinking is off and there is a last
/// message, its content ends with the disable directive; otherwise the
/// sequence is unchanged.
pub open spec fn spec_apply_think(msgs: Seq<MessageView>, think: bool) -> Seq<MessageView> {
    if think || msgs.len() == 0 {
        msgs
    } else {
        msgs.update(
            msgs.len() - 1,
            MessageView {
                role: msgs.last().role,
                content: msgs.last().content + no_think_directive(),
            },
        )
    }
}

pub fn apply_think_to_messages(msgs: &Vec<ChatMessage>, think: bool) -> (r: Vec<ChatMessage>)
    ensures
        msgs_view(r@) == spec_apply_think(msgs_view(msgs@), think),
{
    let mut out: Vec<ChatMessage> = Vec::new();
    let n = msgs.len();
    let mut i: usize = 0;
    while i < n
        invariant
            i <= n,
            n == msgs@.len(),
            out@.len() == i,
            forall|j: int| 0 <= j < i ==> out@[j]@ == msgs@[j]@,
        decreases n - i,
    {
        out.push(copy_message(&msgs[i]));
        i += 1;
    }
    if !think && n > 0 {
        let last = &msgs[n - 1];
        let new_content = last.content.clone().concat(" /no_think");
        let replacement = ChatMessage { role: last.role.clone(), content: new_content };
        out.set(n - 1, replacement);
        proof {
            assert(msgs_view(out@) =~= spec_apply_think(msgs_view(msgs@), think));
        }
    } else {
        proof {
            assert(msgs_view(out@) =~= spec_apply_think(msgs_view(msgs@), think));
        }
    }
    out
}

/// The flattened prompt: `role: content` lines joined by a newline.
pub open spec fn spec_flatten_messages(msgs: Seq<MessageView>) -> Seq<char>
    decreases msgs.len(),
{
    if msgs.len() == 0 {
        Seq::empty()
    } else if msgs.len() == 1 {
        msgs[0].role + ": "@ + msgs[0].content
    } else {
        spec_flatten_messages(msgs.drop_last()) + "\n"@ + msgs.last().role + ": "@
            + msgs.last().content
    }
}

pub fn flatten_messages(msgs: &Vec<ChatMessage>) -> (r: String)
    ensures
        r@ == spec_flatten_messages(msgs_view(msgs@)),
{
    let mut out: String = String::new();
    let n = msgs.len();
    let mut i: usize = 0;
    while i < n
        invariant
            i <= n,
            n == msgs@.len(),
            out@ == spec_flatten_messages(msgs_view(msgs@).take(i as int)),
        decreases n - i,
    {
        if i > 0 {
            out.append("\n");
        }
        out.append(msgs[i].role.as_str());
        out.append(": ");
        out.append(msgs[i].content.as_str());
        proof {
            let mv = msgs_view(msgs@);
            assert(mv.take(i + 1).drop_last() =~= mv.take(i as int));
            assert(mv.take(i + 1).last() == mv[i as int]);
            assert(out@ =~= spec_flatten_messages(mv.take(i + 1)));
        }
        i += 1;
    }
    proof {
        assert(msgs_view(msgs@).take(n as int) =~= msgs_view(msgs@));
    }
    out
}

/// The prompt as it goes out: the disable directive is appended exactly when
/// thinking is off.
pub open spec fn spec_apply_think_prompt(prompt: Seq<char>, think: bool) -> Seq<char> {
    if think {
        prompt
    } else {
        prompt + no_think_directive()
    }
}

pub fn apply_think_to_prompt(prompt: String, think: bool) -> (r: String)
    ensures
        r@ == spec_apply_think_prompt(prompt@, think),
{
    if think {
        prompt
    } else {
        prompt.concat(" /no_think")
    }
}

/// Reasoning-mode translation, stated as a law: with thinking off, the
/// outgoing last-message content is the incoming content with the directive
/// appended (so it ends with the directive), and every earlier message is
/// unchanged; with thinking on, nothing is modified.
pub proof fn lemma_think_translation(msgs: Seq<MessageView>, think: bool)
    requires
        msgs.len() > 0,
    ensures
        spec_apply_think(msgs, think).len() == msgs.len(),
        forall|j: int| 0 <= j < msgs.len() - 1 ==> spec_apply_think(msgs, think)[j] == msgs[j],
        think ==> spec_apply_think(msgs, true) == msgs,
        !think ==> spec_apply_think(msgs, false).last().role == msgs.last().role,
        !think ==> spec_apply_think(msgs, false).last().content == msgs.last().content
            + no_think_directive(),
        !think ==> {
            let c = spec_apply_think(msgs, false).last().content;
            c.subrange(c.len() - no_think_directive().len(), c.len() as int)
                == no_think_directive()
        },
{
    let out = spec_apply_think(msgs, think);
    if !think {
        assert(out.last() == out[msgs.len() - 1]);
        let c = out.last().content;
        assert(c == msgs.last().content + no_think_directive());
        assert(c.subrange(c.len() - no_think_directive().len(), c.len() as int)
            =~= no_think_directive());
    }
}

} // verus!
