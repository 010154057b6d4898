//! The send action coordinator: the two synchronous steps of a send.
//!
//! A send runs in three steps. First the user's message is recorded, before
//! any network traffic, so it is visible at once and in order whatever the
//! transport later does. Then the text goes out over the shared outbound
//! handle — that step awaits the transport and so lives with the caller.
//! Last, once the transmit settles (success or failure alike), an empty
//! assistant placeholder is appended to receive the streamed reply.

use vstd::prelude::*;

use crate::conversation::{
    evolves_to,
    placeholder,
    user_message,
    Conversation,
    Message,
    MessageView,
};
use crate::error::ChatError;

verus! {

/// The log after a send's first step: the user's message stands at the end.
pub open spec fn recorded(c: Seq<MessageView>, text: Seq<char>) -> Seq<MessageView> {
    c.push(user_message(text))
}

/// The log after a send settles: a fresh placeholder stands at the end.
pub open spec fn settled(c: Seq<MessageView>) -> Seq<MessageView> {
    c.push(placeholder())
}

/// The log after one whole successful send of `text`.
pub open spec fn sent(c: Seq<MessageView>, text: Seq<char>) -> Seq<MessageView> {
    settled(recorded(c, text))
}

/// The log after a run of successful sends, oldest first.
pub open spec fn after_sends(c: Seq<MessageView>, texts: Seq<Seq<char>>) -> Seq<MessageView>
    decreases texts.len(),
{
    if texts.len() == 0 {
        c
    } else {
        after_sends(sent(c, texts.first()), texts.drop_first())
    }
}

/// A send's first step: records the user's message at the end of the log,
/// before any network traffic.
pub fn record_user_message(conv: &mut Conversation, text: String)
    ensures
        final(conv)@ == recorded(old(conv)@, text@),
{
    conv.append(Message { text, user: true });
}

/// A send's last step, run when the transmit has settled either way: appends
/// the empty assistant placeholder that the reply stream will grow, and
/// reports a failed transmit to the caller. The user's message recorded in
/// the first step is never rolled back.
pub fn settle_send(conv: &mut Conversation, transmit_ok: bool) -> (r: Result<(), ChatError>)
    ensures
        final(conv)@ == settled(old(conv)@),
        r == if transmit_ok {
            Ok::<(), ChatError>(())
        } else {
            Err::<(), ChatError>(ChatError::Transmit)
        },
{
    conv.append(Message { text: String::new(), user: false });
    if transmit_ok {
        Ok(())
    } else {
        Err(ChatError::Transmit)
    }
}

/// No send loses a user message: once the first step has recorded it, the
/// settled log still holds it, alone at the index where it was appended,
/// whatever the transmit outcome — `settled` does not depend on it.
pub proof fn lemma_user_message_kept(c: Seq<MessageView>, text: Seq<char>)
    ensures
        sent(c, text).len() == c.len() + 2,
        sent(c, text)[c.len() as int] == user_message(text),
        sent(c, text).last() == placeholder(),
        forall|i: int| 0 <= i < c.len() ==> sent(c, text)[i] == c[i],
{
}

/// A run of successful sends leaves the log ending in send order: for each
/// text, the user's message immediately followed by its empty placeholder,
/// and everything that stood before the run untouched.
pub proof fn lemma_sends_alternate(c: Seq<MessageView>, texts: Seq<Seq<char>>)
    ensures
        after_sends(c, texts).len() == c.len() + 2 * texts.len(),
        forall|i: int| 0 <= i < c.len() ==> after_sends(c, texts)[i] == c[i],
        forall|k: int| 0 <= k < texts.len() ==> #[trigger] after_sends(c, texts)[c.len() + 2 * k]
            == user_message(texts[k]),
        forall|k: int| 0 <= k < texts.len() ==> #[trigger] after_sends(c, texts)[c.len() + 2 * k + 1]
            == placeholder(),
    decreases texts.len(),
{
    if texts.len() > 0 {
        let c1 = sent(c, texts.first());
        let rest = texts.drop_first();
        lemma_sends_alternate(c1, rest);
        let r = after_sends(c, texts);
        assert(r == after_sends(c1, rest));
        assert(forall|i: int| 0 <= i < c.len() ==> c1[i] == c[i]);
        assert(forall|i: int| 0 <= i < c.len() ==> #[trigger] after_sends(c1, rest)[i] == c1[i]);
        assert forall|k: int| 0 <= k < texts.len() implies #[trigger] r[c.len() + 2 * k]
            == user_message(texts[k]) by {
            if k == 0 {
                assert(after_sends(c1, rest)[c1.len() - 2] == c1[c1.len() - 2]);
            } else {
                assert(after_sends(c1, rest)[c1.len() + 2 * (k - 1)] == user_message(rest[k - 1]));
                assert(rest[k - 1] == texts[k]);
            }
        }
        assert forall|k: int| 0 <= k < texts.len() implies #[trigger] r[c.len() + 2 * k + 1]
            == placeholder() by {
            if k == 0 {
                assert(after_sends(c1, rest)[c1.len() - 1] == c1[c1.len() - 1]);
            } else {
                assert(after_sends(c1, rest)[c1.len() + 2 * (k - 1) + 1] == placeholder());
            }
        }
    }
}

/// A whole run of sends is a lawful change of the log: it only appends, and
/// what already stood there stays untouched.
pub proof fn lemma_sends_evolve(c: Seq<MessageView>, texts: Seq<Seq<char>>)
    ensures
        evolves_to(c, after_sends(c, texts)),
{
    lemma_sends_alternate(c, texts);
    let r = after_sends(c, texts);
    if c.len() > 0 {
        assert(r[c.len() - 1] == c.last());
        assert(c.last().text =~= r[c.len() - 1].text.subrange(0, c.last().text.len() as int));
    }
}

} // verus!
