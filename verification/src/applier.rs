//! The streaming token applier: folds inbound frames into the conversation.
//!
//! A single background task drains the channel's inbound sequence one frame
//! at a time and calls [`apply_inbound`] for each. A text frame grows the
//! last message; any other frame ends the task for good for this channel.

use vstd::prelude::*;

use crate::conversation::{evolves_to, grow_last, Conversation, MessageView};

verus! {

/// One element of the inbound sequence, as the applier sees it: a text frame
/// carrying a delta, or anything else (a non-text frame, a transport error).
pub enum InboundFrame {
    Text(String),
    NonText,
}

/// Folds one inbound frame into the conversation and says whether the
/// receive task should keep draining the sequence.
///
/// A text frame appends its content onto the last message; some message must
/// already exist to receive it (an empty delta is a legal no-op append). Any
/// other frame changes nothing and stops the task permanently.
pub fn apply_inbound(conv: &mut Conversation, frame: InboundFrame) -> (cont: bool)
    requires
        frame is Text ==> old(conv)@.len() > 0,
    ensures
        cont <==> frame is Text,
        frame matches InboundFrame::Text(d) ==> final(conv)@ == grow_last(old(conv)@, d@),
        frame is NonText ==> final(conv)@ == old(conv)@,
{
    match frame {
        InboundFrame::Text(d) => {
            conv.mutate_last_text(d.as_str());
            true
        },
        InboundFrame::NonText => false,
    }
}

/// The conversation after a whole run of text deltas, oldest first.
pub open spec fn apply_deltas(c: Seq<MessageView>, ds: Seq<Seq<char>>) -> Seq<MessageView>
    decreases ds.len(),
{
    if ds.len() == 0 {
        c
    } else {
        apply_deltas(grow_last(c, ds.first()), ds.drop_first())
    }
}

/// All the deltas of a run, joined in arrival order.
pub open spec fn concat_deltas(ds: Seq<Seq<char>>) -> Seq<char>
    decreases ds.len(),
{
    if ds.len() == 0 {
        Seq::empty()
    } else {
        ds.first() + concat_deltas(ds.drop_first())
    }
}

/// A run of deltas grows only the last message, whose final text is the
/// concatenation of all the deltas in arrival order; every other message,
/// and the last message's author, stay exactly as they were.
pub proof fn lemma_deltas_concatenate(c: Seq<MessageView>, ds: Seq<Seq<char>>)
    requires
        c.len() > 0,
    ensures
        apply_deltas(c, ds).len() == c.len(),
        forall|i: int| 0 <= i < c.len() - 1 ==> apply_deltas(c, ds)[i] == c[i],
        apply_deltas(c, ds).last().user == c.last().user,
        apply_deltas(c, ds).last().text == c.last().text + concat_deltas(ds),
    decreases ds.len(),
{
    if ds.len() == 0 {
        assert(c.last().text + concat_deltas(ds) =~= c.last().text);
    } else {
        let c1 = grow_last(c, ds.first());
        assert(c1.last() == MessageView {
            text: c.last().text + ds.first(),
            user: c.last().user,
        });
        assert(forall|i: int| 0 <= i < c.len() - 1 ==> c1[i] == c[i]);
        lemma_deltas_concatenate(c1, ds.drop_first());
        assert(forall|i: int| 0 <= i < c.len() - 1 ==> apply_deltas(c1, ds.drop_first())[i]
            == c1[i]);
        assert(c.last().text + concat_deltas(ds) =~= (c.last().text + ds.first())
            + concat_deltas(ds.drop_first()));
    }
}

/// A whole run of deltas is a lawful change of the log: nothing but the last
/// message's text moves, and that text only grows.
pub proof fn lemma_deltas_evolve(c: Seq<MessageView>, ds: Seq<Seq<char>>)
    requires
        c.len() > 0,
    ensures
        evolves_to(c, apply_deltas(c, ds)),
{
    lemma_deltas_concatenate(c, ds);
    let r = apply_deltas(c, ds);
    assert(r[c.len() - 1] == r.last());
    assert(c.last().text =~= r.last().text.subrange(0, c.last().text.len() as int));
}

} // verus!
