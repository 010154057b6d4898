//! The conversation store: an ordered message log with controlled mutation.
//!
//! The log is append-only, except that the text of the *last* message may
//! grow in place while a reply is being streamed. No message other than the
//! last is ever mutated.

use vstd::prelude::*;
use vstd::string::StringExecFns;

use crate::error::ChatError;

verus! {

/// One entry of the conversation: the raw text and who produced it.
pub struct Message {
    pub text: String,
    pub user: bool,
}

/// Mathematical image of a `Message`: its text as a sequence of characters.
pub struct MessageView {
    pub text: Seq<char>,
    pub user: bool,
}

impl View for Message {
    type V = MessageView;

    open spec fn view(&self) -> MessageView {
        MessageView { text: self.text@, user: self.user }
    }
}

/// A user-authored message, its text fixed at creation.
pub open spec fn user_message(text: Seq<char>) -> MessageView {
    MessageView { text: text, user: true }
}

/// An empty reply-side entry, created to receive streamed deltas.
pub open spec fn placeholder() -> MessageView {
    MessageView { text: Seq::empty(), user: false }
}

/// The log after the last message's text grew by `delta`.
pub open spec fn grow_last(c: Seq<MessageView>, delta: Seq<char>) -> Seq<MessageView>
    recommends
        c.len() > 0,
{
    c.update(c.len() - 1, MessageView { text: c.last().text + delta, user: c.last().user })
}

/// How the log may lawfully change: it only grows, every message but the
/// last is frozen, and the one that is last may only grow its text, keeping
/// its author.
pub open spec fn evolves_to(a: Seq<MessageView>, b: Seq<MessageView>) -> bool {
    &&& a.len() <= b.len()
    &&& (forall|i: int| 0 <= i < a.len() - 1 ==> b[i] == a[i])
    &&& a.len() > 0 ==> {
        &&& b[a.len() - 1].user == a.last().user
        &&& a.last().text.is_prefix_of(b[a.len() - 1].text)
    }
}

/// Appending a message is a lawful change of the log.
pub proof fn lemma_append_evolves(c: Seq<MessageView>, m: MessageView)
    ensures
        evolves_to(c, c.push(m)),
{
    if c.len() > 0 {
        assert(c.last().text =~= c.push(m)[c.len() - 1].text.subrange(0, c.last().text.len() as int));
    }
}

/// Growing the last message's text is a lawful change of the log.
pub proof fn lemma_grow_last_evolves(c: Seq<MessageView>, delta: Seq<char>)
    requires
        c.len() > 0,
    ensures
        evolves_to(c, grow_last(c, delta)),
{
    assert(c.last().text =~= grow_last(c, delta)[c.len() - 1].text.subrange(
        0,
        c.last().text.len() as int,
    ));
}

/// Lawful changes compose: the log a reader saw earlier is still a lawful
/// ancestor of any later state.
pub proof fn lemma_evolves_transitive(
    a: Seq<MessageView>,
    b: Seq<MessageView>,
    c: Seq<MessageView>,
)
    requires
        evolves_to(a, b),
        evolves_to(b, c),
    ensures
        evolves_to(a, c),
{
    if a.len() > 0 {
        let j = a.len() - 1;
        if j < b.len() - 1 {
            assert(c[j] == b[j]);
        } else {
            assert(b[j] == b.last());
            assert(a.last().text =~= c[j].text.subrange(0, a.last().text.len() as int));
        }
    }
}

/// The ordered message log. Render order is arrival order.
pub struct Conversation {
    pub messages: Vec<Message>,
}

impl View for Conversation {
    type V = Seq<MessageView>;

    open spec fn view(&self) -> Seq<MessageView> {
        self.messages@.map_values(|m: Message| m@)
    }
}

impl Conversation {
    /// An empty conversation.
    pub fn new() -> (c: Self)
        ensures
            c@ == Seq::<MessageView>::empty(),
    {
        let c = Conversation { messages: Vec::new() };
        proof {
            assert(c@ =~= Seq::<MessageView>::empty());
        }
        c
    }

    /// How many messages the log holds.
    pub fn len(&self) -> (n: usize)
        ensures
            n == self@.len(),
    {
        self.messages.len()
    }

    /// Whether the log holds no message yet.
    pub fn is_empty(&self) -> (b: bool)
        ensures
            b <==> self@.len() == 0,
    {
        self.messages.is_empty()
    }

    /// The current ordered log, for rendering. Reading takes no lock and
    /// changes nothing.
    pub fn snapshot(&self) -> (s: &Vec<Message>)
        ensures
            s@.map_values(|m: Message| m@) == self@,
    {
        &self.messages
    }

    /// Inserts `m` at the end; every prior message keeps its place.
    pub fn append(&mut self, m: Message)
        ensures
            final(self)@ == old(self)@.push(m@),
    {
        let ghost mv = m@;
        self.messages.push(m);
        proof {
            assert(final(self)@ =~= old(self)@.push(mv));
        }
    }

    /// Appends `delta` to the text of the final message. Calling this on an
    /// empty conversation is a programming error, excluded by contract.
    pub fn mutate_last_text(&mut self, delta: &str)
        requires
            old(self)@.len() > 0,
        ensures
            final(self)@ == grow_last(old(self)@, delta@),
    {
        let i = self.messages.len() - 1;
        let m = &mut self.messages[i];
        m.text.append(delta);
        proof {
            assert(final(self)@ =~= grow_last(old(self)@, delta@));
        }
    }

    /// Like `mutate_last_text`, but an empty conversation is answered with
    /// the `InvariantViolation` defect instead of being excluded by contract;
    /// the log is then left untouched.
    pub fn try_mutate_last_text(&mut self, delta: &str) -> (r: Result<(), ChatError>)
        ensures
            old(self)@.len() == 0 ==> r == Err::<(), ChatError>(ChatError::InvariantViolation)
                && final(self)@ == old(self)@,
            old(self)@.len() > 0 ==> r == Ok::<(), ChatError>(())
                && final(self)@ == grow_last(old(self)@, delta@),
    {
        if self.messages.is_empty() {
            Err(ChatError::InvariantViolation)
        } else {
            self.mutate_last_text(delta);
            Ok(())
        }
    }
}

} // verus!
