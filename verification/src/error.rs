//! The failure kinds of the engine.

use vstd::prelude::*;

verus! {

/// What can go wrong around the conversation.
///
/// `ChannelOpen` is fatal for the session: the one open attempt failed and
/// there is no retry. `Transmit` is reported to the send action's caller; the
/// user message already recorded is not rolled back. `InvariantViolation`
/// marks a programming error: growing the last message of an empty log.
#[derive(Clone, Copy, Debug, PartialEq, Eq, Structural)]
pub enum ChatError {
    ChannelOpen,
    Transmit,
    InvariantViolation,
}

impl ChatError {
    /// A fixed description of the failure, for the UI collaborator.
    pub fn message(&self) -> (s: &'static str)
        ensures
            self is ChannelOpen ==> s@ == "failed to establish WebSocket connection"@,
            self is Transmit ==> s@ == "WebSocket issue"@,
            self is InvariantViolation ==> s@ == "no message to grow"@,
    {
        match self {
            ChatError::ChannelOpen => "failed to establish WebSocket connection",
            ChatError::Transmit => "WebSocket issue",
            ChatError::InvariantViolation => "no message to grow",
        }
    }
}

} // verus!
