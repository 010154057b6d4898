//! Streaming conversation synchronization engine for a browser chat client.
//!
//! The library owns the conversation state and the decision logic around it:
//! recording a user's message before transmission, appending the reply
//! placeholder once a transmit settles, and folding server-streamed text
//! deltas onto the last message. The duplex transport itself (a websocket),
//! the reactive UI runtime and the background receive loop live outside the
//! library and drive it through these verified entry points.

pub mod applier;
pub mod channel;
pub mod conversation;
pub mod error;
pub mod send;

pub use applier::InboundFrame;
pub use conversation::{Conversation, Message};
pub use error::ChatError;
