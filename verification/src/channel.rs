//! The duplex channel manager's decision logic.
//!
//! The transport itself — opening the websocket, splitting it into the
//! outbound handle and the inbound sequence, storing the handle in the
//! session's shared state — is I/O and lives with the caller. What the
//! library owns is the derivation of the endpoint from the page's host and
//! the meaning of the one open attempt's outcome.

use vstd::prelude::*;
use vstd::string::StringExecFns;

use crate::error::ChatError;

verus! {

/// The endpoint for the page served from `hostname`: the chat service
/// listens on port 3000 under the `/ws` path.
pub fn endpoint_url(hostname: &str) -> (url: String)
    ensures
        url@ == "ws://"@ + hostname@ + ":3000/ws"@,
{
    let mut url = String::from_str("ws://");
    url.append(hostname);
    url.append(":3000/ws");
    url
}

/// What the one channel-open attempt of a session means: opening is tried
/// exactly once, with no retry, so a failed handshake is fatal for the
/// session's ability to chat.
pub fn open_outcome(handshake_ok: bool) -> (r: Result<(), ChatError>)
    ensures
        r == if handshake_ok {
            Ok::<(), ChatError>(())
        } else {
            Err::<(), ChatError>(ChatError::ChannelOpen)
        },
{
    if handshake_ok {
        Ok(())
    } else {
        Err(ChatError::ChannelOpen)
    }
}

} // verus!
