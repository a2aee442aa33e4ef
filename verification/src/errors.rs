//! Errors arising from communication with the peer.

use vstd::prelude::*;

verus! {

/// Everything that can go wrong while connecting, sending a command,
/// or waiting for its response.
#[derive(Debug)]
pub enum ConnectionError {
    /// The connection could not be established; carries the target
    /// address and the underlying cause.
    Connect { url: String, cause: String },
    /// Sending a message over the link failed.
    Send { cause: String },
    /// No response arrived within the timeout window, in seconds.
    Timeout { secs: u64 },
    /// An inbound message was not valid JSON text.
    InvalidJson,
    /// No connection is active.
    NotConnected,
    /// The response channel closed before a response arrived.
    ChannelClosed,
}

} // verus!
