//! Error kinds surfaced by the realtime connection manager.

use vstd::prelude::*;

verus! {

/// A failure of the realtime connection manager.
///
/// Every transport-level fault is wrapped into one of these kinds; would-block
/// conditions are never reported as errors.
#[derive(Debug, Clone)]
pub enum WebSocketError {
    /// The connection handshake failed, or the handle refused a blocking-mode change.
    ConnectionError(String),
    /// A frame could not be transmitted.
    SendError(String),
    /// A frame could not be received (excluding would-block, which is not an error).
    ReceiveError(String),
    /// The operation needs a live connection and none is held.
    NotConnected,
    /// A reconnect was attempted but no prior connection was ever recorded.
    CannotReconnect(String),
    /// A payload could not be encoded or decoded.
    SerializationError(String),
}

} // verus!
