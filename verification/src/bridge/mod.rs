//! The bridge between the host and the Chromium runtime: the client that
//! prepares bridge calls, the events it decodes, and their errors.

use vstd::prelude::*;

pub mod call;
pub mod client;
pub mod event;
pub mod map;

verus! {

/// Errors reported by the bridge client.
#[derive(Debug, Clone, Copy, PartialEq, Eq)]
pub enum BridgeError {
    /// The bridge library could not be located or loaded.
    BridgeLoadFailed,
    /// The connection to the Chromium runtime could not be established.
    ConnectionFailed,
    /// An argument cannot be handed to the bridge (a string with a NUL byte).
    InvalidInput,
    /// The bridge reported an event or status the client does not know.
    InvalidEvent,
    /// The client has no live bridge handle.
    InvalidState,
    /// The channel switch written by the bridge is missing or malformed.
    InvalidChannelArgument,
    /// The session token was rejected.
    AuthenticationFailed,
    /// The bridge refused the named operation.
    OperationFailed { operation: &'static str },
}

} // verus!
