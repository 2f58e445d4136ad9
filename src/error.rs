//! The errors that the driver reports to its users.
use vstd::prelude::*;

verus! {

/// What went wrong in a driver operation.
#[derive(Debug, Clone, Copy, PartialEq, Eq, Structural)]
pub enum Error {
    /// A bounded wait (startup, EDM entry) expired.
    Timeout,
    /// Framing or parse failure of what the module sent.
    InvalidResponse,
    /// A command that needs IP connectivity was issued while it is down.
    Network,
    /// No peer address could be built for the remote endpoint.
    Unaddressable,
    /// The socket table is full and nothing in it can be recycled.
    SocketSetFull,
    /// The socket is not, or no longer, connected.
    SocketClosed,
    /// The operation is not allowed in the current state.
    Illegal,
    /// The handle refers to no live socket.
    NotFound,
    /// The socket has no room to take more data.
    Busy,
}

} // verus!
