//! Sockets and their table: the identifiers of the three handle spaces,
//! endpoints and instants as plain values, TCP and UDP sockets, and the
//! bounded socket set.
use vstd::prelude::*;

pub mod set;
pub mod tcp;
pub mod udp;

verus! {

/// A driver-local socket handle: the slot of the socket in its set.
#[derive(Debug, Clone, Copy, PartialEq, Eq, Structural, Hash)]
pub struct SocketHandle(pub u8);

/// A handle that the module gives a peer connection; control commands name it.
#[derive(Debug, Clone, Copy, PartialEq, Eq, Structural, Hash)]
pub struct PeerHandle(pub u8);

/// The id of the EDM channel of a peer; data frames name it.
#[derive(Debug, Clone, Copy, PartialEq, Eq, Structural, Hash)]
pub struct ChannelId(pub u8);

/// A socket's identity: its handle and the channel it is tied to.
#[derive(Debug, Clone, Copy, PartialEq, Eq, Structural)]
pub struct SocketMeta {
    pub handle: SocketHandle,
    pub channel_id: ChannelId,
}

/// An IP address, as the big-endian number of its octets.
#[derive(Debug, Clone, Copy, PartialEq, Eq, Structural)]
pub enum IpAddr {
    V4(u32),
    V6(u128),
}

/// An IP address and port.
#[derive(Debug, Clone, Copy, PartialEq, Eq, Structural)]
pub struct SocketAddr {
    pub ip: IpAddr,
    pub port: u16,
}

/// A point in time, in milliseconds of the driver's clock.
#[derive(Debug, Clone, Copy, PartialEq, Eq, Structural)]
pub struct Instant {
    pub millis: u64,
}

/// Whether at `now` at least `timeout` milliseconds have passed since `since`.
pub open spec fn elapsed_at_least(since: Instant, now: Instant, timeout: u64) -> bool {
    since.millis <= now.millis && now.millis - since.millis >= timeout
}

/// Whether at `now` at least `timeout` milliseconds have passed since `since`.
pub fn has_elapsed(since: Instant, now: Instant, timeout: u64) -> (r: bool)
    ensures
        r == elapsed_at_least(since, now, timeout),
{
    since.millis <= now.millis && now.millis - since.millis >= timeout
}

impl SocketAddr {
    /// The unspecified IPv4 address with port 0.
    pub fn unspecified() -> (r: SocketAddr)
        ensures
            r == (SocketAddr { ip: IpAddr::V4(0), port: 0 }),
    {
        SocketAddr { ip: IpAddr::V4(0), port: 0 }
    }
}

} // verus!
