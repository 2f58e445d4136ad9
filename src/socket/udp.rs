//! The UDP socket: its bound endpoint, open state and receive queue.
use vstd::prelude::*;

use crate::error::Error;
use crate::ring_buffer::RingBuffer;
use crate::socket::{
    elapsed_at_least, has_elapsed, ChannelId, Instant, IpAddr, SocketAddr, SocketHandle, SocketMeta,
};

verus! {

/// Whether a UDP socket has a peer on the module.
#[derive(Debug, Clone, Copy, PartialEq, Eq, Structural)]
pub enum State {
    Closed,
    Established,
}

/// The read timeout of a new UDP socket, in milliseconds.
pub const UDP_READ_TIMEOUT_MS: u64 = 15000;

/// A UDP socket.
pub struct UdpSocket {
    pub meta: SocketMeta,
    pub endpoint: SocketAddr,
    /// How long the socket stays readable after it was closed, in milliseconds.
    pub read_timeout: Option<u64>,
    pub state: State,
    pub rx_buffer: RingBuffer,
    /// When the socket was closed, if it was.
    pub closed_time: Option<Instant>,
}

impl UdpSocket {
    /// The received bytes that wait to be read, oldest first.
    pub open spec fn rx(&self) -> Seq<u8> {
        self.rx_buffer@
    }

    /// How many received bytes the socket can hold.
    pub open spec fn rx_cap(&self) -> nat {
        self.rx_buffer.cap()
    }

    pub open spec fn wf(&self) -> bool {
        self.rx_buffer.wf()
    }

    /// Whether the socket is open.
    pub open spec fn open(&self) -> bool {
        self.state == State::Established
    }

    /// Whether the socket may be recycled at `now`: it was closed at least
    /// its read timeout ago.
    pub open spec fn recyclable(&self, now: Instant) -> bool {
        match (self.read_timeout, self.closed_time) {
            (Some(t), Some(closed)) => elapsed_at_least(closed, now, t),
            _ => false,
        }
    }

    /// A closed socket with the given handle, no channel, an unspecified
    /// endpoint, a read timeout of fifteen seconds and an empty queue of
    /// `rx_capacity` bytes.
    pub fn new(socket_id: u8, rx_capacity: usize) -> (r: Self)
        ensures
            r.wf(),
            r.meta == (SocketMeta { handle: SocketHandle(socket_id), channel_id: ChannelId(0) }),
            r.endpoint == (SocketAddr { ip: IpAddr::V4(0), port: 0 }),
            r.state == State::Closed,
            r.read_timeout == Some(UDP_READ_TIMEOUT_MS),
            r.closed_time is None,
            r.rx() == Seq::<u8>::empty(),
            r.rx_cap() == rx_capacity,
    {
        UdpSocket {
            meta: SocketMeta { handle: SocketHandle(socket_id), channel_id: ChannelId(0) },
            endpoint: SocketAddr::unspecified(),
            read_timeout: Some(UDP_READ_TIMEOUT_MS),
            state: State::Closed,
            rx_buffer: RingBuffer::new(rx_capacity),
            closed_time: None,
        }
    }

    /// The socket handle.
    pub fn handle(&self) -> (r: SocketHandle)
        ensures
            r == self.meta.handle,
    {
        self.meta.handle
    }

    /// The channel id.
    pub fn channel_id(&self) -> (r: ChannelId)
        ensures
            r == self.meta.channel_id,
    {
        self.meta.channel_id
    }

    /// The bound endpoint.
    pub fn endpoint(&self) -> (r: SocketAddr)
        ensures
            r == self.endpoint,
    {
        self.endpoint
    }

    /// The open state.
    pub fn state(&self) -> (r: State)
        ensures
            r == self.state,
    {
        self.state
    }

    /// Sets the open state.
    pub fn set_state(&mut self, state: State)
        ensures
            *final(self) == (UdpSocket { state, ..*old(self) }),
    {
        self.state = state;
    }

    /// Whether the socket may be recycled at `ts`.
    pub fn recycle(&self, ts: Instant) -> (r: bool)
        ensures
            r == self.recyclable(ts),
    {
        match (self.read_timeout, self.closed_time) {
            (Some(t), Some(closed)) => has_elapsed(closed, ts, t),
            _ => false,
        }
    }

    /// Binds the socket to `endpoint`: `Illegal` while the socket is open,
    /// `Unaddressable` for port 0.
    pub fn bind(&mut self, endpoint: SocketAddr) -> (r: Result<(), Error>)
        ensures
            old(self).open() ==> r == Err::<(), Error>(Error::Illegal) && *final(self) == *old(self),
            !old(self).open() && endpoint.port == 0 ==> r == Err::<(), Error>(Error::Unaddressable)
                && *final(self) == *old(self),
            !old(self).open() && endpoint.port != 0 ==> r is Ok && *final(self) == (UdpSocket {
                endpoint,
                ..*old(self)
            }),
    {
        if self.is_open() {
            return Err(Error::Illegal);
        }
        if endpoint.port == 0 {
            return Err(Error::Unaddressable);
        }
        self.endpoint = endpoint;
        Ok(())
    }

    /// Whether the socket is open.
    pub fn is_open(&self) -> (r: bool)
        ensures
            r == self.open(),
    {
        match self.state {
            State::Established => true,
            _ => false,
        }
    }

    /// Whether more data can be received.
    pub fn can_recv(&self) -> (r: bool)
        requires
            self.wf(),
        ensures
            r == (self.rx().len() < self.rx_cap()),
    {
        !self.rx_buffer.is_full()
    }

    /// Moves as many received bytes as fit into `data`, to its start.
    /// `Illegal` when the socket is not open.
    pub fn recv_slice(&mut self, data: &mut [u8]) -> (r: Result<usize, Error>)
        requires
            old(self).wf(),
        ensures
            final(self).wf(),
            final(self).rx_cap() == old(self).rx_cap(),
            final(self).state == old(self).state,
            final(self).meta == old(self).meta,
            final(self).endpoint == old(self).endpoint,
            final(self).read_timeout == old(self).read_timeout,
            final(self).closed_time == old(self).closed_time,
            !old(self).open() ==> r == Err::<usize, Error>(Error::Illegal) && final(self).rx() == old(
                self,
            ).rx() && final(data)@ == old(data)@,
            old(self).open() ==> (r matches Ok(n) && n == if old(data)@.len() < old(self).rx().len() {
                old(data)@.len() as int
            } else {
                old(self).rx().len() as int
            } && final(data)@ == old(self).rx().subrange(0, n as int) + old(data)@.subrange(
                n as int,
                old(data)@.len() as int,
            ) && final(self).rx() == old(self).rx().subrange(n as int, old(self).rx().len() as int)),
    {
        if !self.is_open() {
            return Err(Error::Illegal);
        }
        let n = self.rx_buffer.dequeue_slice(data);
        Ok(n)
    }

    /// Queues as many bytes of `data` as fit for reading, and returns how
    /// many that was.
    pub fn rx_enqueue_slice(&mut self, data: &[u8]) -> (r: usize)
        requires
            old(self).wf(),
        ensures
            final(self).wf(),
            final(self).rx_cap() == old(self).rx_cap(),
            final(self).state == old(self).state,
            final(self).meta == old(self).meta,
            final(self).endpoint == old(self).endpoint,
            final(self).read_timeout == old(self).read_timeout,
            final(self).closed_time == old(self).closed_time,
            r == if data@.len() < old(self).rx_cap() - old(self).rx().len() {
                data@.len() as int
            } else {
                old(self).rx_cap() - old(self).rx().len()
            },
            final(self).rx() == old(self).rx() + data@.subrange(0, r as int),
    {
        self.rx_buffer.enqueue_slice(data)
    }

    /// Copies as many received bytes as fit into `data`, to its start,
    /// without dequeuing them. `Illegal` when the socket is not open.
    pub fn peek_slice(&self, data: &mut [u8]) -> (r: Result<usize, Error>)
        requires
            self.wf(),
        ensures
            !self.open() ==> r == Err::<usize, Error>(Error::Illegal) && final(data)@ == old(data)@,
            self.open() ==> (r matches Ok(n) && n == if old(data)@.len() < self.rx().len() {
                old(data)@.len() as int
            } else {
                self.rx().len() as int
            } && final(data)@ == self.rx().subrange(0, n as int) + old(data)@.subrange(
                n as int,
                old(data)@.len() as int,
            )),
    {
        if !self.is_open() {
            return Err(Error::Illegal);
        }
        Ok(self.rx_buffer.peek_slice(data))
    }

    /// Closes the socket: its endpoint loses its port.
    pub fn close(&mut self)
        ensures
            *final(self) == (UdpSocket {
                endpoint: SocketAddr { port: 0, ..old(self).endpoint },
                ..*old(self)
            }),
    {
        self.endpoint.port = 0;
    }
}

} // verus!
