//! The TCP socket: its connection state machine and its receive queue.
use vstd::prelude::*;

use crate::error::Error;
use crate::ring_buffer::RingBuffer;
use crate::socket::{elapsed_at_least, has_elapsed, ChannelId, Instant, SocketAddr, SocketHandle, SocketMeta};

verus! {

/// The connection state of a TCP socket.
#[derive(Debug, Clone, Copy, PartialEq, Eq, Structural)]
pub enum State {
    /// Freshly created.
    Created,
    /// A connection to the remote endpoint was asked for.
    WaitingForConnect(SocketAddr),
    /// Connected to the peer.
    Connected,
    /// Closed by the remote side at the given instant; writes are blocked.
    ShutdownForWrite(Instant),
}

/// A TCP socket.
pub struct TcpSocket {
    pub meta: SocketMeta,
    pub endpoint: SocketAddr,
    pub state: State,
    /// How long a socket closed by the remote side stays readable, in
    /// milliseconds; without one it is never recycled.
    pub read_timeout: Option<u64>,
    pub rx_buffer: RingBuffer,
}

impl TcpSocket {
    /// The received bytes that wait to be read, oldest first.
    pub open spec fn rx(&self) -> Seq<u8> {
        self.rx_buffer@
    }

    /// How many received bytes the socket can hold.
    pub open spec fn rx_cap(&self) -> nat {
        self.rx_buffer.cap()
    }

    pub open spec fn wf(&self) -> bool {
        self.rx_buffer.wf()
    }

    /// Whether the socket is connected.
    pub open spec fn connected(&self) -> bool {
        self.state == State::Connected
    }

    /// Whether the socket may be recycled at `now`: it was closed by the
    /// remote side at least its read timeout ago.
    pub open spec fn recyclable(&self, now: Instant) -> bool {
        match (self.read_timeout, self.state) {
            (Some(t), State::ShutdownForWrite(closed)) => elapsed_at_least(closed, now, t),
            _ => false,
        }
    }

    /// Whether data can be read: the socket is connected or closed by the
    /// remote side, or data waits in its queue.
    pub open spec fn receivable(&self) -> bool {
        self.state == State::Connected || self.state is ShutdownForWrite || self.rx().len() > 0
    }

    /// A socket in state `Created` with the given handle, no channel, an
    /// unspecified endpoint, no read timeout and an empty queue of
    /// `rx_capacity` bytes.
    pub fn new(socket_id: u8, rx_capacity: usize) -> (r: Self)
        ensures
            r.wf(),
            r.meta == (SocketMeta { handle: SocketHandle(socket_id), channel_id: ChannelId(0) }),
            r.endpoint == (SocketAddr { ip: crate::socket::IpAddr::V4(0), port: 0 }),
            r.state == State::Created,
            r.read_timeout is None,
            r.rx() == Seq::<u8>::empty(),
            r.rx_cap() == rx_capacity,
    {
        TcpSocket {
            meta: SocketMeta { handle: SocketHandle(socket_id), channel_id: ChannelId(0) },
            endpoint: SocketAddr::unspecified(),
            state: State::Created,
            read_timeout: None,
            rx_buffer: RingBuffer::new(rx_capacity),
        }
    }

    /// The socket handle.
    pub fn handle(&self) -> (r: SocketHandle)
        ensures
            r == self.meta.handle,
    {
        self.meta.handle
    }

    /// The channel id.
    pub fn channel_id(&self) -> (r: ChannelId)
        ensures
            r == self.meta.channel_id,
    {
        self.meta.channel_id
    }

    /// The remote endpoint.
    pub fn endpoint(&self) -> (r: SocketAddr)
        ensures
            r == self.endpoint,
    {
        self.endpoint
    }

    /// The connection state.
    pub fn state(&self) -> (r: State)
        ensures
            r == self.state,
    {
        self.state
    }

    /// Sets the connection state.
    pub fn set_state(&mut self, state: State)
        ensures
            *final(self) == (TcpSocket { state, ..*old(self) }),
    {
        self.state = state;
    }

    /// Whether the socket is connected.
    pub fn is_connected(&self) -> (r: bool)
        ensures
            r == self.connected(),
    {
        match self.state {
            State::Connected => true,
            _ => false,
        }
    }

    /// Whether the socket may be recycled at `ts`.
    pub fn recycle(&self, ts: Instant) -> (r: bool)
        ensures
            r == self.recyclable(ts),
    {
        match (self.read_timeout, self.state) {
            (Some(t), State::ShutdownForWrite(closed)) => has_elapsed(closed, ts, t),
            _ => false,
        }
    }

    /// Marks the socket closed by the remote side at `ts`.
    pub fn closed_by_remote(&mut self, ts: Instant)
        ensures
            *final(self) == (TcpSocket { state: State::ShutdownForWrite(ts), ..*old(self) }),
    {
        self.state = State::ShutdownForWrite(ts);
    }

    /// Whether data can be read from the socket.
    pub fn may_recv(&self) -> (r: bool)
        requires
            self.wf(),
        ensures
            r == self.receivable(),
    {
        match self.state {
            State::Connected | State::ShutdownForWrite(_) => true,
            _ => !self.rx_buffer.is_empty(),
        }
    }

    /// Whether data can be read and more data can be received.
    pub fn can_recv(&self) -> (r: bool)
        requires
            self.wf(),
        ensures
            r == (self.receivable() && self.rx().len() < self.rx_cap()),
    {
        if !self.may_recv() {
            return false;
        }
        !self.rx_buffer.is_full()
    }

    /// Moves as many received bytes as fit into `data`, to its start.
    /// `Illegal` when no data can be read.
    pub fn recv_slice(&mut self, data: &mut [u8]) -> (r: Result<usize, Error>)
        requires
            old(self).wf(),
        ensures
            final(self).wf(),
            final(self).rx_cap() == old(self).rx_cap(),
            final(self).meta == old(self).meta,
            final(self).endpoint == old(self).endpoint,
            final(self).state == old(self).state,
            final(self).read_timeout == old(self).read_timeout,
            !old(self).receivable() ==> r == Err::<usize, Error>(Error::Illegal) && final(self).rx() == old(
                self,
            ).rx() && final(data)@ == old(data)@,
            old(self).receivable() ==> (r matches Ok(n) && n == if old(data)@.len() < old(self).rx().len() {
                old(data)@.len() as int
            } else {
                old(self).rx().len() as int
            } && final(data)@ == old(self).rx().subrange(0, n as int) + old(data)@.subrange(
                n as int,
                old(data)@.len() as int,
            ) && final(self).rx() == old(self).rx().subrange(n as int, old(self).rx().len() as int)),
    {
        if !self.may_recv() {
            return Err(Error::Illegal);
        }
        let n = self.rx_buffer.dequeue_slice(data);
        Ok(n)
    }

    /// Copies as many received bytes as fit into `data`, to its start,
    /// without dequeuing them. `Illegal` when no data can be read.
    pub fn peek_slice(&self, data: &mut [u8]) -> (r: Result<usize, Error>)
        requires
            self.wf(),
        ensures
            !self.receivable() ==> r == Err::<usize, Error>(Error::Illegal) && final(data)@ == old(data)@,
            self.receivable() ==> (r matches Ok(n) && n == if old(data)@.len() < self.rx().len() {
                old(data)@.len() as int
            } else {
                self.rx().len() as int
            } && final(data)@ == self.rx().subrange(0, n as int) + old(data)@.subrange(
                n as int,
                old(data)@.len() as int,
            )),
    {
        if !self.may_recv() {
            return Err(Error::Illegal);
        }
        Ok(self.rx_buffer.peek_slice(data))
    }

    /// Queues as many bytes of `data` as fit for reading, and returns how
    /// many that was.
    pub fn rx_enqueue_slice(&mut self, data: &[u8]) -> (r: usize)
        requires
            old(self).wf(),
        ensures
            final(self).wf(),
            final(self).rx_cap() == old(self).rx_cap(),
            final(self).meta == old(self).meta,
            final(self).endpoint == old(self).endpoint,
            final(self).state == old(self).state,
            final(self).read_timeout == old(self).read_timeout,
            r == if data@.len() < old(self).rx_cap() - old(self).rx().len() {
                data@.len() as int
            } else {
                old(self).rx_cap() - old(self).rx().len()
            },
            final(self).rx() == old(self).rx() + data@.subrange(0, r as int),
    {
        self.rx_buffer.enqueue_slice(data)
    }

    /// The number of received bytes that wait to be read.
    pub fn recv_queue(&self) -> (r: usize)
        requires
            self.wf(),
        ensures
            r == self.rx().len(),
    {
        self.rx_buffer.len()
    }
}

} // verus!
