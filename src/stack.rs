//! The socket I/O layer: opening, connecting, sending, receiving and
//! closing sockets over the module's peers and EDM channels. Commands that
//! go to the module are returned to the caller, who sends them and hands
//! back what the module answered.
use vstd::prelude::*;

use crate::edm::{copy_range, EdmDataCommand};
use crate::error::Error;
use crate::socket::set::{
    first_free, lemma_free_from_bounds, lemma_free_slot_found, occupied, recycled, Socket, SocketSet,
};
use crate::socket::tcp::{State as TcpState, TcpSocket};
use crate::socket::udp::{State as UdpState, UdpSocket};
use crate::socket::{ChannelId, Instant, PeerHandle, SocketAddr, SocketHandle};
use crate::socket_map::{after_insert, no_key_for, SocketMap};

verus! {

/// The largest piece of outgoing data that one data frame carries.
pub const EGRESS_CHUNK_SIZE: usize = 512;

/// The number of data frames that `n` bytes take.
pub open spec fn chunk_count(n: nat) -> nat {
    ((n + EGRESS_CHUNK_SIZE - 1) / EGRESS_CHUNK_SIZE as int) as nat
}

/// The `i`-th piece of `data` in frames of `EGRESS_CHUNK_SIZE` bytes.
pub open spec fn chunk(data: Seq<u8>, i: int) -> Seq<u8> {
    let start = i * EGRESS_CHUNK_SIZE;
    let end = if start + EGRESS_CHUNK_SIZE < data.len() {
        start + EGRESS_CHUNK_SIZE
    } else {
        data.len() as int
    };
    data.subrange(start, end)
}

/// The TCP socket in slot `h` of `s`, if there is one.
pub open spec fn tcp_in(s: Seq<Option<Socket>>, h: SocketHandle) -> Option<TcpSocket> {
    if h.0 < s.len() {
        match s[h.0 as int] {
            Some(Socket::Tcp(t)) => Some(t),
            _ => None,
        }
    } else {
        None
    }
}

/// The slot of handle `h`.
pub open spec fn slot_of(h: SocketHandle) -> int {
    h.0 as int
}

/// Whether slot `h` of `s` holds a socket.
pub open spec fn live(s: Seq<Option<Socket>>, h: SocketHandle) -> bool {
    h.0 < s.len() && s[h.0 as int] is Some
}

/// The error of looking up TCP socket `h` in `s`: `NotFound` for an empty
/// slot, `Illegal` for a socket of the other kind.
pub open spec fn tcp_lookup_error(s: Seq<Option<Socket>>, h: SocketHandle) -> Error {
    if live(s, h) {
        Error::Illegal
    } else {
        Error::NotFound
    }
}

/// What `is_connected` answers for socket `h`: false while the network is
/// down, else whether the TCP socket is connected.
pub open spec fn is_connected_result(up: bool, s: Seq<Option<Socket>>, h: SocketHandle) -> Result<bool, Error> {
    if !up {
        Ok(false)
    } else {
        match tcp_in(s, h) {
            Some(t) => Ok(t.connected()),
            None => Err(tcp_lookup_error(s, h)),
        }
    }
}

/// Whether socket `h` may send: `Network` while the network is down, the
/// lookup error when `h` is no TCP socket, `SocketClosed` when it is not
/// connected or no channel is tied to it.
pub open spec fn send_check(up: bool, s: Seq<Option<Socket>>, channels: Map<u8, u8>, h: SocketHandle) -> Result<
    (),
    Error,
> {
    if !up {
        Err(Error::Network)
    } else {
        match tcp_in(s, h) {
            None => Err(tcp_lookup_error(s, h)),
            Some(t) => if !t.connected() || no_key_for(channels, h.0) {
                Err(Error::SocketClosed)
            } else {
                Ok(())
            },
        }
    }
}

/// How many times a socket command that timed out is tried in all.
pub const SOCKET_COMMAND_TRIES: u8 = 3;

/// What the caller is to do to finish closing a TCP socket.
#[derive(Debug, Clone, Copy, PartialEq, Eq, Structural)]
pub enum CloseAction {
    /// The socket was removed from the table; nothing is left to do.
    Removed,
    /// Send `ClosePeerConnection` for this peer and hand the answer to
    /// [`UbloxClient::tcp_close_done`].
    ClosePeer(PeerHandle),
}

/// The driver's socket state: the socket table, the handle map and the
/// link state that the runner publishes.
pub struct UbloxClient {
    pub sockets: SocketSet,
    pub socket_map: SocketMap,
    /// Whether the network is up.
    pub network_up: bool,
    /// The receive capacity of new sockets.
    pub rx_capacity: usize,
    /// Peers of dropped sockets that the runner is still to close.
    pub dropped_sockets: Vec<PeerHandle>,
}

impl UbloxClient {
    pub open spec fn wf(&self) -> bool {
        self.sockets.wf()
    }

    /// An empty client with `max_sockets` slots, sockets that hold
    /// `rx_capacity` received bytes each, and the network down.
    pub fn new(max_sockets: usize, rx_capacity: usize) -> (r: Self)
        requires
            max_sockets <= 256,
        ensures
            r.wf(),
            r.sockets@.len() == max_sockets,
            forall|i: int| 0 <= i < max_sockets ==> r.sockets@[i] is None,
            r.socket_map.channels() == Map::<u8, u8>::empty(),
            r.socket_map.peers() == Map::<u8, u8>::empty(),
            !r.network_up,
            r.rx_capacity == rx_capacity,
            r.dropped_sockets@ == Seq::<PeerHandle>::empty(),
    {
        UbloxClient {
            sockets: SocketSet::new(max_sockets),
            socket_map: SocketMap::new(),
            network_up: false,
            rx_capacity,
            dropped_sockets: Vec::new(),
        }
    }

    /// Records the link state that the runner published.
    pub fn set_network_up(&mut self, up: bool)
        ensures
            final(self).network_up == up,
            final(self).sockets == old(self).sockets,
            final(self).socket_map == old(self).socket_map,
            final(self).rx_capacity == old(self).rx_capacity,
    {
        self.network_up = up;
    }

    /// Opens a TCP socket in the smallest free slot. When no slot is free,
    /// the sockets that may be recycled at `now` are removed first;
    /// `SocketSetFull` if there are none.
    pub fn tcp_open(&mut self, now: Instant) -> (r: Result<SocketHandle, Error>)
        requires
            old(self).wf(),
        ensures
            final(self).wf(),
            final(self).socket_map == old(self).socket_map,
            final(self).network_up == old(self).network_up,
            final(self).rx_capacity == old(self).rx_capacity,
            first_free(old(self).sockets@) >= 0 ==> r == Ok::<SocketHandle, Error>(
                SocketHandle(first_free(old(self).sockets@) as u8),
            ),
            first_free(old(self).sockets@) < 0 && first_free(recycled(old(self).sockets@, now)) < 0 ==> r
                == Err::<SocketHandle, Error>(Error::SocketSetFull) && final(self).sockets@ == old(self).sockets@,
            first_free(old(self).sockets@) < 0 && first_free(recycled(old(self).sockets@, now)) >= 0 ==> r
                == Ok::<SocketHandle, Error>(SocketHandle(first_free(recycled(old(self).sockets@, now)) as u8)),
            r matches Ok(h) ==> ({
                let base = if first_free(old(self).sockets@) >= 0 {
                    old(self).sockets@
                } else {
                    recycled(old(self).sockets@, now)
                };
                &&& h.0 < base.len()
                &&& base[h.0 as int] is None
                &&& final(self).sockets@ == base.update(h.0 as int, final(self).sockets@[h.0 as int])
                &&& final(self).sockets@[h.0 as int] matches Some(Socket::Tcp(t)) && t.state == TcpState::Created
                    && t.meta.handle == h && t.rx() == Seq::<u8>::empty() && t.rx_cap() == old(self).rx_capacity
            }),
    {
        let sock = TcpSocket::new(0, self.rx_capacity);
        let ghost before = self.sockets@;
        proof {
            lemma_free_from_bounds(before, 0);
            lemma_free_from_bounds(recycled(before, now), 0);
        }
        match self.sockets.add(Socket::Tcp(sock)) {
            Ok(h) => Ok(h),
            Err(_) => {
                if !self.sockets.recycle(now) {
                    assert(recycled(before, now) =~= before);
                    return Err(Error::SocketSetFull);
                }
                let sock = TcpSocket::new(0, self.rx_capacity);
                proof {
                    let j = choose|j: int| 0 <= j < before.len() && crate::socket::set::slot_recyclable(#[trigger] before[j], now);
                    assert(self.sockets@[j] is None);
                    lemma_free_slot_found(self.sockets@, 0, j);
                }
                self.sockets.add(Socket::Tcp(sock))
            },
        }
    }

    /// Asks for a connection of TCP socket `h` to `remote`: the socket waits
    /// for the connection, and the caller sends `ConnectPeer` for `remote`
    /// and hands the answer to [`UbloxClient::tcp_connect_done`].
    /// `Network` while the network is down, `NotFound` or `Illegal` when `h`
    /// is no TCP socket, `Unaddressable` for port 0.
    pub fn tcp_connect(&mut self, h: SocketHandle, remote: SocketAddr) -> (r: Result<(), Error>)
        requires
            old(self).wf(),
        ensures
            final(self).wf(),
            final(self).socket_map == old(self).socket_map,
            final(self).network_up == old(self).network_up,
            !old(self).network_up ==> r == Err::<(), Error>(Error::Network),
            old(self).network_up && tcp_in(old(self).sockets@, h) is None ==> r == Err::<(), Error>(
                tcp_lookup_error(old(self).sockets@, h),
            ),
            old(self).network_up && tcp_in(old(self).sockets@, h) is Some && remote.port == 0 ==> r
                == Err::<(), Error>(Error::Unaddressable),
            old(self).network_up && tcp_in(old(self).sockets@, h) is Some && remote.port != 0 ==> r is Ok,
            r is Err ==> final(self).sockets@ == old(self).sockets@,
            r is Ok ==> old(self).network_up && remote.port != 0 && (tcp_in(old(self).sockets@, h) matches Some(t)
                && final(self).sockets@ == old(self).sockets@.update(
                h.0 as int,
                Some(Socket::Tcp(TcpSocket { state: TcpState::WaitingForConnect(remote), endpoint: remote, ..t })),
            )),
    {
        if !self.network_up {
            return Err(Error::Network);
        }
        if !self.sockets.contains(h) {
            return Err(Error::NotFound);
        }
        let ghost before = self.sockets@;
        match self.sockets.take(h) {
            Some(Socket::Tcp(mut t)) => {
                if remote.port == 0 {
                    self.sockets.put(h, Socket::Tcp(t));
                    assert(self.sockets@ =~= before);
                    return Err(Error::Unaddressable);
                }
                t.state = TcpState::WaitingForConnect(remote);
                t.endpoint = remote;
                self.sockets.put(h, Socket::Tcp(t));
                Ok(())
            },
            Some(s) => {
                self.sockets.put(h, s);
                assert(self.sockets@ =~= before);
                Err(Error::Illegal)
            },
            None => Err(Error::NotFound),
        }
    }

    /// Takes the module's answer to `ConnectPeer` for socket `h`: on a peer
    /// handle the peer is tied to the socket (`Illegal` if the peer table is
    /// full); on a failure the socket is `Created` again and the result is
    /// `Unaddressable`.
    pub fn tcp_connect_done(&mut self, h: SocketHandle, answer: Result<PeerHandle, Error>) -> (r: Result<
        (),
        Error,
    >)
        requires
            old(self).wf(),
        ensures
            final(self).wf(),
            final(self).network_up == old(self).network_up,
            final(self).socket_map.channels() == old(self).socket_map.channels(),
            answer matches Ok(p) ==> final(self).sockets@ == old(self).sockets@ && final(self).socket_map.peers()
                == after_insert(old(self).socket_map.peers(), p.0, h.0) && (r is Ok <==> (
            old(self).socket_map.peers().contains_key(p.0) || old(self).socket_map.peers().len()
                < crate::socket_map::MAP_CAPACITY)) && (r is Err ==> r == Err::<(), Error>(Error::Illegal)),
            answer is Err ==> r == Err::<(), Error>(Error::Unaddressable) && final(self).socket_map.peers()
                == old(self).socket_map.peers() && (match tcp_in(old(self).sockets@, h) {
                Some(t) => final(self).sockets@ == old(self).sockets@.update(
                    h.0 as int,
                    Some(Socket::Tcp(TcpSocket { state: TcpState::Created, ..t })),
                ),
                None => final(self).sockets@ == old(self).sockets@,
            }),
    {
        match answer {
            Ok(p) => match self.socket_map.insert_peer(p, h) {
                Ok(()) => Ok(()),
                Err(_) => Err(Error::Illegal),
            },
            Err(_) => {
                self.set_tcp_state(h, TcpState::Created);
                Err(Error::Unaddressable)
            },
        }
    }

    /// Whether TCP socket `h` is connected; false while the network is down.
    pub fn tcp_is_connected(&self, h: SocketHandle) -> (r: Result<bool, Error>)
        requires
            self.wf(),
        ensures
            r == is_connected_result(self.network_up, self.sockets@, h),
    {
        if !self.network_up {
            return Ok(false);
        }
        let i = h.0 as usize;
        if i >= self.sockets.slots.len() {
            return Err(Error::NotFound);
        }
        match &self.sockets.slots[i] {
            Some(Socket::Tcp(t)) => Ok(t.is_connected()),
            Some(_) => Err(Error::Illegal),
            None => Err(Error::NotFound),
        }
    }

    /// The data frames that send `data` over TCP socket `h`: one per
    /// `EGRESS_CHUNK_SIZE` bytes, in order, on a channel tied to the socket.
    /// The errors are those of [`send_check`].
    pub fn tcp_send(&self, h: SocketHandle, data: &[u8]) -> (r: Result<Vec<EdmDataCommand>, Error>)
        requires
            self.wf(),
        ensures
            send_check(self.network_up, self.sockets@, self.socket_map.channels(), h) is Err ==> r == Err::<
                Vec<EdmDataCommand>,
                Error,
            >(send_check(self.network_up, self.sockets@, self.socket_map.channels(), h)->Err_0),
            send_check(self.network_up, self.sockets@, self.socket_map.channels(), h) is Ok ==> (r matches Ok(
                cmds,
            ) && cmds@.len() == chunk_count(data@.len()) && forall|i: int|
                0 <= i < cmds@.len() ==> (#[trigger] cmds@[i]).data@ == chunk(data@, i) && cmds@[i].channel
                    == cmds@[0].channel && self.socket_map.channels().contains_key(cmds@[i].channel)
                    && self.socket_map.channels()[cmds@[i].channel] == h.0),
    {
        if !self.network_up {
            return Err(Error::Network);
        }
        match self.tcp_is_connected(h) {
            Err(e) => {
                return Err(e);
            },
            Ok(false) => {
                return Err(Error::SocketClosed);
            },
            Ok(true) => {},
        }
        let channel = match self.socket_map.socket_to_channel_id(&h) {
            Some(c) => c,
            None => {
                return Err(Error::SocketClosed);
            },
        };
        let mut cmds: Vec<EdmDataCommand> = Vec::new();
        let mut offset: usize = 0;
        let n = data.len();
        while offset < n
            invariant
                n == data@.len(),
                offset <= n,
                offset < n ==> offset == cmds@.len() * EGRESS_CHUNK_SIZE,
                offset == n ==> n <= cmds@.len() * EGRESS_CHUNK_SIZE,
                cmds@.len() > 0 ==> (cmds@.len() - 1) * EGRESS_CHUNK_SIZE < n,
                self.socket_map.channels().contains_key(channel.0),
                self.socket_map.channels()[channel.0] == h.0,
                forall|i: int|
                    0 <= i < cmds@.len() ==> (#[trigger] cmds@[i]).data@ == chunk(data@, i)
                        && cmds@[i].channel == channel.0,
            decreases n - offset,
        {
            let end = if n - offset > EGRESS_CHUNK_SIZE {
                offset + EGRESS_CHUNK_SIZE
            } else {
                n
            };
            let piece = copy_range(data, offset, end);
            let ghost i = cmds@.len() as int;
            assert(piece@ == chunk(data@, i));
            cmds.push(EdmDataCommand { channel: channel.0, data: piece });
            offset = end;
        }
        proof {
            let k = cmds@.len();
            if k > 0 {
                assert((n + EGRESS_CHUNK_SIZE - 1) / EGRESS_CHUNK_SIZE as int == k) by (nonlinear_arith)
                    requires
                        (k - 1) * 512 < n,
                        n <= k * 512,
                        k > 0,
                ;
            } else {
                assert(n == 0);
            }
        }
        Ok(cmds)
    }

    /// Recycles the sockets that may be recycled at `now`, then moves as many
    /// received bytes of TCP socket `h` as fit into `buf`. The lookup error
    /// when `h` is no TCP socket after recycling; `Illegal` when it has
    /// nothing to read and is neither connected nor closed by the remote
    /// side.
    pub fn tcp_receive(&mut self, h: SocketHandle, buf: &mut [u8], now: Instant) -> (r: Result<usize, Error>)
        requires
            old(self).wf(),
        ensures
            final(self).wf(),
            final(self).socket_map == old(self).socket_map,
            final(self).network_up == old(self).network_up,
            ({
                let s = recycled(old(self).sockets@, now);
                match tcp_in(s, h) {
                    None => r == Err::<usize, Error>(tcp_lookup_error(s, h)) && final(self).sockets@ == s
                        && final(buf)@ == old(buf)@,
                    Some(t) => if !t.receivable() {
                        r == Err::<usize, Error>(Error::Illegal) && final(self).sockets@ == s && final(buf)@
                            == old(buf)@
                    } else {
                        r matches Ok(n) && n == (if old(buf)@.len() < t.rx().len() {
                            old(buf)@.len() as int
                        } else {
                            t.rx().len() as int
                        }) && final(buf)@ == t.rx().subrange(0, n as int) + old(buf)@.subrange(
                            n as int,
                            old(buf)@.len() as int,
                        ) && (final(self).sockets@[h.0 as int] matches Some(Socket::Tcp(t2)) && t2.rx()
                            == t.rx().subrange(n as int, t.rx().len() as int) && t2.state == t.state
                            && t2.meta == t.meta) && final(self).sockets@ == s.update(
                            h.0 as int,
                            final(self).sockets@[h.0 as int],
                        )
                    },
                }
            }),
    {
        self.sockets.recycle(now);
        let ghost s = self.sockets@;
        let i = h.0 as usize;
        if i >= self.sockets.slots.len() {
            return Err(Error::NotFound);
        }
        match self.sockets.take(h) {
            Some(Socket::Tcp(mut t)) => {
                if !t.may_recv() {
                    self.sockets.put(h, Socket::Tcp(t));
                    assert(self.sockets@ =~= s);
                    return Err(Error::Illegal);
                }
                let r = t.recv_slice(buf);
                self.sockets.put(h, Socket::Tcp(t));
                r
            },
            Some(other) => {
                self.sockets.put(h, other);
                assert(self.sockets@ =~= s);
                Err(Error::Illegal)
            },
            None => {
                assert(self.sockets@ =~= s);
                Err(Error::NotFound)
            },
        }
    }

    /// Starts closing TCP socket `h`. A socket that is created or closed by
    /// the remote side is removed from the table. Any other socket needs
    /// its peer closed on the module: the peer tied to it is returned, and
    /// `Illegal` when there is none. The lookup error when `h` is no TCP
    /// socket.
    pub fn tcp_close(&mut self, h: SocketHandle) -> (r: Result<CloseAction, Error>)
        requires
            old(self).wf(),
        ensures
            final(self).wf(),
            final(self).socket_map == old(self).socket_map,
            final(self).network_up == old(self).network_up,
            match tcp_in(old(self).sockets@, h) {
                None => r == Err::<CloseAction, Error>(tcp_lookup_error(old(self).sockets@, h))
                    && final(self).sockets@ == old(self).sockets@,
                Some(t) => if t.state is Created || t.state is ShutdownForWrite {
                    r == Ok::<CloseAction, Error>(CloseAction::Removed) && final(self).sockets@ == old(self).sockets@.update(h.0 as int, None)
                } else if no_key_for(old(self).socket_map.peers(), h.0) {
                    r == Err::<CloseAction, Error>(Error::Illegal) && final(self).sockets@ == old(self).sockets@
                } else {
                    (r matches Ok(CloseAction::ClosePeer(p)) && old(self).socket_map.peers().contains_key(p.0)
                        && old(self).socket_map.peers()[p.0] == h.0) && final(self).sockets@ == old(self).sockets@
                },
            },
    {
        let i = h.0 as usize;
        if i >= self.sockets.slots.len() {
            return Err(Error::NotFound);
        }
        let st = match &self.sockets.slots[i] {
            Some(Socket::Tcp(t)) => t.state,
            Some(_) => {
                return Err(Error::Illegal);
            },
            None => {
                return Err(Error::NotFound);
            },
        };
        match st {
            TcpState::Created | TcpState::ShutdownForWrite(_) => {
                let _ = self.sockets.remove(h);
                Ok(CloseAction::Removed)
            },
            _ => match self.socket_map.socket_to_peer(&h) {
                Some(p) => Ok(CloseAction::ClosePeer(p)),
                None => Err(Error::Illegal),
            },
        }
    }

    /// Takes the module's answer to `ClosePeerConnection` for `peer` of TCP
    /// socket `h`. Success, or `InvalidResponse` (the peer is gone already),
    /// unties the socket's channels and the peer, and marks the socket
    /// closed at `now`; any other answer is `Unaddressable` and changes
    /// nothing.
    pub fn tcp_close_done(&mut self, h: SocketHandle, peer: PeerHandle, answer: Result<(), Error>, now: Instant) -> (r:
        Result<(), Error>)
        requires
            old(self).wf(),
        ensures
            final(self).wf(),
            final(self).network_up == old(self).network_up,
            (answer is Ok || answer == Err::<(), Error>(Error::InvalidResponse)) ==> r is Ok && final(self).socket_map.peers() == old(self).socket_map.peers().remove(peer.0) && no_key_for(
                final(self).socket_map.channels(),
                h.0,
            ) && (match tcp_in(old(self).sockets@, h) {
                Some(t) => final(self).sockets@ == old(self).sockets@.update(
                    h.0 as int,
                    Some(Socket::Tcp(TcpSocket { state: TcpState::ShutdownForWrite(now), ..t })),
                ),
                None => final(self).sockets@ == old(self).sockets@,
            }),
            !(answer is Ok || answer == Err::<(), Error>(Error::InvalidResponse)) ==> r == Err::<(), Error>(
                Error::Unaddressable,
            ) && final(self).sockets == old(self).sockets && final(self).socket_map == old(self).socket_map,
    {
        match answer {
            Ok(()) | Err(Error::InvalidResponse) => {},
            Err(_) => {
                return Err(Error::Unaddressable);
            },
        }
        self.untie_channels(h);
        self.socket_map.remove_peer(&peer);
        self.set_tcp_state(h, TcpState::ShutdownForWrite(now));
        Ok(())
    }

    /// Hands data that arrived on `channel` to the socket tied to it. The
    /// socket queues as much as fits and the count is returned. `NotFound`
    /// when no socket is tied to the channel; `Busy` when the socket cannot
    /// take data.
    pub fn socket_ingress(&mut self, channel: ChannelId, data: &[u8]) -> (r: Result<usize, Error>)
        requires
            old(self).wf(),
        ensures
            final(self).wf(),
            final(self).socket_map == old(self).socket_map,
            final(self).network_up == old(self).network_up,
            !old(self).socket_map.channels().contains_key(channel.0) ==> r == Err::<usize, Error>(Error::NotFound)
                && final(self).sockets@ == old(self).sockets@,
            old(self).socket_map.channels().contains_key(channel.0) ==> ({
                let h = SocketHandle(old(self).socket_map.channels()[channel.0]);
                match tcp_in(old(self).sockets@, h) {
                    Some(t) => if !(t.receivable() && t.rx().len() < t.rx_cap()) {
                        r == Err::<usize, Error>(Error::Busy) && final(self).sockets@ == old(self).sockets@
                    } else {
                        r matches Ok(n) && n == (if data@.len() < t.rx_cap() - t.rx().len() {
                            data@.len() as int
                        } else {
                            t.rx_cap() - t.rx().len()
                        }) && (final(self).sockets@[h.0 as int] matches Some(Socket::Tcp(t2)) && t2.rx() == t.rx()
                            + data@.subrange(0, n as int) && t2.state == t.state && t2.meta == t.meta)
                            && final(self).sockets@ == old(self).sockets@.update(
                            h.0 as int,
                            final(self).sockets@[h.0 as int],
                        )
                    },
                    None => if h.0 < old(self).sockets@.len() && (old(self).sockets@[slot_of(h)] matches Some(
                        Socket::Udp(u),
                    ) && u.rx().len() < u.rx_cap()) {
                        let u = old(self).sockets@[slot_of(h)]->0->Udp_0;
                        r matches Ok(n) && n == (if data@.len() < u.rx_cap() - u.rx().len() {
                            data@.len() as int
                        } else {
                            u.rx_cap() - u.rx().len()
                        }) && (final(self).sockets@[slot_of(h)] matches Some(Socket::Udp(u2)) && u2.rx() == u.rx()
                            + data@.subrange(0, n as int) && u2.state == u.state && u2.meta == u.meta)
                            && final(self).sockets@ == old(self).sockets@.update(
                            slot_of(h),
                            final(self).sockets@[slot_of(h)],
                        )
                    } else if h.0 < old(self).sockets@.len() && old(self).sockets@[slot_of(h)] is Some {
                        r == Err::<usize, Error>(Error::Busy) && final(self).sockets@ == old(self).sockets@
                    } else {
                        r == Err::<usize, Error>(Error::NotFound) && final(self).sockets@ == old(self).sockets@
                    },
                }
            }),
    {
        let h = match self.socket_map.channel_to_socket(&channel) {
            Some(h) => h,
            None => {
                return Err(Error::NotFound);
            },
        };
        let ghost before = self.sockets@;
        match self.sockets.take(h) {
            Some(Socket::Tcp(mut t)) => {
                if !t.can_recv() {
                    self.sockets.put(h, Socket::Tcp(t));
                    assert(self.sockets@ =~= before);
                    return Err(Error::Busy);
                }
                let n = t.rx_enqueue_slice(data);
                self.sockets.put(h, Socket::Tcp(t));
                Ok(n)
            },
            Some(Socket::Udp(mut u)) => {
                if !u.can_recv() {
                    self.sockets.put(h, Socket::Udp(u));
                    assert(self.sockets@ =~= before);
                    return Err(Error::Busy);
                }
                let n = u.rx_enqueue_slice(data);
                self.sockets.put(h, Socket::Udp(u));
                Ok(n)
            },
            None => Err(Error::NotFound),
        }
    }

    /// Opens a UDP socket bound to `remote` in the smallest free slot.
    /// `Unaddressable` for port 0, `SocketSetFull` when no slot is free.
    pub fn udp_open(&mut self, remote: SocketAddr) -> (r: Result<SocketHandle, Error>)
        requires
            old(self).wf(),
        ensures
            final(self).wf(),
            final(self).socket_map == old(self).socket_map,
            final(self).network_up == old(self).network_up,
            remote.port == 0 ==> r == Err::<SocketHandle, Error>(Error::Unaddressable) && final(self).sockets@
                == old(self).sockets@,
            remote.port != 0 && first_free(old(self).sockets@) < 0 ==> r == Err::<SocketHandle, Error>(
                Error::SocketSetFull,
            ) && final(self).sockets@ == old(self).sockets@,
            remote.port != 0 && first_free(old(self).sockets@) >= 0 ==> r == Ok::<SocketHandle, Error>(
                SocketHandle(first_free(old(self).sockets@) as u8),
            ) && final(self).sockets@ == old(self).sockets@.update(
                first_free(old(self).sockets@),
                final(self).sockets@[first_free(old(self).sockets@)],
            ) && (final(self).sockets@[first_free(old(self).sockets@)] matches Some(Socket::Udp(u))
                && u.endpoint == remote && u.state == UdpState::Closed && u.rx() == Seq::<u8>::empty()),
    {
        let mut sock = UdpSocket::new(0, self.rx_capacity);
        if remote.port == 0 {
            return Err(Error::Unaddressable);
        }
        let _ = sock.bind(remote);
        proof {
            lemma_free_from_bounds(self.sockets@, 0);
        }
        self.sockets.add(Socket::Udp(sock))
    }

    /// The data frames that send `data` over UDP socket `h`, as for TCP.
    /// `Network` while the network is down, `NotFound` or `Illegal` when `h`
    /// is no UDP socket, `SocketClosed` when it is not open or no channel is
    /// tied to it.
    pub fn udp_send(&self, h: SocketHandle, data: &[u8]) -> (r: Result<Vec<EdmDataCommand>, Error>)
        requires
            self.wf(),
        ensures
            !self.network_up ==> r == Err::<Vec<EdmDataCommand>, Error>(Error::Network),
            self.network_up && !live(self.sockets@, h) ==> r == Err::<Vec<EdmDataCommand>, Error>(Error::NotFound),
            self.network_up && (live(self.sockets@, h) && self.sockets@[slot_of(h)] matches Some(Socket::Tcp(_))) ==> r
                == Err::<Vec<EdmDataCommand>, Error>(Error::Illegal),
            self.network_up && (live(self.sockets@, h) && (self.sockets@[slot_of(h)] matches Some(Socket::Udp(u))
                && (!u.open() || no_key_for(self.socket_map.channels(), h.0)))) ==> r == Err::<
                Vec<EdmDataCommand>,
                Error,
            >(Error::SocketClosed),
            r matches Ok(cmds) ==> self.network_up && (self.sockets@[h.0 as int] matches Some(Socket::Udp(u))
                && u.open()) && cmds@.len() == chunk_count(data@.len()) && forall|i: int|
                0 <= i < cmds@.len() ==> (#[trigger] cmds@[i]).data@ == chunk(data@, i)
                    && self.socket_map.channels().contains_key(cmds@[i].channel)
                    && self.socket_map.channels()[cmds@[i].channel] == h.0,
            (self.network_up && live(self.sockets@, h) && (self.sockets@[h.0 as int] matches Some(Socket::Udp(u))
                && u.open()) && !no_key_for(self.socket_map.channels(), h.0)) ==> r is Ok,
    {
        if !self.network_up {
            return Err(Error::Network);
        }
        let i = h.0 as usize;
        if i >= self.sockets.slots.len() {
            return Err(Error::NotFound);
        }
        match &self.sockets.slots[i] {
            Some(Socket::Udp(u)) => {
                if !u.is_open() {
                    return Err(Error::SocketClosed);
                }
            },
            Some(_) => {
                return Err(Error::Illegal);
            },
            None => {
                return Err(Error::NotFound);
            },
        }
        let channel = match self.socket_map.socket_to_channel_id(&h) {
            Some(c) => c,
            None => {
                return Err(Error::SocketClosed);
            },
        };
        let mut cmds: Vec<EdmDataCommand> = Vec::new();
        let mut offset: usize = 0;
        let n = data.len();
        while offset < n
            invariant
                n == data@.len(),
                offset <= n,
                offset < n ==> offset == cmds@.len() * EGRESS_CHUNK_SIZE,
                offset == n ==> n <= cmds@.len() * EGRESS_CHUNK_SIZE,
                cmds@.len() > 0 ==> (cmds@.len() - 1) * EGRESS_CHUNK_SIZE < n,
                self.socket_map.channels().contains_key(channel.0),
                self.socket_map.channels()[channel.0] == h.0,
                forall|i: int|
                    0 <= i < cmds@.len() ==> (#[trigger] cmds@[i]).data@ == chunk(data@, i)
                        && cmds@[i].channel == channel.0,
            decreases n - offset,
        {
            let end = if n - offset > EGRESS_CHUNK_SIZE {
                offset + EGRESS_CHUNK_SIZE
            } else {
                n
            };
            let piece = copy_range(data, offset, end);
            let ghost i = cmds@.len() as int;
            assert(piece@ == chunk(data@, i));
            cmds.push(EdmDataCommand { channel: channel.0, data: piece });
            offset = end;
        }
        proof {
            let k = cmds@.len();
            if k > 0 {
                assert((n + EGRESS_CHUNK_SIZE - 1) / EGRESS_CHUNK_SIZE as int == k) by (nonlinear_arith)
                    requires
                        (k - 1) * 512 < n,
                        n <= k * 512,
                        k > 0,
                ;
            } else {
                assert(n == 0);
            }
        }
        Ok(cmds)
    }

    /// Closes UDP socket `h` and removes it from the table. `NotFound` or
    /// `Illegal` when `h` is no UDP socket.
    pub fn udp_close(&mut self, h: SocketHandle) -> (r: Result<(), Error>)
        requires
            old(self).wf(),
        ensures
            final(self).wf(),
            final(self).socket_map == old(self).socket_map,
            final(self).network_up == old(self).network_up,
            (live(old(self).sockets@, h) && old(self).sockets@[h.0 as int] matches Some(Socket::Udp(_))) ==> r is Ok
                && final(self).sockets@ == old(self).sockets@.update(h.0 as int, None),
            !live(old(self).sockets@, h) ==> r == Err::<(), Error>(Error::NotFound) && final(self).sockets@ == old(self).sockets@,
            (live(old(self).sockets@, h) && old(self).sockets@[h.0 as int] matches Some(Socket::Tcp(_))) ==> r
                == Err::<(), Error>(Error::Illegal) && final(self).sockets@ == old(self).sockets@,
    {
        let ghost before = self.sockets@;
        if !self.sockets.contains(h) {
            return Err(Error::NotFound);
        }
        match self.sockets.take(h) {
            Some(Socket::Udp(mut u)) => {
                u.close();
                Ok(())
            },
            Some(other) => {
                self.sockets.put(h, other);
                assert(self.sockets@ =~= before);
                Err(Error::Illegal)
            },
            None => Err(Error::NotFound),
        }
    }

    /// Decides after a socket command for `socket` failed with `error` on
    /// try `attempt` (counted from 0): a timeout is tried again while
    /// `attempt` is below 2; an invalid response drops the socket from the
    /// table. Returns whether to try again; when not, the caller reports
    /// `error`.
    pub fn handle_socket_error(&mut self, error: Error, socket: Option<SocketHandle>, attempt: u8) -> (r: bool)
        requires
            old(self).wf(),
        ensures
            final(self).wf(),
            final(self).socket_map == old(self).socket_map,
            final(self).network_up == old(self).network_up,
            r == (error == Error::Timeout && attempt + 1 < SOCKET_COMMAND_TRIES),
            (error == Error::InvalidResponse && (socket matches Some(h) && live(old(self).sockets@, h))) ==> final(self).sockets@ == old(self).sockets@.update(slot_of(socket->0), None),
            !(error == Error::InvalidResponse && (socket matches Some(h) && live(old(self).sockets@, h))) ==> final(self).sockets@ == old(self).sockets@,
    {
        match error {
            Error::Timeout => attempt < SOCKET_COMMAND_TRIES - 1,
            Error::InvalidResponse => {
                if let Some(h) = socket {
                    let _ = self.sockets.remove(h);
                }
                false
            },
            _ => false,
        }
    }

    /// Drops UDP socket `h`: it leaves the table, and if it was open with a
    /// peer tied to it, that peer is queued in `dropped_sockets` for the
    /// runner to close. `NotFound` or `Illegal` when `h` is no UDP socket.
    pub fn udp_drop(&mut self, h: SocketHandle) -> (r: Result<(), Error>)
        requires
            old(self).wf(),
        ensures
            final(self).wf(),
            final(self).socket_map == old(self).socket_map,
            final(self).network_up == old(self).network_up,
            !live(old(self).sockets@, h) ==> r == Err::<(), Error>(Error::NotFound) && final(self).sockets@
                == old(self).sockets@ && final(self).dropped_sockets@ == old(self).dropped_sockets@,
            (live(old(self).sockets@, h) && (old(self).sockets@[slot_of(h)] matches Some(Socket::Udp(_)))) ==> r is Ok && final(self).sockets@
                == old(self).sockets@.update(slot_of(h), None),
            (live(old(self).sockets@, h) && (old(self).sockets@[slot_of(h)] matches Some(Socket::Udp(u)) && u.open()
                && !no_key_for(old(self).socket_map.peers(), h.0))) ==> (final(self).dropped_sockets@.len()
                == old(self).dropped_sockets@.len() + 1 && final(self).dropped_sockets@.drop_last()
                == old(self).dropped_sockets@ && old(self).socket_map.peers().contains_key(
                final(self).dropped_sockets@.last().0,
            ) && old(self).socket_map.peers()[final(self).dropped_sockets@.last().0] == h.0),
            !(live(old(self).sockets@, h) && (old(self).sockets@[slot_of(h)] matches Some(Socket::Udp(u)) && u.open()
                && !no_key_for(old(self).socket_map.peers(), h.0))) ==> final(self).dropped_sockets@ == old(self).dropped_sockets@,
            (live(old(self).sockets@, h) && old(self).sockets@[slot_of(h)] matches Some(Socket::Tcp(_))) ==> r
                == Err::<(), Error>(Error::Illegal) && final(self).sockets@ == old(self).sockets@,
    {
        let ghost before = self.sockets@;
        if !self.sockets.contains(h) {
            return Err(Error::NotFound);
        }
        match self.sockets.take(h) {
            Some(Socket::Udp(u)) => {
                if u.is_open() {
                    if let Some(p) = self.socket_map.socket_to_peer(&h) {
                        self.dropped_sockets.push(p);
                    }
                }
                Ok(())
            },
            Some(other) => {
                self.sockets.put(h, other);
                assert(self.sockets@ =~= before);
                Err(Error::Illegal)
            },
            None => Err(Error::NotFound),
        }
    }

    /// Sets the state of TCP socket `h`, if there is one.
    fn set_tcp_state(&mut self, h: SocketHandle, state: TcpState)
        requires
            old(self).wf(),
        ensures
            final(self).wf(),
            final(self).network_up == old(self).network_up,
            final(self).socket_map == old(self).socket_map,
            match tcp_in(old(self).sockets@, h) {
                Some(t) => final(self).sockets@ == old(self).sockets@.update(
                    h.0 as int,
                    Some(Socket::Tcp(TcpSocket { state, ..t })),
                ),
                None => final(self).sockets@ == old(self).sockets@,
            },
    {
        let ghost before = self.sockets@;
        match self.sockets.take(h) {
            Some(Socket::Tcp(mut t)) => {
                t.state = state;
                self.sockets.put(h, Socket::Tcp(t));
            },
            Some(s) => {
                self.sockets.put(h, s);
                assert(self.sockets@ =~= before);
            },
            None => {},
        }
    }

    /// A peer connection came up with its data channel: a TCP socket that
    /// waits for the connection of that peer becomes `Connected`, and the
    /// channel is tied to it.
    pub fn handle_peer_connected(&mut self, peer: PeerHandle, channel: ChannelId)
        requires
            old(self).wf(),
        ensures
            final(self).wf(),
            final(self).network_up == old(self).network_up,
            final(self).socket_map.peers() == old(self).socket_map.peers(),
            ({
                let ps = old(self).socket_map.peers();
                if ps.contains_key(peer.0) && (tcp_in(old(self).sockets@, SocketHandle(ps[peer.0])) matches Some(
                    w,
                ) && w.state is WaitingForConnect) {
                    let h = SocketHandle(ps[peer.0]);
                    let t = tcp_in(old(self).sockets@, h)->0;
                    &&& final(self).sockets@ == old(self).sockets@.update(
                        h.0 as int,
                        Some(Socket::Tcp(TcpSocket { state: TcpState::Connected, ..t })),
                    )
                    &&& final(self).socket_map.channels() == after_insert(
                        old(self).socket_map.channels(),
                        channel.0,
                        h.0,
                    )
                } else {
                    &&& final(self).sockets@ == old(self).sockets@
                    &&& final(self).socket_map.channels() == old(self).socket_map.channels()
                }
            }),
    {
        let h = match self.socket_map.peer_to_socket(&peer) {
            Some(h) => h,
            None => return ,
        };
        let ghost before = self.sockets@;
        match self.sockets.take(h) {
            Some(Socket::Tcp(mut t)) => {
                match t.state {
                    TcpState::WaitingForConnect(_) => {
                        t.state = TcpState::Connected;
                        self.sockets.put(h, Socket::Tcp(t));
                        let _ = self.socket_map.insert_channel(channel, h);
                    },
                    _ => {
                        self.sockets.put(h, Socket::Tcp(t));
                        assert(self.sockets@ =~= before);
                    },
                }
            },
            Some(s) => {
                self.sockets.put(h, s);
                assert(self.sockets@ =~= before);
            },
            None => {},
        }
    }

    /// A peer connection was closed by the module: the channels and the
    /// peer of its socket are untied, and a TCP socket is marked closed by
    /// the remote side at `now`.
    pub fn handle_peer_disconnected(&mut self, peer: PeerHandle, now: Instant)
        requires
            old(self).wf(),
        ensures
            final(self).wf(),
            final(self).network_up == old(self).network_up,
            final(self).socket_map.peers() == old(self).socket_map.peers().remove(peer.0),
            old(self).socket_map.peers().contains_key(peer.0) ==> no_key_for(
                final(self).socket_map.channels(),
                old(self).socket_map.peers()[peer.0],
            ),
            !old(self).socket_map.peers().contains_key(peer.0) ==> final(self).socket_map.channels() == old(self).socket_map.channels(),
            ({
                let ps = old(self).socket_map.peers();
                if ps.contains_key(peer.0) && tcp_in(old(self).sockets@, SocketHandle(ps[peer.0])) is Some {
                    final(self).sockets@ == old(self).sockets@.update(
                        ps[peer.0] as int,
                        Some(Socket::Tcp(TcpSocket {
                            state: TcpState::ShutdownForWrite(now),
                            ..tcp_in(old(self).sockets@, SocketHandle(ps[peer.0]))->0
                        })),
                    )
                } else {
                    final(self).sockets@ == old(self).sockets@
                }
            }),
    {
        let h = match self.socket_map.peer_to_socket(&peer) {
            Some(h) => h,
            None => {
                self.socket_map.remove_peer(&peer);
                return ;
            },
        };
        self.socket_map.remove_peer(&peer);
        self.untie_channels(h);
        self.set_tcp_state(h, TcpState::ShutdownForWrite(now));
    }

    /// Unties every channel of socket `h`.
    fn untie_channels(&mut self, h: SocketHandle)
        requires
            old(self).wf(),
        ensures
            final(self).wf(),
            final(self).network_up == old(self).network_up,
            final(self).sockets == old(self).sockets,
            final(self).socket_map.peers() == old(self).socket_map.peers(),
            no_key_for(final(self).socket_map.channels(), h.0),
            forall|c: u8|
                #[trigger] final(self).socket_map.channels().contains_key(c) ==> old(self).socket_map.channels().contains_key(c) && final(self).socket_map.channels()[c] == old(self).socket_map.channels()[c],
            no_key_for(old(self).socket_map.channels(), h.0) ==> final(self).socket_map.channels() == old(self).socket_map.channels(),
    {
        let mut c: u16 = 0;
        while c < 256
            invariant
                self.wf(),
                self.network_up == old(self).network_up,
                self.sockets == old(self).sockets,
                self.socket_map.peers() == old(self).socket_map.peers(),
                forall|k: u8|
                    #[trigger] self.socket_map.channels().contains_key(k) ==> old(self).socket_map.channels().contains_key(k) && self.socket_map.channels()[k] == old(self).socket_map.channels()[k],
                forall|k: u8|
                    #[trigger] old(self).socket_map.channels().contains_key(k) && old(self).socket_map.channels()[k]
                        != h.0 ==> self.socket_map.channels().contains_key(k),
                forall|k: u8|
                    (k as int) < (c as int) ==> !(#[trigger] self.socket_map.channels().contains_key(k)
                        && self.socket_map.channels()[k] == h.0),
            decreases 256 - c,
        {
            let id = ChannelId(c as u8);
            match self.socket_map.channel_to_socket(&id) {
                Some(owner) => {
                    if owner.0 == h.0 {
                        self.socket_map.remove_channel(&id);
                    }
                },
                None => {},
            }
            c = c + 1;
        }
        proof {
            if no_key_for(old(self).socket_map.channels(), h.0) {
                assert(self.socket_map.channels() =~= old(self).socket_map.channels());
            }
        }
    }
}

/// Opening a socket in a free slot and removing it again leaves the table
/// as it was, so a table that held no socket holds none again.
pub proof fn lemma_open_then_close(s: Seq<Option<Socket>>, h: SocketHandle, sock: Socket)
    requires
        h.0 < s.len(),
        s[h.0 as int] is None,
    ensures
        s.update(h.0 as int, Some(sock)).update(h.0 as int, None) == s,
        occupied(s.update(h.0 as int, Some(sock)).update(h.0 as int, None)) == occupied(s),
{
    assert(s.update(h.0 as int, Some(sock)).update(h.0 as int, None) =~= s);
}

/// A TCP socket that waits for its connection and whose peer comes up is
/// connected, and `is_connected` says so while the network is up; once its
/// peer is closed it is closed for writing, and sending on it is
/// `SocketClosed` while the network is up.
pub proof fn lemma_connect_then_close(
    s: Seq<Option<Socket>>,
    h: SocketHandle,
    t: TcpSocket,
    channels: Map<u8, u8>,
    now: Instant,
)
    requires
        h.0 < s.len(),
        s[h.0 as int] == Some(Socket::Tcp(t)),
        t.state is WaitingForConnect,
    ensures
        ({
            let connected = s.update(h.0 as int, Some(Socket::Tcp(TcpSocket { state: TcpState::Connected, ..t })));
            let closed = connected.update(
                h.0 as int,
                Some(Socket::Tcp(TcpSocket { state: TcpState::ShutdownForWrite(now), ..t })),
            );
            &&& is_connected_result(true, connected, h) == Ok::<bool, Error>(true)
            &&& send_check(true, closed, channels, h) == Err::<(), Error>(Error::SocketClosed)
        }),
{
}

} // verus!
