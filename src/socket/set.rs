//! The bounded table of sockets, keyed by handle.
use vstd::prelude::*;

use crate::error::Error;
use crate::socket::tcp::TcpSocket;
use crate::socket::udp::UdpSocket;
use crate::socket::{Instant, SocketHandle, SocketMeta};

verus! {

/// A socket of either kind.
pub enum Socket {
    Tcp(TcpSocket),
    Udp(UdpSocket),
}

impl Socket {
    pub open spec fn wf(&self) -> bool {
        match self {
            Socket::Tcp(t) => t.wf(),
            Socket::Udp(u) => u.wf(),
        }
    }

    /// The handle that the socket carries.
    pub open spec fn handle_of(&self) -> SocketHandle {
        match self {
            Socket::Tcp(t) => t.meta.handle,
            Socket::Udp(u) => u.meta.handle,
        }
    }

    /// The socket with its handle set to `h`.
    pub open spec fn with_handle(self, h: SocketHandle) -> Socket {
        match self {
            Socket::Tcp(t) => Socket::Tcp(TcpSocket { meta: SocketMeta { handle: h, ..t.meta }, ..t }),
            Socket::Udp(u) => Socket::Udp(UdpSocket { meta: SocketMeta { handle: h, ..u.meta }, ..u }),
        }
    }
}

/// Whether the slot holds a TCP socket that may be recycled at `now`.
pub open spec fn slot_recyclable(slot: Option<Socket>, now: Instant) -> bool {
    match slot {
        Some(Socket::Tcp(t)) => t.recyclable(now),
        _ => false,
    }
}

/// The slots `s` after recycling at `now`: every TCP socket that may be
/// recycled is gone.
pub open spec fn recycled(s: Seq<Option<Socket>>, now: Instant) -> Seq<Option<Socket>> {
    Seq::new(s.len(), |i: int| if slot_recyclable(s[i], now) { None } else { s[i] })
}

/// A free slot at `j`, at or after `i`, makes `free_from(s, i)` a free slot.
pub proof fn lemma_free_slot_found(s: Seq<Option<Socket>>, i: int, j: int)
    requires
        0 <= i <= j < s.len(),
        s[j] is None,
    ensures
        0 <= free_from(s, i) <= j,
        s[free_from(s, i)] is None,
    decreases j - i,
{
    if s[i] is Some {
        lemma_free_slot_found(s, i + 1, j);
    }
}

/// `free_from(s, i)`, when it is not -1, is a free slot at or after `i`.
pub proof fn lemma_free_from_bounds(s: Seq<Option<Socket>>, i: int)
    ensures
        free_from(s, i) >= 0 ==> i <= free_from(s, i) < s.len() && s[free_from(s, i)] is None,
        free_from(s, i) < 0 ==> free_from(s, i) == -1,
    decreases s.len() - i,
{
    if 0 <= i < s.len() && s[i] is Some {
        lemma_free_from_bounds(s, i + 1);
    }
}

/// The number of occupied slots among `s`.
pub open spec fn occupied(s: Seq<Option<Socket>>) -> nat
    decreases s.len(),
{
    if s.len() == 0 {
        0
    } else {
        occupied(s.drop_last()) + if s.last() is Some {
            1nat
        } else {
            0nat
        }
    }
}

/// The first free slot of `s` at `i` or later, or -1.
pub open spec fn free_from(s: Seq<Option<Socket>>, i: int) -> int
    decreases s.len() - i,
{
    if i < 0 || i >= s.len() {
        -1
    } else if s[i] is None {
        i
    } else {
        free_from(s, i + 1)
    }
}

/// The smallest free slot of `s`, or -1 when all are taken.
pub open spec fn first_free(s: Seq<Option<Socket>>) -> int {
    free_from(s, 0)
}

/// A table of at most 256 sockets; the handle of a socket is its slot.
pub struct SocketSet {
    pub slots: Vec<Option<Socket>>,
}

impl View for SocketSet {
    type V = Seq<Option<Socket>>;

    open spec fn view(&self) -> Seq<Option<Socket>> {
        self.slots@
    }
}

impl SocketSet {
    pub open spec fn wf(&self) -> bool {
        &&& self@.len() <= 256
        &&& forall|i: int|
            0 <= i < self@.len() && #[trigger] self@[i] is Some ==> self@[i]->0.wf()
                && self@[i]->0.handle_of() == SocketHandle(i as u8)
    }

    /// An empty table of `capacity` slots.
    pub fn new(capacity: usize) -> (r: Self)
        requires
            capacity <= 256,
        ensures
            r.wf(),
            r@.len() == capacity,
            forall|i: int| 0 <= i < capacity ==> r@[i] is None,
    {
        let mut slots: Vec<Option<Socket>> = Vec::new();
        let mut i: usize = 0;
        while i < capacity
            invariant
                i <= capacity,
                slots@.len() == i,
                forall|k: int| 0 <= k < i ==> slots@[k] is None,
            decreases capacity - i,
        {
            slots.push(None);
            i = i + 1;
        }
        SocketSet { slots }
    }

    /// The number of slots.
    pub fn capacity(&self) -> (r: usize)
        ensures
            r == self@.len(),
    {
        self.slots.len()
    }

    /// The number of sockets in the table.
    pub fn len(&self) -> (r: usize)
        requires
            self.wf(),
        ensures
            r == occupied(self@),
    {
        let mut n: usize = 0;
        let mut i: usize = 0;
        while i < self.slots.len()
            invariant
                self.wf(),
                i <= self@.len(),
                n == occupied(self@.subrange(0, i as int)),
                n <= i,
            decreases self@.len() - i,
        {
            assert(self@.subrange(0, i + 1).drop_last() =~= self@.subrange(0, i as int));
            if self.slots[i].is_some() {
                n = n + 1;
            }
            i = i + 1;
        }
        assert(self@.subrange(0, i as int) =~= self@);
        n
    }

    /// Whether `h` names a socket of the table.
    pub fn contains(&self, h: SocketHandle) -> (r: bool)
        ensures
            r == (h.0 < self@.len() && self@[h.0 as int] is Some),
    {
        let i = h.0 as usize;
        i < self.slots.len() && self.slots[i].is_some()
    }

    /// Puts `socket` into the smallest free slot, whose index becomes its
    /// handle. `SocketSetFull` when no slot is free.
    pub fn add(&mut self, socket: Socket) -> (r: Result<SocketHandle, Error>)
        requires
            old(self).wf(),
            socket.wf(),
        ensures
            final(self).wf(),
            first_free(old(self)@) < 0 ==> r == Err::<SocketHandle, Error>(Error::SocketSetFull)
                && final(self)@ == old(self)@,
            first_free(old(self)@) >= 0 ==> r == Ok::<SocketHandle, Error>(
                SocketHandle(first_free(old(self)@) as u8),
            ) && final(self)@ == old(self)@.update(
                first_free(old(self)@),
                Some(socket.with_handle(SocketHandle(first_free(old(self)@) as u8))),
            ),
    {
        let mut i: usize = 0;
        while i < self.slots.len()
            invariant
                self.wf(),
                socket.wf(),
                i <= self@.len(),
                free_from(self@, i as int) == first_free(self@),
                self@ == old(self)@,
            decreases self@.len() - i,
        {
            if self.slots[i].is_none() {
                let h = SocketHandle(i as u8);
                let placed = match socket {
                    Socket::Tcp(mut t) => {
                        t.meta.handle = h;
                        Socket::Tcp(t)
                    },
                    Socket::Udp(mut u) => {
                        u.meta.handle = h;
                        Socket::Udp(u)
                    },
                };
                assert(placed == socket.with_handle(h));
                assert(placed.wf());
                self.slots.set(i, Some(placed));
                assert forall|k: int| 0 <= k < self@.len() && #[trigger] self@[k] is Some implies self@[k]->0.wf()
                    && self@[k]->0.handle_of() == SocketHandle(k as u8) by {
                    if k != i {
                        assert(old(self)@[k] == self@[k]);
                    }
                }
                return Ok(h);
            }
            i = i + 1;
        }
        Err(Error::SocketSetFull)
    }

    /// Takes the socket of `h` out of the table, leaving its slot free.
    pub fn take(&mut self, h: SocketHandle) -> (r: Option<Socket>)
        requires
            old(self).wf(),
        ensures
            final(self).wf(),
            h.0 < old(self)@.len() ==> r == old(self)@[h.0 as int] && final(self)@ == old(self)@.update(
                h.0 as int,
                None,
            ),
            h.0 >= old(self)@.len() ==> r is None && final(self)@ == old(self)@,
            r matches Some(s) ==> s.wf() && s.handle_of() == h,
    {
        let i = h.0 as usize;
        if i >= self.slots.len() {
            return None;
        }
        let mut out: Option<Socket> = None;
        std::mem::swap(&mut out, &mut self.slots[i]);
        proof {
            if out is Some {
                assert(old(self)@[i as int] is Some);
            }
        }
        out
    }

    /// Puts `socket` back into its free slot `h`.
    pub fn put(&mut self, h: SocketHandle, socket: Socket)
        requires
            old(self).wf(),
            h.0 < old(self)@.len(),
            old(self)@[h.0 as int] is None,
            socket.wf(),
            socket.handle_of() == h,
        ensures
            final(self).wf(),
            final(self)@ == old(self)@.update(h.0 as int, Some(socket)),
    {
        self.slots.set(h.0 as usize, Some(socket));
    }

    /// Removes the socket of `h`. `NotFound` when there is none.
    pub fn remove(&mut self, h: SocketHandle) -> (r: Result<(), Error>)
        requires
            old(self).wf(),
        ensures
            final(self).wf(),
            (h.0 < old(self)@.len() && old(self)@[h.0 as int] is Some) ==> r is Ok && final(self)@ == old(
                self,
            )@.update(h.0 as int, None),
            !(h.0 < old(self)@.len() && old(self)@[h.0 as int] is Some) ==> r == Err::<(), Error>(
                Error::NotFound,
            ) && final(self)@ == old(self)@,
    {
        match self.take(h) {
            Some(_) => Ok(()),
            None => Err(Error::NotFound),
        }
    }

    /// Removes every TCP socket that may be recycled at `now`, and tells
    /// whether there was one.
    pub fn recycle(&mut self, now: Instant) -> (r: bool)
        requires
            old(self).wf(),
        ensures
            final(self).wf(),
            final(self)@ == recycled(old(self)@, now),
            r == exists|i: int| 0 <= i < old(self)@.len() && slot_recyclable(#[trigger] old(self)@[i], now),
    {
        let mut freed = false;
        let mut i: usize = 0;
        while i < self.slots.len()
            invariant
                self.wf(),
                i <= self@.len(),
                self@.len() == old(self)@.len(),
                forall|k: int|
                    0 <= k < i ==> #[trigger] self@[k] == if slot_recyclable(old(self)@[k], now) {
                        None
                    } else {
                        old(self)@[k]
                    },
                forall|k: int| i <= k < self@.len() ==> #[trigger] self@[k] == old(self)@[k],
                freed == exists|k: int| 0 <= k < i && slot_recyclable(#[trigger] old(self)@[k], now),
            decreases self@.len() - i,
        {
            let hit = match &self.slots[i] {
                Some(Socket::Tcp(t)) => t.recycle(now),
                _ => false,
            };
            if hit {
                self.slots.set(i, None);
                freed = true;
            }
            i = i + 1;
        }
        assert(self@ =~= recycled(old(self)@, now));
        freed
    }
}

} // verus!
