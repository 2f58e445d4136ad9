//! A fixed-capacity byte queue over a circular store.
use vstd::prelude::*;

verus! {

/// A queue of bytes of fixed capacity. Its bytes, oldest first, are its
/// view.
pub struct RingBuffer {
    storage: Vec<u8>,
    read_at: usize,
    length: usize,
}

impl View for RingBuffer {
    type V = Seq<u8>;

    closed spec fn view(&self) -> Seq<u8> {
        Seq::new(self.length as nat, |i: int| self.storage@[self.slot(i)])
    }
}

impl RingBuffer {
    /// The index in the store of the `i`-th queued byte.
    pub closed spec fn slot(&self, i: int) -> int {
        if self.read_at + i < self.storage@.len() {
            self.read_at + i
        } else {
            self.read_at + i - self.storage@.len()
        }
    }

    /// The number of bytes the queue can hold.
    pub closed spec fn cap(&self) -> nat {
        self.storage@.len()
    }

    pub closed spec fn wf(&self) -> bool {
        &&& self.length <= self.storage@.len()
        &&& (self.storage@.len() == 0 ==> self.read_at == 0)
        &&& (self.storage@.len() > 0 ==> self.read_at < self.storage@.len())
    }

    /// An empty queue that holds up to `capacity` bytes.
    pub fn new(capacity: usize) -> (r: Self)
        ensures
            r.wf(),
            r@ == Seq::<u8>::empty(),
            r.cap() == capacity,
    {
        let mut storage: Vec<u8> = Vec::new();
        let mut i: usize = 0;
        while i < capacity
            invariant
                i <= capacity,
                storage@.len() == i,
            decreases capacity - i,
        {
            storage.push(0);
            i = i + 1;
        }
        let r = RingBuffer { storage, read_at: 0, length: 0 };
        assert(r@ =~= Seq::<u8>::empty());
        r
    }

    /// The number of queued bytes.
    pub fn len(&self) -> (r: usize)
        requires
            self.wf(),
        ensures
            r == self@.len(),
    {
        self.length
    }

    /// The number of bytes the queue can hold.
    pub fn capacity(&self) -> (r: usize)
        ensures
            r == self.cap(),
    {
        self.storage.len()
    }

    /// Whether no byte is queued.
    pub fn is_empty(&self) -> (r: bool)
        requires
            self.wf(),
        ensures
            r == (self@.len() == 0),
    {
        self.length == 0
    }

    /// Whether the queue holds as many bytes as it can.
    pub fn is_full(&self) -> (r: bool)
        requires
            self.wf(),
        ensures
            r == (self@.len() == self.cap()),
            self@.len() <= self.cap(),
    {
        self.length == self.storage.len()
    }

    /// The number of bytes that still fit.
    pub fn window(&self) -> (r: usize)
        requires
            self.wf(),
        ensures
            r == self.cap() - self@.len(),
    {
        self.storage.len() - self.length
    }

    /// Queues as many bytes of `data`, from its start, as fit, and returns
    /// how many that was.
    pub fn enqueue_slice(&mut self, data: &[u8]) -> (r: usize)
        requires
            old(self).wf(),
        ensures
            final(self).wf(),
            final(self).cap() == old(self).cap(),
            r == if data@.len() < old(self).cap() - old(self)@.len() {
                data@.len() as int
            } else {
                old(self).cap() - old(self)@.len()
            },
            final(self)@ == old(self)@ + data@.subrange(0, r as int),
    {
        let free = self.storage.len() - self.length;
        let n = if data.len() < free {
            data.len()
        } else {
            free
        };
        let ghost start = self@;
        let mut k: usize = 0;
        while k < n
            invariant
                self.wf(),
                k <= n,
                n <= data@.len(),
                self.cap() == old(self).cap(),
                self.read_at == old(self).read_at,
                self.length == old(self).length + k,
                old(self).length + n <= self.cap(),
                self@ == start + data@.subrange(0, k as int),
            decreases n - k,
        {
            let cap = self.storage.len();
            let pos = if self.length < cap - self.read_at {
                self.read_at + self.length
            } else {
                self.length - (cap - self.read_at)
            };
            let ghost before = self@;
            self.storage.set(pos, data[k]);
            self.length = self.length + 1;
            k = k + 1;
            assert(self@ =~= before + seq![data@[k - 1]]);
            assert(data@.subrange(0, k as int) =~= data@.subrange(0, k - 1) + seq![data@[k - 1]]);
        }
        n
    }

    /// Moves as many of the oldest bytes as fit into `out`, to its start,
    /// and returns how many that was.
    pub fn dequeue_slice(&mut self, out: &mut [u8]) -> (r: usize)
        requires
            old(self).wf(),
        ensures
            final(self).wf(),
            final(self).cap() == old(self).cap(),
            r == if old(out)@.len() < old(self)@.len() {
                old(out)@.len() as int
            } else {
                old(self)@.len() as int
            },
            final(out)@ == old(self)@.subrange(0, r as int) + old(out)@.subrange(r as int, old(out)@.len() as int),
            final(self)@ == old(self)@.subrange(r as int, old(self)@.len() as int),
    {
        let n = if out.len() < self.length {
            out.len()
        } else {
            self.length
        };
        let ghost start = self@;
        let ghost out0 = out@;
        let mut k: usize = 0;
        while k < n
            invariant
                self.wf(),
                k <= n,
                n <= out@.len(),
                n <= start.len(),
                out@.len() == out0.len(),
                self.cap() == old(self).cap(),
                self@ == start.subrange(k as int, start.len() as int),
                self@.len() == start.len() - k,
                out@ == start.subrange(0, k as int) + out0.subrange(k as int, out0.len() as int),
            decreases n - k,
        {
            let ghost before = self@;
            assert(before.len() > 0);
            assert(before[0] == start[k as int]);
            assert(before[0] == self.storage@[self.slot(0)]);
            let b = self.storage[self.read_at];
            out[k] = b;
            self.read_at = if self.read_at < self.storage.len() - 1 {
                self.read_at + 1
            } else {
                0
            };
            self.length = self.length - 1;
            k = k + 1;
            assert(self@ =~= before.subrange(1, before.len() as int));
            assert(self@ =~= start.subrange(k as int, start.len() as int));
            assert(out@ =~= start.subrange(0, k as int) + out0.subrange(k as int, out0.len() as int));
        }
        n
    }

    /// Copies as many of the oldest bytes as fit into `out`, to its start,
    /// without dequeuing them, and returns how many that was.
    pub fn peek_slice(&self, out: &mut [u8]) -> (r: usize)
        requires
            self.wf(),
        ensures
            r == if old(out)@.len() < self@.len() {
                old(out)@.len() as int
            } else {
                self@.len() as int
            },
            final(out)@ == self@.subrange(0, r as int) + old(out)@.subrange(r as int, old(out)@.len() as int),
    {
        let n = if out.len() < self.length {
            out.len()
        } else {
            self.length
        };
        let ghost out0 = out@;
        let mut k: usize = 0;
        while k < n
            invariant
                self.wf(),
                k <= n,
                n <= out@.len(),
                n <= self@.len(),
                out@.len() == out0.len(),
                out@ == self@.subrange(0, k as int) + out0.subrange(k as int, out0.len() as int),
            decreases n - k,
        {
            let cap = self.storage.len();
            let pos = if k < cap - self.read_at {
                self.read_at + k
            } else {
                k - (cap - self.read_at)
            };
            out[k] = self.storage[pos];
            k = k + 1;
            assert(out@ =~= self@.subrange(0, k as int) + out0.subrange(k as int, out0.len() as int));
        }
        n
    }
}

} // verus!
