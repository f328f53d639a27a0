use vstd::prelude::*;

verus! {

/// Capacity of a `FifoBuffer`.
pub const FIFO_CAPACITY: u8 = 8;

/// A first-in first-out queue of at most eight bytes, packed into a word:
/// byte `i` of `data` is the `i`-th oldest of the `len` queued bytes. A
/// push onto a full queue is dropped.
#[derive(Debug, Clone, Copy, PartialEq, Eq, Structural)]
pub struct FifoBuffer {
    pub data: u64,
    pub len: u8,
}

impl FifoBuffer {
    /// The length is within the capacity and the bytes past the queue are clear.
    pub open spec fn wf(self) -> bool {
        &&& self.len <= FIFO_CAPACITY
        &&& self.len < FIFO_CAPACITY ==> self.data >> (8 * self.len) as u64 == 0
    }

    /// The queued bytes, oldest first.
    pub open spec fn contents(self) -> Seq<u8> {
        Seq::new(self.len as nat, |i: int| (self.data >> (8 * i) as u64) as u8)
    }

    pub open spec fn spec_push(self, value: u8) -> FifoBuffer {
        if self.len < FIFO_CAPACITY {
            FifoBuffer {
                data: self.data | ((value as u64) << (8 * self.len) as u64),
                len: (self.len + 1) as u8,
            }
        } else {
            self
        }
    }

    pub open spec fn spec_pop(self) -> (Option<u8>, FifoBuffer) {
        if self.len == 0 {
            (None, self)
        } else {
            (Some(self.data as u8), FifoBuffer { data: self.data >> 8u64, len: (self.len - 1) as u8 })
        }
    }

    /// An empty queue.
    pub fn new() -> (r: FifoBuffer)
        ensures
            r == (FifoBuffer { data: 0, len: 0 }),
    {
        FifoBuffer { data: 0, len: 0 }
    }

    /// Number of queued bytes.
    pub fn len(&self) -> (r: u8)
        ensures
            r == self.len,
    {
        self.len
    }

    /// Appends `value` unless the queue is full.
    pub fn push(&mut self, value: u8)
        ensures
            *final(self) == old(self).spec_push(value),
    {
        if self.len < FIFO_CAPACITY {
            self.data = self.data | ((value as u64) << (8 * self.len) as u64);
            self.len = self.len + 1;
        }
    }

    /// Removes and returns the oldest byte, if any.
    pub fn pop(&mut self) -> (r: Option<u8>)
        ensures
            (r, *final(self)) == old(self).spec_pop(),
    {
        if self.len == 0 {
            return None;
        }
        let first = self.data as u8;
        self.data = self.data >> 8u64;
        self.len = self.len - 1;
        Some(first)
    }

    /// Empties the queue.
    pub fn clear(&mut self)
        ensures
            *final(self) == (FifoBuffer { data: 0, len: 0 }),
    {
        self.data = 0;
        self.len = 0;
    }
}

} // verus!
