use vstd::prelude::*;

use crate::bus::memory::Bus;
use crate::utils::collections::FifoBuffer;

verus! {

/// A sound FIFO: the samples written and not yet played.
#[derive(Debug, Clone, Copy, PartialEq, Eq, Structural)]
pub struct Fifo {
    pub buffer: FifoBuffer,
}

impl View for Fifo {
    type V = Fifo;

    open spec fn view(&self) -> Fifo {
        *self
    }
}

impl Default for Fifo {
    /// An empty FIFO.
    fn default() -> (r: Fifo)
        ensures
            r == (Fifo { buffer: FifoBuffer { data: 0, len: 0 } }),
    {
        Fifo { buffer: FifoBuffer::new() }
    }
}

impl Fifo {
    pub open spec fn spec_needs_samples(self) -> bool {
        0 < self.buffer.len <= 4
    }

    /// Whether the FIFO holds some samples but at most four, so that a
    /// refill is due.
    pub fn needs_samples(&self) -> (r: bool)
        ensures
            r == self.spec_needs_samples(),
    {
        self.buffer.len() > 0 && self.buffer.len() <= 4
    }
}

impl Bus for Fifo {
    /// The FIFO is write-only.
    open spec fn spec_read_byte(v: Fifo, address: u32) -> u8 {
        0
    }

    /// Any write queues its byte (dropped when the FIFO is full).
    open spec fn spec_write_byte(v: Fifo, address: u32, value: u8) -> Fifo {
        Fifo { buffer: v.buffer.spec_push(value) }
    }

    fn read_byte(&self, address: u32) -> (r: u8) {
        0
    }

    fn write_byte(&mut self, address: u32, value: u8) {
        self.buffer.push(value);
    }
}

} // verus!
