pub mod registers;

use vstd::prelude::*;

use crate::apu::registers::ApuRegister;
use crate::bus::registers::dma::DmaTimer;

verus! {

/// The sound unit: its registers and the pending refill requests of the
/// two DMA sound FIFOs.
#[derive(Debug, Clone, Copy, PartialEq, Eq, Structural)]
pub struct Apu {
    pub registers: ApuRegister,
    pub fifo_a_request: bool,
    pub fifo_b_request: bool,
}

impl View for Apu {
    type V = Apu;

    open spec fn view(&self) -> Apu {
        *self
    }
}

impl Apu {
    pub open spec fn spec_default() -> Apu {
        Apu { registers: ApuRegister::spec_default(), fifo_a_request: false, fifo_b_request: false }
    }

    /// An overflow of `timer`: each FIFO driven by that timer plays one
    /// sample, and requests a refill when it held at most four.
    pub open spec fn spec_on_timer_overflow(self, timer: DmaTimer) -> Apu {
        let r = self.registers;
        let a = r.soundcnt.spec_timer_select_a() == timer;
        let b = r.soundcnt.spec_timer_select_b() == timer;
        let fa = if a {
            r.fifo_a.buffer.spec_pop().1
        } else {
            r.fifo_a.buffer
        };
        let fb = if b {
            r.fifo_b.buffer.spec_pop().1
        } else {
            r.fifo_b.buffer
        };
        Apu {
            registers: ApuRegister {
                fifo_a: crate::apu::registers::fifo::Fifo { buffer: fa },
                fifo_b: crate::apu::registers::fifo::Fifo { buffer: fb },
                ..r
            },
            fifo_a_request: self.fifo_a_request || (a && r.fifo_a.spec_needs_samples()),
            fifo_b_request: self.fifo_b_request || (b && r.fifo_b.spec_needs_samples()),
        }
    }

    /// Nothing is synthesised.
    pub fn step(&mut self)
        ensures
            *final(self) == *old(self),
    {
    }

    /// Handles an overflow of `timer` (see `spec_on_timer_overflow`).
    pub fn on_timer_overflow(&mut self, timer: DmaTimer)
        ensures
            *final(self) == old(self).spec_on_timer_overflow(timer),
    {
        if self.registers.soundcnt.timer_select_a() == timer {
            if self.registers.fifo_a.needs_samples() {
                self.fifo_a_request = true;
            }
            self.registers.fifo_a.buffer.pop();
        }
        if self.registers.soundcnt.timer_select_b() == timer {
            if self.registers.fifo_b.needs_samples() {
                self.fifo_b_request = true;
            }
            self.registers.fifo_b.buffer.pop();
        }
    }

    /// Takes the refill request of FIFO A.
    pub fn poll_fifo_a_request(&mut self) -> (r: bool)
        ensures
            r == old(self).fifo_a_request,
            *final(self) == (Apu { fifo_a_request: false, ..*old(self) }),
    {
        let r = self.fifo_a_request;
        self.fifo_a_request = false;
        r
    }

    /// Takes the refill request of FIFO B.
    pub fn poll_fifo_b_request(&mut self) -> (r: bool)
        ensures
            r == old(self).fifo_b_request,
            *final(self) == (Apu { fifo_b_request: false, ..*old(self) }),
    {
        let r = self.fifo_b_request;
        self.fifo_b_request = false;
        r
    }

    /// Back to the power-on state.
    pub fn reset(&mut self)
        ensures
            *final(self) == Apu::spec_default(),
    {
        self.registers = ApuRegister::default();
        self.fifo_a_request = false;
        self.fifo_b_request = false;
    }
}

impl Default for Apu {
    fn default() -> (r: Apu)
        ensures
            r == Apu::spec_default(),
    {
        Apu { registers: ApuRegister::default(), fifo_a_request: false, fifo_b_request: false }
    }
}

} // verus!
