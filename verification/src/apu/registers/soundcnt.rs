use vstd::prelude::*;

use crate::bus::memory::Bus;
use crate::bus::registers::dma::DmaTimer;
use crate::utils::bits::{bit, is_set16, update16, with_bit};

verus! {

/// Sound control registers: `cnt_l` (channel volumes) and `cnt_h` (DMA
/// sound control: timer of FIFO A in bit 10, its reset in bit 11, timer of
/// FIFO B in bit 14, its reset in bit 15).
#[derive(Debug, Clone, Copy, PartialEq, Eq, Structural)]
pub struct Soundcnt {
    pub cnt_l: u16,
    pub cnt_h: u16,
}

impl View for Soundcnt {
    type V = Soundcnt;

    open spec fn view(&self) -> Soundcnt {
        *self
    }
}

impl Default for Soundcnt {
    fn default() -> (r: Soundcnt)
        ensures
            r == (Soundcnt { cnt_l: 0, cnt_h: 0 }),
    {
        Soundcnt { cnt_l: 0, cnt_h: 0 }
    }
}

impl Soundcnt {
    pub open spec fn spec_timer_select_a(self) -> DmaTimer {
        if bit(self.cnt_h as u32, 10) {
            DmaTimer::Timer1
        } else {
            DmaTimer::Timer0
        }
    }

    pub open spec fn spec_timer_select_b(self) -> DmaTimer {
        if bit(self.cnt_h as u32, 14) {
            DmaTimer::Timer1
        } else {
            DmaTimer::Timer0
        }
    }

    /// The timer that drives FIFO A (bit 10).
    pub fn timer_select_a(&self) -> (r: DmaTimer)
        ensures
            r == self.spec_timer_select_a(),
    {
        if is_set16(self.cnt_h, 10) {
            DmaTimer::Timer1
        } else {
            DmaTimer::Timer0
        }
    }

    /// Takes the reset request of FIFO A: returns bit 11 and clears it.
    pub fn reset_fifo_a(&mut self) -> (r: bool)
        ensures
            r == bit(old(self).cnt_h as u32, 11),
            final(self).cnt_h as u32 == with_bit(old(self).cnt_h as u32, 11, false),
            final(self).cnt_l == old(self).cnt_l,
    {
        let r = is_set16(self.cnt_h, 11);
        self.cnt_h = update16(self.cnt_h, 11, false);
        r
    }

    /// The timer that drives FIFO B (bit 14).
    pub fn timer_select_b(&self) -> (r: DmaTimer)
        ensures
            r == self.spec_timer_select_b(),
    {
        if is_set16(self.cnt_h, 14) {
            DmaTimer::Timer1
        } else {
            DmaTimer::Timer0
        }
    }

    /// Takes the reset request of FIFO B: returns bit 15 and clears it.
    pub fn reset_fifo_b(&mut self) -> (r: bool)
        ensures
            r == bit(old(self).cnt_h as u32, 15),
            final(self).cnt_h as u32 == with_bit(old(self).cnt_h as u32, 15, false),
            final(self).cnt_l == old(self).cnt_l,
    {
        let r = is_set16(self.cnt_h, 15);
        self.cnt_h = update16(self.cnt_h, 15, false);
        r
    }
}

impl Bus for Soundcnt {
    /// Bytes 0-1 are `cnt_l`, bytes 2-3 `cnt_h`.
    open spec fn spec_read_byte(v: Soundcnt, address: u32) -> u8 {
        if address % 4 <= 1 {
            <u16 as Bus>::spec_read_byte(v.cnt_l, address)
        } else {
            <u16 as Bus>::spec_read_byte(v.cnt_h, address)
        }
    }

    open spec fn spec_write_byte(v: Soundcnt, address: u32, value: u8) -> Soundcnt {
        if address % 4 <= 1 {
            Soundcnt { cnt_l: <u16 as Bus>::spec_write_byte(v.cnt_l, address, value), ..v }
        } else {
            Soundcnt { cnt_h: <u16 as Bus>::spec_write_byte(v.cnt_h, address, value), ..v }
        }
    }

    fn read_byte(&self, address: u32) -> (r: u8) {
        if address % 4 <= 1 {
            self.cnt_l.read_byte(address)
        } else {
            self.cnt_h.read_byte(address)
        }
    }

    fn write_byte(&mut self, address: u32, value: u8) {
        if address % 4 <= 1 {
            self.cnt_l.write_byte(address, value);
        } else {
            self.cnt_h.write_byte(address, value);
        }
    }
}

} // verus!
