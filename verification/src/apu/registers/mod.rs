pub mod bias;
pub mod fifo;
pub mod soundcnt;

use vstd::prelude::*;

use crate::apu::registers::bias::Bias;
use crate::apu::registers::fifo::Fifo;
use crate::apu::registers::soundcnt::Soundcnt;
use crate::bus::memory::Bus;
use crate::utils::bits::with_bit;
use crate::utils::collections::FifoBuffer;

verus! {

/// The DMA sound registers.
#[derive(Debug, Clone, Copy, PartialEq, Eq, Structural)]
pub struct ApuRegister {
    /// 0x080: sound control
    pub soundcnt: Soundcnt,
    /// 0x088: sound bias
    pub bias: Bias,
    /// 0x0A0: sound FIFO A
    pub fifo_a: Fifo,
    /// 0x0A4: sound FIFO B
    pub fifo_b: Fifo,
}

impl View for ApuRegister {
    type V = ApuRegister;

    open spec fn view(&self) -> ApuRegister {
        *self
    }
}

impl ApuRegister {
    pub open spec fn spec_default() -> ApuRegister {
        ApuRegister {
            soundcnt: Soundcnt { cnt_l: 0, cnt_h: 0 },
            bias: Bias { value: 0x200 },
            fifo_a: Fifo { buffer: FifoBuffer { data: 0, len: 0 } },
            fifo_b: Fifo { buffer: FifoBuffer { data: 0, len: 0 } },
        }
    }

    /// A write to the sound control registers: a set reset bit (11 for
    /// FIFO A, 15 for FIFO B) empties its FIFO and clears itself.
    pub open spec fn spec_write_soundcnt(self, address: u32, value: u8) -> ApuRegister {
        let s = <Soundcnt as Bus>::spec_write_byte(self.soundcnt, address, value);
        let ra = crate::utils::bits::bit(s.cnt_h as u32, 11);
        let rb = crate::utils::bits::bit(s.cnt_h as u32, 15);
        let h = with_bit(with_bit(s.cnt_h as u32, 11, false), 15, false);
        ApuRegister {
            soundcnt: Soundcnt { cnt_h: h as u16, ..s },
            fifo_a: if ra {
                Fifo { buffer: FifoBuffer { data: 0, len: 0 } }
            } else {
                self.fifo_a
            },
            fifo_b: if rb {
                Fifo { buffer: FifoBuffer { data: 0, len: 0 } }
            } else {
                self.fifo_b
            },
            ..self
        }
    }

    /// Writes a byte of the sound control registers (see `spec_write_soundcnt`).
    pub fn write_soundcnt(&mut self, address: u32, value: u8)
        ensures
            *final(self) == old(self).spec_write_soundcnt(address, value),
    {
        self.soundcnt.write_byte(address, value);
        let ghost h0 = self.soundcnt.cnt_h;
        if self.soundcnt.reset_fifo_a() {
            self.fifo_a.buffer.clear();
        }
        let ghost h1 = self.soundcnt.cnt_h;
        if self.soundcnt.reset_fifo_b() {
            self.fifo_b.buffer.clear();
        }
        proof {
            crate::utils::bits::lemma_with_bit(h0 as u32, 11, false, 15);
            crate::utils::bits::lemma_update16_fits(h1, 15, false);
        }
    }
}

impl Default for ApuRegister {
    fn default() -> (r: ApuRegister)
        ensures
            r == ApuRegister::spec_default(),
    {
        ApuRegister {
            soundcnt: Soundcnt { cnt_l: 0, cnt_h: 0 },
            bias: Bias { value: 0x200 },
            fifo_a: Fifo { buffer: FifoBuffer::new() },
            fifo_b: Fifo { buffer: FifoBuffer::new() },
        }
    }
}

impl Bus for ApuRegister {
    /// Only the bias register reads back.
    open spec fn spec_read_byte(v: ApuRegister, address: u32) -> u8 {
        let o = address % 0x0400_0000;
        if 0x088 <= o <= 0x089 {
            <u16 as Bus>::spec_read_byte(v.bias.value, address)
        } else {
            0
        }
    }

    /// Writes to sound control, bias and the two FIFOs; others are ignored.
    open spec fn spec_write_byte(v: ApuRegister, address: u32, value: u8) -> ApuRegister {
        let o = address % 0x0400_0000;
        if 0x080 <= o <= 0x083 {
            v.spec_write_soundcnt(address, value)
        } else if 0x088 <= o <= 0x089 {
            ApuRegister { bias: Bias { value: <u16 as Bus>::spec_write_byte(v.bias.value, address, value) }, ..v }
        } else if 0x0A0 <= o <= 0x0A3 {
            ApuRegister { fifo_a: <Fifo as Bus>::spec_write_byte(v.fifo_a, address, value), ..v }
        } else if 0x0A4 <= o <= 0x0A7 {
            ApuRegister { fifo_b: <Fifo as Bus>::spec_write_byte(v.fifo_b, address, value), ..v }
        } else {
            v
        }
    }

    fn read_byte(&self, address: u32) -> (r: u8) {
        let o = address % 0x0400_0000;
        if 0x088 <= o && o <= 0x089 {
            self.bias.value.read_byte(address)
        } else {
            0
        }
    }

    fn write_byte(&mut self, address: u32, value: u8) {
        let o = address % 0x0400_0000;
        if 0x080 <= o && o <= 0x083 {
            self.write_soundcnt(address, value);
        } else if 0x088 <= o && o <= 0x089 {
            self.bias.value.write_byte(address, value);
        } else if 0x0A0 <= o && o <= 0x0A3 {
            self.fifo_a.write_byte(address, value);
        } else if 0x0A4 <= o && o <= 0x0A7 {
            self.fifo_b.write_byte(address, value);
        }
    }
}

} // verus!
