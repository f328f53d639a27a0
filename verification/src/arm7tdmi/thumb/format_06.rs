use vstd::prelude::*;
use vstd::string::*;

use crate::arm7tdmi::{Arm7tdmi, CpuView};
use crate::arm7tdmi::common::{AddrMode, Condition, Cycle, DataType, RegisterOffset};
use crate::arm7tdmi::isa::Executable;
use crate::arm7tdmi::ops::spec_ldr;
use crate::bus::memory::Bus;
use crate::utils::bits::{field, get_bits, get_bits_u8};
use crate::utils::text::{dec_text, write_dec};

verus! {

/// Load PC-relative
///
/// `01001 | Rd(10-8) | Word8(7-0)`
#[derive(Debug, Clone, Copy, PartialEq, Eq, Structural)]
pub struct Instruction {
    pub rd: u8,
    /// Word-aligned offset, 0-1020.
    pub nn: u16,
}

impl Instruction {
    pub open spec fn spec_from(v: u32) -> Instruction {
        Instruction { rd: field(v, 8, 0x7) as u8, nn: (field(v, 0, 0xFF) * 4) as u16 }
    }

    pub fn from(v: u32) -> (r: Instruction)
        ensures
            r == Instruction::spec_from(v),
            r.rd < 8,
    {
        let rd = get_bits_u8(v, 8, 0x7);
        let nn = (get_bits(v, 0, 0xFF) * 4) as u16;
        Instruction { rd, nn }
    }
}

impl Instruction {
    /// Register numbers are in range.
    pub open spec fn wf(self) -> bool {
        self.rd < 8
    }

    /// Whether executing the instruction in state `s` is defined.
    pub open spec fn exec_ok<B: Bus>(self, s: CpuView<B::V>) -> bool {
        true
    }

    /// Processor state and cycles after executing the instruction in state `s`.
    pub open spec fn spec_exec<B: Bus>(self, s: CpuView<B::V>) -> (Cycle, CpuView<B::V>) {
        spec_ldr::<B>(s, self.rd, 15, DataType::Word, false, RegisterOffset { amod: AddrMode::IB, wb: false, value: self.nn as u32 })
    }
}

impl<B: Bus> Arm7tdmi<B> {
    /// Executes a THUMB instruction of class "load pc-relative".
    pub fn exec_thumb_format6(&mut self, instr: Instruction) -> (r: Cycle)
        requires
            old(self).wf(),
            instr.wf(),
        ensures
            (r, final(self)@) == instr.spec_exec::<B>(old(self)@),
            final(self).wf(),
    {
        let offset = RegisterOffset::new(instr.nn as u32, AddrMode::IB, false);
        self.ldr(instr.rd, 15, offset)
    }
}

impl<B: Bus> Executable<B> for Instruction {
    open spec fn ready(self) -> bool {
        self.wf()
    }

    open spec fn dispatch_ok(self, s: CpuView<B::V>) -> bool {
        self.exec_ok::<B>(s)
    }

    open spec fn spec_dispatch(self, s: CpuView<B::V>) -> (Cycle, CpuView<B::V>) {
        self.spec_exec::<B>(s)
    }

    open spec fn spec_condition(self) -> Condition {
        Condition::AL
    }

    fn condition(&self) -> (r: Condition) {
        Condition::AL
    }

    fn dispatch(self, cpu: &mut Arm7tdmi<B>) -> (r: Cycle) {
        cpu.exec_thumb_format6(self)
    }
}

impl Instruction {
    /// The instruction as the listing writes it.
    pub open spec fn spec_text(self) -> Seq<char> {
        "LDR, R"@ + dec_text(self.rd as nat) + ", [PC, #"@ + dec_text(self.nn as nat) + "]"@
    }

    /// The instruction as text (see `spec_text`).
    pub fn text(&self) -> (r: String)
        ensures
            r@ == self.spec_text(),
    {
        let mut r = String::from_str("LDR, R");
        write_dec(&mut r, self.rd as u32);
        r.append(", [PC, #");
        write_dec(&mut r, self.nn as u32);
        r.append("]");
        r
    }
}

} // verus!
