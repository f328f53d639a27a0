use vstd::prelude::*;
use vstd::string::*;

use crate::arm7tdmi::{Arm7tdmi, CpuView};
use crate::arm7tdmi::common::{AddrMode, Condition, Cycle, DataType, RegisterOffset};
use crate::arm7tdmi::isa::Executable;
use crate::arm7tdmi::ops::{spec_ldr, spec_str};
use crate::bus::memory::Bus;
use crate::utils::bits::{field, get_bits, get_bits_u8};
use crate::utils::text::{dec_text, write_dec};

verus! {

#[derive(Debug, Clone, Copy, PartialEq, Eq, Structural)]
pub enum Opcode11 {
    STR,
    LDR,
}

impl Opcode11 {
    /// The name of the variant, as instruction listings write it.
    pub open spec fn spec_name(self) -> Seq<char> {
        match self {
            Opcode11::STR => "STR"@,
            Opcode11::LDR => "LDR"@,
        }
    }

    /// The name of the variant (see `spec_name`).
    pub fn name(&self) -> (r: &'static str)
        ensures
            r@ == self.spec_name(),
    {
        match self {
            Opcode11::STR => "STR",
            Opcode11::LDR => "LDR",
        }
    }
}

impl Opcode11 {
    pub open spec fn spec_new(v: u32) -> Opcode11 {
        if v == 0 {
            Opcode11::STR
        } else {
            Opcode11::LDR
        }
    }

    /// The variant encoded by `v`.
    pub fn new(v: u32) -> (r: Opcode11)
        requires
            v < 2,
        ensures
            r == Opcode11::spec_new(v),
    {
        if v == 0 {
            Opcode11::STR
        } else {
            Opcode11::LDR
        }
    }
}
/// Load/store SP-relative
///
/// `1001 | Op(11) | Rd(10-8) | Word8(7-0)`; the offset is scaled by 4
#[derive(Debug, Clone, Copy, PartialEq, Eq, Structural)]
pub struct Format11 {
    pub op: Opcode11,
    pub nn: u16,
    pub rd: u8,
}

impl Format11 {
    pub open spec fn spec_from(v: u32) -> Format11 {
        Format11 {
            op: Opcode11::spec_new(field(v, 11, 0x1)),
            nn: (field(v, 0, 0xFF) * 4) as u16,
            rd: field(v, 8, 0x7) as u8,
        }
    }

    pub fn from(v: u32) -> (r: Format11)
        ensures
            r == Format11::spec_from(v),
            r.rd < 8,
    {
        let op = Opcode11::new(get_bits(v, 11, 0x1));
        let rd = get_bits_u8(v, 8, 0x7);
        let nn = (get_bits(v, 0, 0xFF) * 4) as u16;
        Format11 { op, nn, rd }
    }
}

impl Format11 {
    /// Register numbers are in range.
    pub open spec fn wf(self) -> bool {
        self.rd < 8
    }

    /// Whether executing the instruction in state `s` is defined.
    pub open spec fn exec_ok<B: Bus>(self, s: CpuView<B::V>) -> bool {
        true
    }

    /// Processor state and cycles after executing the instruction in state `s`.
    pub open spec fn spec_exec<B: Bus>(self, s: CpuView<B::V>) -> (Cycle, CpuView<B::V>) {
        let offset = RegisterOffset { amod: AddrMode::IB, wb: false, value: self.nn as u32 };
        match self.op {
            Opcode11::STR => spec_str::<B>(s, self.rd, 13, DataType::Word, offset),
            Opcode11::LDR => spec_ldr::<B>(s, self.rd, 13, DataType::Word, false, offset),
        }
    }
}

impl<B: Bus> Arm7tdmi<B> {
    /// Executes a THUMB instruction of class "load/store sp-relative".
    pub fn exec_thumb_format11(&mut self, instr: Format11) -> (r: Cycle)
        requires
            old(self).wf(),
            instr.wf(),
        ensures
            (r, final(self)@) == instr.spec_exec::<B>(old(self)@),
            final(self).wf(),
    {
        let offset = RegisterOffset::new(instr.nn as u32, AddrMode::IB, false);
        match instr.op {
            Opcode11::STR => self.str(instr.rd, 13, offset),
            Opcode11::LDR => self.ldr(instr.rd, 13, offset),
        }
    }
}

impl<B: Bus> Executable<B> for Format11 {
    open spec fn ready(self) -> bool {
        self.wf()
    }

    open spec fn dispatch_ok(self, s: CpuView<B::V>) -> bool {
        self.exec_ok::<B>(s)
    }

    open spec fn spec_dispatch(self, s: CpuView<B::V>) -> (Cycle, CpuView<B::V>) {
        self.spec_exec::<B>(s)
    }

    open spec fn spec_condition(self) -> Condition {
        Condition::AL
    }

    fn condition(&self) -> (r: Condition) {
        Condition::AL
    }

    fn dispatch(self, cpu: &mut Arm7tdmi<B>) -> (r: Cycle) {
        cpu.exec_thumb_format11(self)
    }
}

impl Format11 {
    /// The instruction as the listing writes it.
    pub open spec fn spec_text(self) -> Seq<char> {
        self.op.spec_name() + " RR"@ + dec_text(self.rd as nat) + ", [SP, #"@ + dec_text(self.nn as nat) + "]"@
    }

    /// The instruction as text (see `spec_text`).
    pub fn text(&self) -> (r: String)
        ensures
            r@ == self.spec_text(),
    {
        let mut r = String::from_str(self.op.name());
        r.append(" RR");
        write_dec(&mut r, self.rd as u32);
        r.append(", [SP, #");
        write_dec(&mut r, self.nn as u32);
        r.append("]");
        r
    }
}

} // verus!
