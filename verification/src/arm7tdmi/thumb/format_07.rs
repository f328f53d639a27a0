use vstd::prelude::*;
use vstd::string::*;

use crate::arm7tdmi::{Arm7tdmi, CpuView};
use crate::arm7tdmi::common::{AddrMode, Condition, Cycle, DataType, RegisterOffset};
use crate::arm7tdmi::isa::Executable;
use crate::arm7tdmi::ops::{spec_ldr, spec_str};
use crate::bus::memory::Bus;
use crate::utils::bits::{field, get_bits, get_bits_u8};
use crate::utils::text::{dec_text, write_dec};

verus! {

#[derive(Debug, Clone, Copy, PartialEq, Eq, Structural)]
pub enum Opcode7 {
    STR,
    STRB,
    LDR,
    LDRB,
}

impl Opcode7 {
    /// The name of the variant, as instruction listings write it.
    pub open spec fn spec_name(self) -> Seq<char> {
        match self {
            Opcode7::STR => "STR"@,
            Opcode7::STRB => "STRB"@,
            Opcode7::LDR => "LDR"@,
            Opcode7::LDRB => "LDRB"@,
        }
    }

    /// The name of the variant (see `spec_name`).
    pub fn name(&self) -> (r: &'static str)
        ensures
            r@ == self.spec_name(),
    {
        match self {
            Opcode7::STR => "STR",
            Opcode7::STRB => "STRB",
            Opcode7::LDR => "LDR",
            Opcode7::LDRB => "LDRB",
        }
    }
}

impl Opcode7 {
    pub open spec fn spec_new(v: u32) -> Opcode7 {
        if v == 0 {
            Opcode7::STR
        } else if v == 1 {
            Opcode7::STRB
        } else if v == 2 {
            Opcode7::LDR
        } else {
            Opcode7::LDRB
        }
    }

    /// The variant encoded by `v`.
    pub fn new(v: u32) -> (r: Opcode7)
        requires
            v < 4,
        ensures
            r == Opcode7::spec_new(v),
    {
        if v == 0 {
            Opcode7::STR
        } else if v == 1 {
            Opcode7::STRB
        } else if v == 2 {
            Opcode7::LDR
        } else {
            Opcode7::LDRB
        }
    }
}
/// Load/store with register offset
///
/// `0101 | Op(11-10) | 0 | Ro(8-6) | Rb(5-3) | Rd(2-0)`
#[derive(Debug, Clone, Copy, PartialEq, Eq, Structural)]
pub struct Format7 {
    pub op: Opcode7,
    pub ro: u8,
    pub rb: u8,
    pub rd: u8,
}

impl Format7 {
    pub open spec fn spec_from(v: u32) -> Format7 {
        Format7 {
            op: Opcode7::spec_new(field(v, 10, 0x3)),
            ro: field(v, 6, 0x7) as u8,
            rb: field(v, 3, 0x7) as u8,
            rd: field(v, 0, 0x7) as u8,
        }
    }

    pub fn from(v: u32) -> (r: Format7)
        ensures
            r == Format7::spec_from(v),
            r.ro < 8 && r.rb < 8 && r.rd < 8,
    {
        let op = Opcode7::new(get_bits(v, 10, 0x3));
        let ro = get_bits_u8(v, 6, 0x7);
        let rb = get_bits_u8(v, 3, 0x7);
        let rd = get_bits_u8(v, 0, 0x7);
        Format7 { op, ro, rb, rd }
    }
}

impl Format7 {
    /// Register numbers are in range.
    pub open spec fn wf(self) -> bool {
        self.ro < 8 && self.rb < 8 && self.rd < 8
    }

    /// Whether executing the instruction in state `s` is defined.
    pub open spec fn exec_ok<B: Bus>(self, s: CpuView<B::V>) -> bool {
        true
    }

    /// Processor state and cycles after executing the instruction in state `s`.
    pub open spec fn spec_exec<B: Bus>(self, s: CpuView<B::V>) -> (Cycle, CpuView<B::V>) {
        let offset = RegisterOffset { amod: AddrMode::IB, wb: false, value: s.get_reg(self.ro as int) };
        match self.op {
            Opcode7::STR => spec_str::<B>(s, self.rd, self.rb, DataType::Word, offset),
            Opcode7::STRB => spec_str::<B>(s, self.rd, self.rb, DataType::Byte, offset),
            Opcode7::LDR => spec_ldr::<B>(s, self.rd, self.rb, DataType::Word, false, offset),
            Opcode7::LDRB => spec_ldr::<B>(s, self.rd, self.rb, DataType::Byte, false, offset),
        }
    }
}

impl<B: Bus> Arm7tdmi<B> {
    /// Executes a THUMB instruction of class "load/store with register offset".
    pub fn exec_thumb_format7(&mut self, instr: Format7) -> (r: Cycle)
        requires
            old(self).wf(),
            instr.wf(),
        ensures
            (r, final(self)@) == instr.spec_exec::<B>(old(self)@),
            final(self).wf(),
    {
        let value = self.get_reg(instr.ro as usize);
        let offset = RegisterOffset::new(value, AddrMode::IB, false);
        match instr.op {
            Opcode7::STR => self.str(instr.rd, instr.rb, offset),
            Opcode7::STRB => self.strb(instr.rd, instr.rb, offset),
            Opcode7::LDR => self.ldr(instr.rd, instr.rb, offset),
            Opcode7::LDRB => self.ldrb(instr.rd, instr.rb, offset),
        }
    }
}

impl<B: Bus> Executable<B> for Format7 {
    open spec fn ready(self) -> bool {
        self.wf()
    }

    open spec fn dispatch_ok(self, s: CpuView<B::V>) -> bool {
        self.exec_ok::<B>(s)
    }

    open spec fn spec_dispatch(self, s: CpuView<B::V>) -> (Cycle, CpuView<B::V>) {
        self.spec_exec::<B>(s)
    }

    open spec fn spec_condition(self) -> Condition {
        Condition::AL
    }

    fn condition(&self) -> (r: Condition) {
        Condition::AL
    }

    fn dispatch(self, cpu: &mut Arm7tdmi<B>) -> (r: Cycle) {
        cpu.exec_thumb_format7(self)
    }
}

impl Format7 {
    /// The instruction as the listing writes it.
    pub open spec fn spec_text(self) -> Seq<char> {
        self.op.spec_name() + " R"@ + dec_text(self.rd as nat) + ", [R"@ + dec_text(self.rb as nat) + ", R"@ + dec_text(self.ro as nat) + "]"@
    }

    /// The instruction as text (see `spec_text`).
    pub fn text(&self) -> (r: String)
        ensures
            r@ == self.spec_text(),
    {
        let mut r = String::from_str(self.op.name());
        r.append(" R");
        write_dec(&mut r, self.rd as u32);
        r.append(", [R");
        write_dec(&mut r, self.rb as u32);
        r.append(", R");
        write_dec(&mut r, self.ro as u32);
        r.append("]");
        r
    }
}

} // verus!
