use vstd::prelude::*;
use vstd::string::*;

use crate::arm7tdmi::{Arm7tdmi, CpuView};
use crate::arm7tdmi::common::{AddrMode, Condition, Cycle, DataType, RegisterOffset};
use crate::arm7tdmi::isa::Executable;
use crate::arm7tdmi::ops::{spec_ldr, spec_str};
use crate::bus::memory::Bus;
use crate::utils::bits::{field, get_bits, get_bits_u8};
use crate::utils::text::{dec_text, write_dec};

verus! {

#[derive(Debug, Clone, Copy, PartialEq, Eq, Structural)]
pub enum Opcode10 {
    STRH,
    LDRH,
}

impl Opcode10 {
    /// The name of the variant, as instruction listings write it.
    pub open spec fn spec_name(self) -> Seq<char> {
        match self {
            Opcode10::STRH => "STRH"@,
            Opcode10::LDRH => "LDRH"@,
        }
    }

    /// The name of the variant (see `spec_name`).
    pub fn name(&self) -> (r: &'static str)
        ensures
            r@ == self.spec_name(),
    {
        match self {
            Opcode10::STRH => "STRH",
            Opcode10::LDRH => "LDRH",
        }
    }
}

impl Opcode10 {
    pub open spec fn spec_new(v: u32) -> Opcode10 {
        if v == 0 {
            Opcode10::STRH
        } else {
            Opcode10::LDRH
        }
    }

    /// The variant encoded by `v`.
    pub fn new(v: u32) -> (r: Opcode10)
        requires
            v < 2,
        ensures
            r == Opcode10::spec_new(v),
    {
        if v == 0 {
            Opcode10::STRH
        } else {
            Opcode10::LDRH
        }
    }
}
/// Load/store halfword
///
/// `1000 | Op(11) | Offset5(10-6) | Rb(5-3) | Rd(2-0)`; the offset is scaled by 2
#[derive(Debug, Clone, Copy, PartialEq, Eq, Structural)]
pub struct Instruction {
    pub op: Opcode10,
    pub nn: u16,
    pub rb: u8,
    pub rd: u8,
}

impl Instruction {
    pub open spec fn spec_from(v: u32) -> Instruction {
        Instruction {
            op: Opcode10::spec_new(field(v, 11, 0x1)),
            nn: (field(v, 6, 0x1F) * 2) as u16,
            rb: field(v, 3, 0x7) as u8,
            rd: field(v, 0, 0x7) as u8,
        }
    }

    pub fn from(v: u32) -> (r: Instruction)
        ensures
            r == Instruction::spec_from(v),
            r.rb < 8 && r.rd < 8,
    {
        let op = Opcode10::new(get_bits(v, 11, 0x1));
        let nn = (get_bits(v, 6, 0x1F) * 2) as u16;
        let rb = get_bits_u8(v, 3, 0x7);
        let rd = get_bits_u8(v, 0, 0x7);
        Instruction { op, nn, rb, rd }
    }
}

impl Instruction {
    /// Register numbers are in range.
    pub open spec fn wf(self) -> bool {
        self.rb < 8 && self.rd < 8
    }

    /// Whether executing the instruction in state `s` is defined.
    pub open spec fn exec_ok<B: Bus>(self, s: CpuView<B::V>) -> bool {
        true
    }

    /// Processor state and cycles after executing the instruction in state `s`.
    pub open spec fn spec_exec<B: Bus>(self, s: CpuView<B::V>) -> (Cycle, CpuView<B::V>) {
        let offset = RegisterOffset { amod: AddrMode::IB, wb: false, value: self.nn as u32 };
        match self.op {
            Opcode10::STRH => spec_str::<B>(s, self.rd, self.rb, DataType::HWord, offset),
            Opcode10::LDRH => spec_ldr::<B>(s, self.rd, self.rb, DataType::HWord, false, offset),
        }
    }
}

impl<B: Bus> Arm7tdmi<B> {
    /// Executes a THUMB instruction of class "load/store half-word".
    pub fn exec_thumb_format10(&mut self, instr: Instruction) -> (r: Cycle)
        requires
            old(self).wf(),
            instr.wf(),
        ensures
            (r, final(self)@) == instr.spec_exec::<B>(old(self)@),
            final(self).wf(),
    {
        let offset = RegisterOffset::new(instr.nn as u32, AddrMode::IB, false);
        match instr.op {
            Opcode10::STRH => self.strh(instr.rd, instr.rb, offset),
            Opcode10::LDRH => self.ldrh(instr.rd, instr.rb, offset),
        }
    }
}

impl<B: Bus> Executable<B> for Instruction {
    open spec fn ready(self) -> bool {
        self.wf()
    }

    open spec fn dispatch_ok(self, s: CpuView<B::V>) -> bool {
        self.exec_ok::<B>(s)
    }

    open spec fn spec_dispatch(self, s: CpuView<B::V>) -> (Cycle, CpuView<B::V>) {
        self.spec_exec::<B>(s)
    }

    open spec fn spec_condition(self) -> Condition {
        Condition::AL
    }

    fn condition(&self) -> (r: Condition) {
        Condition::AL
    }

    fn dispatch(self, cpu: &mut Arm7tdmi<B>) -> (r: Cycle) {
        cpu.exec_thumb_format10(self)
    }
}

impl Instruction {
    /// The instruction as the listing writes it.
    pub open spec fn spec_text(self) -> Seq<char> {
        self.op.spec_name() + " R"@ + dec_text(self.rd as nat) + ", [R"@ + dec_text(self.rb as nat) + ", #"@ + dec_text(self.nn as nat) + "]"@
    }

    /// The instruction as text (see `spec_text`).
    pub fn text(&self) -> (r: String)
        ensures
            r@ == self.spec_text(),
    {
        let mut r = String::from_str(self.op.name());
        r.append(" R");
        write_dec(&mut r, self.rd as u32);
        r.append(", [R");
        write_dec(&mut r, self.rb as u32);
        r.append(", #");
        write_dec(&mut r, self.nn as u32);
        r.append("]");
        r
    }
}

} // verus!
