use vstd::prelude::*;
use vstd::string::*;

use crate::arm7tdmi::{Arm7tdmi, CpuView};
use crate::arm7tdmi::common::{AddrMode, Condition, Cycle, DataType, RegisterOffset};
use crate::arm7tdmi::isa::Executable;
use crate::arm7tdmi::ops::{spec_ldr, spec_str};
use crate::bus::memory::Bus;
use crate::utils::bits::{field, get_bits, get_bits_u8};
use crate::utils::text::{dec_text, write_dec};

verus! {

#[derive(Debug, Clone, Copy, PartialEq, Eq, Structural)]
pub enum Opcode9 {
    STR,
    LDR,
    STRB,
    LDRB,
}

impl Opcode9 {
    /// The name of the variant, as instruction listings write it.
    pub open spec fn spec_name(self) -> Seq<char> {
        match self {
            Opcode9::STR => "STR"@,
            Opcode9::LDR => "LDR"@,
            Opcode9::STRB => "STRB"@,
            Opcode9::LDRB => "LDRB"@,
        }
    }

    /// The name of the variant (see `spec_name`).
    pub fn name(&self) -> (r: &'static str)
        ensures
            r@ == self.spec_name(),
    {
        match self {
            Opcode9::STR => "STR",
            Opcode9::LDR => "LDR",
            Opcode9::STRB => "STRB",
            Opcode9::LDRB => "LDRB",
        }
    }
}

impl Opcode9 {
    pub open spec fn spec_new(v: u32) -> Opcode9 {
        if v == 0 {
            Opcode9::STR
        } else if v == 1 {
            Opcode9::LDR
        } else if v == 2 {
            Opcode9::STRB
        } else {
            Opcode9::LDRB
        }
    }

    /// The variant encoded by `v`.
    pub fn new(v: u32) -> (r: Opcode9)
        requires
            v < 4,
        ensures
            r == Opcode9::spec_new(v),
    {
        if v == 0 {
            Opcode9::STR
        } else if v == 1 {
            Opcode9::LDR
        } else if v == 2 {
            Opcode9::STRB
        } else {
            Opcode9::LDRB
        }
    }
}
/// Load/store with immediate offset
///
/// `011 | Op(12-11) | Offset5(10-6) | Rb(5-3) | Rd(2-0)`; word offsets are scaled by 4
#[derive(Debug, Clone, Copy, PartialEq, Eq, Structural)]
pub struct Format9 {
    pub op: Opcode9,
    pub nn: u16,
    pub rb: u8,
    pub rd: u8,
}

impl Format9 {
    pub open spec fn spec_from(v: u32) -> Format9 {
        let op = Opcode9::spec_new(field(v, 11, 0x3));
        let nn = field(v, 6, 0x1F);
        Format9 {
            op,
            nn: if op is STR || op is LDR { (nn * 4) as u16 } else { nn as u16 },
            rb: field(v, 3, 0x7) as u8,
            rd: field(v, 0, 0x7) as u8,
        }
    }

    pub fn from(v: u32) -> (r: Format9)
        ensures
            r == Format9::spec_from(v),
            r.rb < 8 && r.rd < 8,
    {
        let op = Opcode9::new(get_bits(v, 11, 0x3));
        let is_word = match op {
            Opcode9::STR | Opcode9::LDR => true,
            _ => false,
        };
        let nn = get_bits(v, 6, 0x1F);
        let nn = if is_word {
            (nn * 4) as u16
        } else {
            nn as u16
        };
        let rb = get_bits_u8(v, 3, 0x7);
        let rd = get_bits_u8(v, 0, 0x7);
        Format9 { op, nn, rb, rd }
    }
}

impl Format9 {
    /// Register numbers are in range.
    pub open spec fn wf(self) -> bool {
        self.rb < 8 && self.rd < 8
    }

    /// Whether executing the instruction in state `s` is defined.
    pub open spec fn exec_ok<B: Bus>(self, s: CpuView<B::V>) -> bool {
        true
    }

    /// Processor state and cycles after executing the instruction in state `s`.
    pub open spec fn spec_exec<B: Bus>(self, s: CpuView<B::V>) -> (Cycle, CpuView<B::V>) {
        let offset = RegisterOffset { amod: AddrMode::IB, wb: false, value: self.nn as u32 };
        match self.op {
            Opcode9::STR => spec_str::<B>(s, self.rd, self.rb, DataType::Word, offset),
            Opcode9::LDR => spec_ldr::<B>(s, self.rd, self.rb, DataType::Word, false, offset),
            Opcode9::STRB => spec_str::<B>(s, self.rd, self.rb, DataType::Byte, offset),
            Opcode9::LDRB => spec_ldr::<B>(s, self.rd, self.rb, DataType::Byte, false, offset),
        }
    }
}

impl<B: Bus> Arm7tdmi<B> {
    /// Executes a THUMB instruction of class "load/store with immediate offset".
    pub fn exec_thumb_format9(&mut self, instr: Format9) -> (r: Cycle)
        requires
            old(self).wf(),
            instr.wf(),
        ensures
            (r, final(self)@) == instr.spec_exec::<B>(old(self)@),
            final(self).wf(),
    {
        let offset = RegisterOffset::new(instr.nn as u32, AddrMode::IB, false);
        match instr.op {
            Opcode9::STR => self.str(instr.rd, instr.rb, offset),
            Opcode9::LDR => self.ldr(instr.rd, instr.rb, offset),
            Opcode9::STRB => self.strb(instr.rd, instr.rb, offset),
            Opcode9::LDRB => self.ldrb(instr.rd, instr.rb, offset),
        }
    }
}

impl<B: Bus> Executable<B> for Format9 {
    open spec fn ready(self) -> bool {
        self.wf()
    }

    open spec fn dispatch_ok(self, s: CpuView<B::V>) -> bool {
        self.exec_ok::<B>(s)
    }

    open spec fn spec_dispatch(self, s: CpuView<B::V>) -> (Cycle, CpuView<B::V>) {
        self.spec_exec::<B>(s)
    }

    open spec fn spec_condition(self) -> Condition {
        Condition::AL
    }

    fn condition(&self) -> (r: Condition) {
        Condition::AL
    }

    fn dispatch(self, cpu: &mut Arm7tdmi<B>) -> (r: Cycle) {
        cpu.exec_thumb_format9(self)
    }
}

impl Format9 {
    /// The instruction as the listing writes it.
    pub open spec fn spec_text(self) -> Seq<char> {
        self.op.spec_name() + " R"@ + dec_text(self.rd as nat) + ", [R"@ + dec_text(self.rb as nat) + ", #"@ + dec_text(self.nn as nat) + "]"@
    }

    /// The instruction as text (see `spec_text`).
    pub fn text(&self) -> (r: String)
        ensures
            r@ == self.spec_text(),
    {
        let mut r = String::from_str(self.op.name());
        r.append(" R");
        write_dec(&mut r, self.rd as u32);
        r.append(", [R");
        write_dec(&mut r, self.rb as u32);
        r.append(", #");
        write_dec(&mut r, self.nn as u32);
        r.append("]");
        r
    }
}

} // verus!
