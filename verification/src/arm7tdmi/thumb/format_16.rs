use vstd::prelude::*;
use vstd::string::*;

use crate::arm7tdmi::{Arm7tdmi, CpuView};
use crate::arm7tdmi::common::{Condition, Cycle};
use crate::arm7tdmi::isa::Executable;
use crate::bus::memory::Bus;
use crate::utils::bits::{field, get_bits};
use crate::utils::text::{signed_text, write_signed};

verus! {

#[derive(Debug, Clone, Copy, PartialEq, Eq, Structural)]
pub enum Opcode16 {
    BEQ,
    BNE,
    BCS,
    BCC,
    BMI,
    BPL,
    BVS,
    BVC,
    BHI,
    BLS,
    BGE,
    BLT,
    BGT,
    BLE,
}

impl Opcode16 {
    /// The name of the variant, as instruction listings write it.
    pub open spec fn spec_name(self) -> Seq<char> {
        match self {
            Opcode16::BEQ => "BEQ"@,
            Opcode16::BNE => "BNE"@,
            Opcode16::BCS => "BCS"@,
            Opcode16::BCC => "BCC"@,
            Opcode16::BMI => "BMI"@,
            Opcode16::BPL => "BPL"@,
            Opcode16::BVS => "BVS"@,
            Opcode16::BVC => "BVC"@,
            Opcode16::BHI => "BHI"@,
            Opcode16::BLS => "BLS"@,
            Opcode16::BGE => "BGE"@,
            Opcode16::BLT => "BLT"@,
            Opcode16::BGT => "BGT"@,
            Opcode16::BLE => "BLE"@,
        }
    }

    /// The name of the variant (see `spec_name`).
    pub fn name(&self) -> (r: &'static str)
        ensures
            r@ == self.spec_name(),
    {
        match self {
            Opcode16::BEQ => "BEQ",
            Opcode16::BNE => "BNE",
            Opcode16::BCS => "BCS",
            Opcode16::BCC => "BCC",
            Opcode16::BMI => "BMI",
            Opcode16::BPL => "BPL",
            Opcode16::BVS => "BVS",
            Opcode16::BVC => "BVC",
            Opcode16::BHI => "BHI",
            Opcode16::BLS => "BLS",
            Opcode16::BGE => "BGE",
            Opcode16::BLT => "BLT",
            Opcode16::BGT => "BGT",
            Opcode16::BLE => "BLE",
        }
    }
}

impl Opcode16 {
    pub open spec fn spec_new(v: u32) -> Opcode16 {
        if v == 0 {
            Opcode16::BEQ
        } else if v == 1 {
            Opcode16::BNE
        } else if v == 2 {
            Opcode16::BCS
        } else if v == 3 {
            Opcode16::BCC
        } else if v == 4 {
            Opcode16::BMI
        } else if v == 5 {
            Opcode16::BPL
        } else if v == 6 {
            Opcode16::BVS
        } else if v == 7 {
            Opcode16::BVC
        } else if v == 8 {
            Opcode16::BHI
        } else if v == 9 {
            Opcode16::BLS
        } else if v == 10 {
            Opcode16::BGE
        } else if v == 11 {
            Opcode16::BLT
        } else if v == 12 {
            Opcode16::BGT
        } else {
            Opcode16::BLE
        }
    }

    /// The variant encoded by `v`.
    pub fn new(v: u32) -> (r: Opcode16)
        requires
            v < 14,
        ensures
            r == Opcode16::spec_new(v),
    {
        if v == 0 {
            Opcode16::BEQ
        } else if v == 1 {
            Opcode16::BNE
        } else if v == 2 {
            Opcode16::BCS
        } else if v == 3 {
            Opcode16::BCC
        } else if v == 4 {
            Opcode16::BMI
        } else if v == 5 {
            Opcode16::BPL
        } else if v == 6 {
            Opcode16::BVS
        } else if v == 7 {
            Opcode16::BVC
        } else if v == 8 {
            Opcode16::BHI
        } else if v == 9 {
            Opcode16::BLS
        } else if v == 10 {
            Opcode16::BGE
        } else if v == 11 {
            Opcode16::BLT
        } else if v == 12 {
            Opcode16::BGT
        } else {
            Opcode16::BLE
        }
    }
}
/// Conditional branch
///
/// `1101 | Cond(11-8) | SOffset8(7-0)`; the offset is scaled by 2
#[derive(Debug, Clone, Copy, PartialEq, Eq, Structural)]
pub struct Format16 {
    pub op: Opcode16,
    pub of: i16,
}

impl Format16 {
    pub open spec fn spec_from(v: u32) -> Format16 {
        Format16 { op: Opcode16::spec_new(field(v, 8, 0xF)), of: (field(v, 0, 0xFF) * 2) as i16 }
    }

    pub open spec fn decodable(v: u32) -> bool {
        field(v, 8, 0xF) < 14
    }

    pub fn from(v: u32) -> (r: Format16)
        requires
            Format16::decodable(v),
        ensures
            r == Format16::spec_from(v),
    {
        let op = Opcode16::new(get_bits(v, 8, 0xF));
        let of = (get_bits(v, 0, 0xFF) * 2) as i16;
        Format16 { op, of }
    }
}

impl Format16 {
    /// Register numbers are in range.
    pub open spec fn wf(self) -> bool {
        true
    }

    /// Whether executing the instruction in state `s` is defined.
    pub open spec fn exec_ok<B: Bus>(self, s: CpuView<B::V>) -> bool {
        true
    }

    /// Processor state and cycles after executing the instruction in state `s`.
    pub open spec fn spec_exec<B: Bus>(self, s: CpuView<B::V>) -> (Cycle, CpuView<B::V>) {
        s.spec_branch(Opcode16::condition(self.op), self.of as i32)
    }
}

impl Opcode16 {
    pub open spec fn condition(op: Opcode16) -> Condition {
        match op {
            Opcode16::BEQ => Condition::EQ,
            Opcode16::BNE => Condition::NE,
            Opcode16::BCS => Condition::CS,
            Opcode16::BCC => Condition::CC,
            Opcode16::BMI => Condition::MI,
            Opcode16::BPL => Condition::PL,
            Opcode16::BVS => Condition::VS,
            Opcode16::BVC => Condition::VC,
            Opcode16::BHI => Condition::HI,
            Opcode16::BLS => Condition::LS,
            Opcode16::BGE => Condition::GE,
            Opcode16::BLT => Condition::LT,
            Opcode16::BGT => Condition::GT,
            Opcode16::BLE => Condition::LE,
        }
    }
}

impl<B: Bus> Arm7tdmi<B> {
    /// Executes a THUMB instruction of class "conditional branch".
    pub fn exec_thumb_format16(&mut self, instr: Format16) -> (r: Cycle)
        requires
            old(self).wf(),
            instr.wf(),
        ensures
            (r, final(self)@) == instr.spec_exec::<B>(old(self)@),
            final(self).wf(),
    {
        match instr.op {
            Opcode16::BEQ => self.beq(instr.of),
            Opcode16::BNE => self.bne(instr.of),
            Opcode16::BCS => self.bcs(instr.of),
            Opcode16::BCC => self.bcc(instr.of),
            Opcode16::BMI => self.bmi(instr.of),
            Opcode16::BPL => self.bpl(instr.of),
            Opcode16::BVS => self.bvs(instr.of),
            Opcode16::BVC => self.bvc(instr.of),
            Opcode16::BHI => self.bhi(instr.of),
            Opcode16::BLS => self.bls(instr.of),
            Opcode16::BGE => self.bge(instr.of),
            Opcode16::BLT => self.blt(instr.of),
            Opcode16::BGT => self.bgt(instr.of),
            Opcode16::BLE => self.ble(instr.of),
        }
    }
}

impl<B: Bus> Executable<B> for Format16 {
    open spec fn ready(self) -> bool {
        self.wf()
    }

    open spec fn dispatch_ok(self, s: CpuView<B::V>) -> bool {
        self.exec_ok::<B>(s)
    }

    open spec fn spec_dispatch(self, s: CpuView<B::V>) -> (Cycle, CpuView<B::V>) {
        self.spec_exec::<B>(s)
    }

    open spec fn spec_condition(self) -> Condition {
        Condition::AL
    }

    fn condition(&self) -> (r: Condition) {
        Condition::AL
    }

    fn dispatch(self, cpu: &mut Arm7tdmi<B>) -> (r: Cycle) {
        cpu.exec_thumb_format16(self)
    }
}

impl Format16 {
    /// The instruction as the listing writes it.
    pub open spec fn spec_text(self) -> Seq<char> {
        self.op.spec_name() + " "@ + signed_text(self.of as int)
    }

    /// The instruction as text (see `spec_text`).
    pub fn text(&self) -> (r: String)
        ensures
            r@ == self.spec_text(),
    {
        let mut r = String::from_str(self.op.name());
        r.append(" ");
        write_signed(&mut r, self.of as i32);
        r
    }
}

} // verus!
