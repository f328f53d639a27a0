use vstd::prelude::*;
use vstd::string::*;

use crate::arm7tdmi::{Arm7tdmi, CpuView};
use crate::arm7tdmi::common::{Condition, Cycle, LongOperand};
use crate::arm7tdmi::isa::Executable;
use crate::bus::memory::Bus;
use crate::utils::bits::{bit, field, get_bits, get_bits_u8, is_set};
use crate::utils::text::{dec_text, write_dec};

verus! {

#[derive(Debug, Clone, Copy, PartialEq, Eq, Structural)]
pub enum Opcode {
    UMULL,
    UMLAL,
    SMULL,
    SMLAL,
}

impl Opcode {
    /// The name of the variant, as instruction listings write it.
    pub open spec fn spec_name(self) -> Seq<char> {
        match self {
            Opcode::UMULL => "UMULL"@,
            Opcode::UMLAL => "UMLAL"@,
            Opcode::SMULL => "SMULL"@,
            Opcode::SMLAL => "SMLAL"@,
        }
    }

    /// The name of the variant (see `spec_name`).
    pub fn name(&self) -> (r: &'static str)
        ensures
            r@ == self.spec_name(),
    {
        match self {
            Opcode::UMULL => "UMULL",
            Opcode::UMLAL => "UMLAL",
            Opcode::SMULL => "SMULL",
            Opcode::SMLAL => "SMLAL",
        }
    }
}

impl Opcode {
    pub open spec fn spec_new(v: u32) -> Opcode {
        if v == 0 {
            Opcode::UMULL
        } else if v == 1 {
            Opcode::UMLAL
        } else if v == 2 {
            Opcode::SMULL
        } else {
            Opcode::SMLAL
        }
    }

    /// The variant encoded by `v`.
    pub fn new(v: u32) -> (r: Opcode)
        requires
            v < 4,
        ensures
            r == Opcode::spec_new(v),
    {
        if v == 0 {
            Opcode::UMULL
        } else if v == 1 {
            Opcode::UMLAL
        } else if v == 2 {
            Opcode::SMULL
        } else {
            Opcode::SMLAL
        }
    }
}
/// Multiply long and multiply-accumulate long
///
/// `Cond(31-28) | 00001 | U(22) | A(21) | S(20) | RdHi(19-16) | RdLo(15-12) | Rs(11-8) | 1001 | Rm(3-0)`
#[derive(Debug, Clone, Copy, PartialEq, Eq, Structural)]
pub struct Instruction {
    pub cd: Condition,
    pub op: Opcode,
    pub s: bool,
    pub hi: u8,
    pub lo: u8,
    pub rs: u8,
    pub rm: u8,
}

impl Instruction {
    pub open spec fn spec_from(v: u32) -> Instruction {
        Instruction {
            cd: Condition::spec_new(field(v, 28, 0xF) as u8),
            op: Opcode::spec_new(field(v, 21, 0x3)),
            s: bit(v, 20),
            hi: field(v, 16, 0xF) as u8,
            lo: field(v, 12, 0xF) as u8,
            rs: field(v, 8, 0xF) as u8,
            rm: field(v, 0, 0xF) as u8,
        }
    }

    pub fn from(v: u32) -> (r: Instruction)
        requires
            field(v, 28, 0xF) < 15,
        ensures
            r == Instruction::spec_from(v),
            r.hi < 16 && r.lo < 16 && r.rs < 16 && r.rm < 16,
    {
        Instruction {
            cd: Condition::new(get_bits_u8(v, 28, 0xF)),
            op: Opcode::new(get_bits(v, 21, 0x3)),
            s: is_set(v, 20),
            hi: get_bits_u8(v, 16, 0xF),
            lo: get_bits_u8(v, 12, 0xF),
            rs: get_bits_u8(v, 8, 0xF),
            rm: get_bits_u8(v, 0, 0xF),
        }
    }
}

impl Instruction {
    /// Register numbers and operands are in range.
    pub open spec fn wf(self) -> bool {
        self.hi < 16 && self.lo < 16 && self.rs < 16 && self.rm < 16
    }

    /// Whether executing the instruction in state `s` is defined.
    pub open spec fn exec_ok<B: Bus>(self, s: CpuView<B::V>) -> bool {
        true
    }

    /// Processor state and cycles after executing the instruction in state
    /// `s`; an instruction whose condition fails takes one sequential cycle.
    pub open spec fn spec_exec<B: Bus>(self, s: CpuView<B::V>) -> (Cycle, CpuView<B::V>) {
        if !s.cpsr.spec_matches(self.cd) {
            (Cycle { i: 0, s: 1, n: 0 }, s)
        } else {
            let rd = LongOperand { lo: self.lo, hi: Some(self.hi) };
            match self.op {
                Opcode::UMULL => s.spec_mul(rd, self.rm, self.rs, None, self.s, false),
                Opcode::UMLAL => s.spec_mul(rd, self.rm, self.rs, Some(rd), self.s, false),
                Opcode::SMULL => s.spec_mul(rd, self.rm, self.rs, None, self.s, true),
                Opcode::SMLAL => s.spec_mul(rd, self.rm, self.rs, Some(rd), self.s, true),
            }
        }
    }
}

impl<B: Bus> Arm7tdmi<B> {
    /// Executes an ARM instruction of class "multiply long".
    pub fn exec_arm_format05(&mut self, instr: Instruction) -> (r: Cycle)
        requires
            old(self).wf(),
            instr.wf(),
        ensures
            (r, final(self)@) == instr.spec_exec::<B>(old(self)@),
            final(self).wf(),
    {
        if !self.cpsr.matches(instr.cd) {
            return Cycle { i: 0, s: 1, n: 0 };
        }
        let rd = LongOperand::new(instr.lo, instr.hi);
        match instr.op {
            Opcode::UMULL => self.umull(rd, instr.rm, instr.rs, instr.s),
            Opcode::UMLAL => self.umula(rd, instr.rm, instr.rs, instr.s),
            Opcode::SMULL => self.smull(rd, instr.rm, instr.rs, instr.s),
            Opcode::SMLAL => self.smula(rd, instr.rm, instr.rs, instr.s),
        }
    }
}

impl<B: Bus> Executable<B> for Instruction {
    open spec fn ready(self) -> bool {
        self.wf()
    }

    open spec fn dispatch_ok(self, s: CpuView<B::V>) -> bool {
        self.exec_ok::<B>(s)
    }

    open spec fn spec_dispatch(self, s: CpuView<B::V>) -> (Cycle, CpuView<B::V>) {
        self.spec_exec::<B>(s)
    }

    open spec fn spec_condition(self) -> Condition {
        self.cd
    }

    fn condition(&self) -> (r: Condition) {
        self.cd
    }

    fn dispatch(self, cpu: &mut Arm7tdmi<B>) -> (r: Cycle) {
        cpu.exec_arm_format05(self)
    }
}

impl Instruction {
    /// The instruction as the listing writes it.
    pub open spec fn spec_text(self) -> Seq<char> {
        self.op.spec_name() + self.cd.spec_name() + " R"@ + dec_text(self.lo as nat) + ", R"@
            + dec_text(self.hi as nat) + ", R"@ + dec_text(self.rm as nat) + ", R"@
            + dec_text(self.rs as nat)
    }

    /// The instruction as text (see `spec_text`).
    pub fn text(&self) -> (r: String)
        ensures
            r@ == self.spec_text(),
    {
        let mut r = String::from_str(self.op.name());
        r.append(self.cd.name());
        r.append(" R");
        write_dec(&mut r, self.lo as u32);
        r.append(", R");
        write_dec(&mut r, self.hi as u32);
        r.append(", R");
        write_dec(&mut r, self.rm as u32);
        r.append(", R");
        write_dec(&mut r, self.rs as u32);
        r
    }
}

} // verus!
