use vstd::prelude::*;
use vstd::string::*;

use crate::arm7tdmi::{Arm7tdmi, CpuView, LR};
use crate::arm7tdmi::common::{Condition, Cycle};
use crate::arm7tdmi::isa::Executable;
use crate::bus::memory::Bus;
use crate::utils::bits::{bit, field, get_bits, get_bits_u8, is_set};
use crate::utils::text::{signed_text, write_signed};

verus! {

#[derive(Debug, Clone, Copy, PartialEq, Eq, Structural)]
pub enum Opcode {
    B,
    BL,
}

impl Opcode {
    /// The name of the variant, as instruction listings write it.
    pub open spec fn spec_name(self) -> Seq<char> {
        match self {
            Opcode::B => "B"@,
            Opcode::BL => "BL"@,
        }
    }

    /// The name of the variant (see `spec_name`).
    pub fn name(&self) -> (r: &'static str)
        ensures
            r@ == self.spec_name(),
    {
        match self {
            Opcode::B => "B",
            Opcode::BL => "BL",
        }
    }
}

impl Opcode {
    pub open spec fn spec_new(l: bool) -> Opcode {
        if !l {
            Opcode::B
        } else {
            Opcode::BL
        }
    }

    /// The variant encoded by `l`.
    pub fn new(l: bool) -> (r: Opcode)
        ensures
            r == Opcode::spec_new(l),
    {
        if !l {
            Opcode::B
        } else {
            Opcode::BL
        }
    }
}
/// Branch and branch with link
///
/// `Cond(31-28) | 101 | L(24) | Offset(23-0)`; the offset is sign-extended and scaled by 4
#[derive(Debug, Clone, Copy, PartialEq, Eq, Structural)]
pub struct Instruction {
    pub cd: Condition,
    pub op: Opcode,
    pub nn: i32,
}

impl Instruction {
    pub open spec fn spec_from(v: u32) -> Instruction {
        Instruction {
            cd: Condition::spec_new(field(v, 28, 0xF) as u8),
            op: Opcode::spec_new(bit(v, 24)),
            nn: ((field(v, 0, 0xFF_FFFF) << 9u32) as i32) >> 7u32,
        }
    }

    pub fn from(v: u32) -> (r: Instruction)
        requires
            field(v, 28, 0xF) < 15,
        ensures
            r == Instruction::spec_from(v),
    {
        let cd = Condition::new(get_bits_u8(v, 28, 0xF));
        let op = Opcode::new(is_set(v, 24));
        let nn = ((get_bits(v, 0, 0xFF_FFFF) << 9u32) as i32) >> 7u32;
        Instruction { cd, op, nn }
    }
}

impl Instruction {
    /// Register numbers and operands are in range.
    pub open spec fn wf(self) -> bool {
        true
    }

    /// Whether executing the instruction in state `s` is defined.
    pub open spec fn exec_ok<B: Bus>(self, s: CpuView<B::V>) -> bool {
        !s.cpsr.spec_matches(self.cd) || (self.op is BL ==> s.next_instr_addr() is Some)
    }

    /// Processor state and cycles after executing the instruction in state
    /// `s`; an instruction whose condition fails takes one sequential cycle.
    pub open spec fn spec_exec<B: Bus>(self, s: CpuView<B::V>) -> (Cycle, CpuView<B::V>) {
        if !s.cpsr.spec_matches(self.cd) {
            (Cycle { i: 0, s: 1, n: 0 }, s)
        } else {
            let s1 = match (self.op, s.next_instr_addr()) {
                (Opcode::BL, Some(pc)) => s.set_reg(14, pc),
                _ => s,
            };
            s1.spec_branch(Condition::AL, self.nn)
        }
    }
}

impl<B: Bus> Arm7tdmi<B> {
    /// Executes an ARM instruction of class "branch and branch with link".
    pub fn exec_arm_format09(&mut self, instr: Instruction) -> (r: Cycle)
        requires
            old(self).wf(),
            instr.wf(),
            instr.exec_ok::<B>(old(self)@),
        ensures
            (r, final(self)@) == instr.spec_exec::<B>(old(self)@),
            final(self).wf(),
    {
        if !self.cpsr.matches(instr.cd) {
            return Cycle { i: 0, s: 1, n: 0 };
        }
        if let Opcode::BL = instr.op {
            if let Some(pc) = self.next_instr_addr() {
                self.set_reg(LR, pc);
            }
        }
        self.b(instr.nn)
    }
}

impl<B: Bus> Executable<B> for Instruction {
    open spec fn ready(self) -> bool {
        self.wf()
    }

    open spec fn dispatch_ok(self, s: CpuView<B::V>) -> bool {
        self.exec_ok::<B>(s)
    }

    open spec fn spec_dispatch(self, s: CpuView<B::V>) -> (Cycle, CpuView<B::V>) {
        self.spec_exec::<B>(s)
    }

    open spec fn spec_condition(self) -> Condition {
        self.cd
    }

    fn condition(&self) -> (r: Condition) {
        self.cd
    }

    fn dispatch(self, cpu: &mut Arm7tdmi<B>) -> (r: Cycle) {
        cpu.exec_arm_format09(self)
    }
}

impl Instruction {
    /// The instruction as the listing writes it.
    pub open spec fn spec_text(self) -> Seq<char> {
        self.op.spec_name() + self.cd.spec_name() + " "@ + signed_text(self.nn as int)
    }

    /// The instruction as text (see `spec_text`).
    pub fn text(&self) -> (r: String)
        ensures
            r@ == self.spec_text(),
    {
        let mut r = String::from_str(self.op.name());
        r.append(self.cd.name());
        r.append(" ");
        write_signed(&mut r, self.nn);
        r
    }
}

} // verus!
