use vstd::prelude::*;
use vstd::string::*;

use crate::arm7tdmi::{Arm7tdmi, CpuView};
use crate::arm7tdmi::common::{Condition, Cycle};
use crate::arm7tdmi::isa::Executable;
use crate::arm7tdmi::ops::spec_swap;
use crate::bus::memory::Bus;
use crate::utils::bits::{bit, field, get_bits_u8, is_set};
use crate::utils::text::{dec_text, write_dec};

verus! {

/// Single data swap
///
/// `Cond(31-28) | 00010 | B(22) | 00 | Rn(19-16) | Rd(15-12) | 0000 1001 | Rm(3-0)`
#[derive(Debug, Clone, Copy, PartialEq, Eq, Structural)]
pub struct Instruction {
    pub cd: Condition,
    pub byte: bool,
    pub rn: u8,
    pub rd: u8,
    pub rm: u8,
}

impl Instruction {
    pub open spec fn spec_from(v: u32) -> Instruction {
        Instruction {
            cd: Condition::spec_new(field(v, 28, 0xF) as u8),
            byte: bit(v, 22),
            rn: field(v, 16, 0xF) as u8,
            rd: field(v, 12, 0xF) as u8,
            rm: field(v, 0, 0xF) as u8,
        }
    }

    pub fn from(v: u32) -> (r: Instruction)
        requires
            field(v, 28, 0xF) < 15,
        ensures
            r == Instruction::spec_from(v),
            r.rn < 16 && r.rd < 16 && r.rm < 16,
    {
        Instruction {
            cd: Condition::new(get_bits_u8(v, 28, 0xF)),
            byte: is_set(v, 22),
            rn: get_bits_u8(v, 16, 0xF),
            rd: get_bits_u8(v, 12, 0xF),
            rm: get_bits_u8(v, 0, 0xF),
        }
    }
}

impl Instruction {
    /// Register numbers and operands are in range.
    pub open spec fn wf(self) -> bool {
        self.rn < 16 && self.rd < 16 && self.rm < 16
    }

    /// Whether executing the instruction in state `s` is defined.
    pub open spec fn exec_ok<B: Bus>(self, s: CpuView<B::V>) -> bool {
        true
    }

    /// Processor state and cycles after executing the instruction in state
    /// `s`; an instruction whose condition fails takes one sequential cycle.
    pub open spec fn spec_exec<B: Bus>(self, s: CpuView<B::V>) -> (Cycle, CpuView<B::V>) {
        if !s.cpsr.spec_matches(self.cd) {
            (Cycle { i: 0, s: 1, n: 0 }, s)
        } else {
            spec_swap::<B>(s, self.rd, self.rm, self.rn, self.byte)
        }
    }
}

impl<B: Bus> Arm7tdmi<B> {
    /// Executes an ARM instruction of class "single data swap".
    pub fn exec_arm_format06(&mut self, instr: Instruction) -> (r: Cycle)
        requires
            old(self).wf(),
            instr.wf(),
        ensures
            (r, final(self)@) == instr.spec_exec::<B>(old(self)@),
            final(self).wf(),
    {
        if !self.cpsr.matches(instr.cd) {
            return Cycle { i: 0, s: 1, n: 0 };
        }
        self.swp(instr.rd, instr.rm, instr.rn, instr.byte)
    }
}

impl<B: Bus> Executable<B> for Instruction {
    open spec fn ready(self) -> bool {
        self.wf()
    }

    open spec fn dispatch_ok(self, s: CpuView<B::V>) -> bool {
        self.exec_ok::<B>(s)
    }

    open spec fn spec_dispatch(self, s: CpuView<B::V>) -> (Cycle, CpuView<B::V>) {
        self.spec_exec::<B>(s)
    }

    open spec fn spec_condition(self) -> Condition {
        self.cd
    }

    fn condition(&self) -> (r: Condition) {
        self.cd
    }

    fn dispatch(self, cpu: &mut Arm7tdmi<B>) -> (r: Cycle) {
        cpu.exec_arm_format06(self)
    }
}

impl Instruction {
    /// The instruction as the listing writes it.
    pub open spec fn spec_text(self) -> Seq<char> {
        "SWP"@ + self.cd.spec_name() + (if self.byte { "B"@ } else { ""@ }) + " R"@
            + dec_text(self.rd as nat) + ", R"@ + dec_text(self.rm as nat) + ", [R"@
            + dec_text(self.rn as nat) + "]"@
    }

    /// The instruction as text (see `spec_text`).
    pub fn text(&self) -> (r: String)
        ensures
            r@ == self.spec_text(),
    {
        let mut r = String::from_str("SWP");
        r.append(self.cd.name());
        r.append(if self.byte { "B" } else { "" });
        r.append(" R");
        write_dec(&mut r, self.rd as u32);
        r.append(", R");
        write_dec(&mut r, self.rm as u32);
        r.append(", [R");
        write_dec(&mut r, self.rn as u32);
        r.append("]");
        r
    }
}

} // verus!
