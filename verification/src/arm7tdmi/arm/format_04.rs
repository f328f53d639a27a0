use vstd::prelude::*;
use vstd::string::*;

use crate::arm7tdmi::{Arm7tdmi, CpuView};
use crate::arm7tdmi::common::{Condition, Cycle, LongOperand};
use crate::arm7tdmi::isa::Executable;
use crate::bus::memory::Bus;
use crate::utils::bits::{bit, field, get_bits_u8, is_set};
use crate::utils::text::{dec_text, write_dec};

verus! {

/// Multiply and multiply-accumulate
///
/// `Cond(31-28) | 000000 | A(21) | S(20) | Rd(19-16) | Rn(15-12) | Rs(11-8) | 1001 | Rm(3-0)`
#[derive(Debug, Clone, Copy, PartialEq, Eq, Structural)]
pub struct Instruction {
    pub cd: Condition,
    pub acc: bool,
    pub s: bool,
    pub rd: u8,
    pub rn: u8,
    pub rs: u8,
    pub rm: u8,
}

impl Instruction {
    pub open spec fn spec_from(v: u32) -> Instruction {
        Instruction {
            cd: Condition::spec_new(field(v, 28, 0xF) as u8),
            acc: bit(v, 21),
            s: bit(v, 20),
            rd: field(v, 16, 0xF) as u8,
            rn: field(v, 12, 0xF) as u8,
            rs: field(v, 8, 0xF) as u8,
            rm: field(v, 0, 0xF) as u8,
        }
    }

    pub fn from(v: u32) -> (r: Instruction)
        requires
            field(v, 28, 0xF) < 15,
        ensures
            r == Instruction::spec_from(v),
            r.rd < 16 && r.rn < 16 && r.rs < 16 && r.rm < 16,
    {
        Instruction {
            cd: Condition::new(get_bits_u8(v, 28, 0xF)),
            acc: is_set(v, 21),
            s: is_set(v, 20),
            rd: get_bits_u8(v, 16, 0xF),
            rn: get_bits_u8(v, 12, 0xF),
            rs: get_bits_u8(v, 8, 0xF),
            rm: get_bits_u8(v, 0, 0xF),
        }
    }
}

impl Instruction {
    /// Register numbers and operands are in range.
    pub open spec fn wf(self) -> bool {
        self.rd < 16 && self.rn < 16 && self.rs < 16 && self.rm < 16
    }

    /// Whether executing the instruction in state `s` is defined.
    pub open spec fn exec_ok<B: Bus>(self, s: CpuView<B::V>) -> bool {
        true
    }

    /// Processor state and cycles after executing the instruction in state
    /// `s`; an instruction whose condition fails takes one sequential cycle.
    pub open spec fn spec_exec<B: Bus>(self, s: CpuView<B::V>) -> (Cycle, CpuView<B::V>) {
        if !s.cpsr.spec_matches(self.cd) {
            (Cycle { i: 0, s: 1, n: 0 }, s)
        } else {
            let rd = LongOperand { lo: self.rd, hi: None };
            if self.acc {
                s.spec_mul(rd, self.rm, self.rs, Some(LongOperand { lo: self.rn, hi: None }), self.s, false)
            } else {
                s.spec_mul(rd, self.rm, self.rs, None, self.s, false)
            }
        }
    }
}

impl<B: Bus> Arm7tdmi<B> {
    /// Executes an ARM instruction of class "multiply".
    pub fn exec_arm_format04(&mut self, instr: Instruction) -> (r: Cycle)
        requires
            old(self).wf(),
            instr.wf(),
        ensures
            (r, final(self)@) == instr.spec_exec::<B>(old(self)@),
            final(self).wf(),
    {
        if !self.cpsr.matches(instr.cd) {
            return Cycle { i: 0, s: 1, n: 0 };
        }
        if instr.acc {
            self.mla(instr.rd, instr.rm, instr.rs, instr.rn, instr.s)
        } else {
            self.mul(instr.rd, instr.rm, instr.rs, instr.s)
        }
    }
}

impl<B: Bus> Executable<B> for Instruction {
    open spec fn ready(self) -> bool {
        self.wf()
    }

    open spec fn dispatch_ok(self, s: CpuView<B::V>) -> bool {
        self.exec_ok::<B>(s)
    }

    open spec fn spec_dispatch(self, s: CpuView<B::V>) -> (Cycle, CpuView<B::V>) {
        self.spec_exec::<B>(s)
    }

    open spec fn spec_condition(self) -> Condition {
        self.cd
    }

    fn condition(&self) -> (r: Condition) {
        self.cd
    }

    fn dispatch(self, cpu: &mut Arm7tdmi<B>) -> (r: Cycle) {
        cpu.exec_arm_format04(self)
    }
}

impl Instruction {
    /// The instruction as the listing writes it.
    pub open spec fn spec_text(self) -> Seq<char> {
        let head = (if self.acc { "MLA"@ } else { "MUL"@ }) + self.cd.spec_name() + (if self.s {
            "S"@
        } else {
            ""@
        }) + " R"@ + dec_text(self.rd as nat) + ", R"@ + dec_text(self.rm as nat) + ", R"@
            + dec_text(self.rs as nat);
        if self.acc {
            head + ", R"@ + dec_text(self.rn as nat)
        } else {
            head
        }
    }

    /// The instruction as text (see `spec_text`).
    pub fn text(&self) -> (r: String)
        ensures
            r@ == self.spec_text(),
    {
        let mut r = String::from_str(if self.acc { "MLA" } else { "MUL" });
        r.append(self.cd.name());
        r.append(if self.s { "S" } else { "" });
        r.append(" R");
        write_dec(&mut r, self.rd as u32);
        r.append(", R");
        write_dec(&mut r, self.rm as u32);
        r.append(", R");
        write_dec(&mut r, self.rs as u32);
        if self.acc {
            r.append(", R");
            write_dec(&mut r, self.rn as u32);
        }
        r
    }
}

} // verus!
