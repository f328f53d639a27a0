use vstd::prelude::*;
use vstd::string::*;

use crate::arm7tdmi::{Arm7tdmi, CpuView};
use crate::arm7tdmi::common::{AddrMode, Condition, Cycle, format_rlist, spec_format_rlist};
use crate::arm7tdmi::isa::Executable;
use crate::arm7tdmi::ops::{spec_ldm, spec_stm};
use crate::bus::memory::Bus;
use crate::utils::bits::{bit, field, get_bits, get_bits_u8, is_set};
use crate::utils::text::{dec_text, write_dec};

verus! {

/// Block data transfer
///
/// `Cond(31-28) | 100 | P(24) | U(23) | S(22) | W(21) | L(20) | Rn(19-16) | Rlist(15-0)`
#[derive(Debug, Clone, Copy, PartialEq, Eq, Structural)]
pub struct Instruction {
    pub cd: Condition,
    pub amod: AddrMode,
    pub usr: bool,
    pub wb: bool,
    pub load: bool,
    pub rn: u8,
    pub rlist: u16,
}

impl Instruction {
    pub open spec fn spec_from(v: u32) -> Instruction {
        Instruction {
            cd: Condition::spec_new(field(v, 28, 0xF) as u8),
            amod: AddrMode::spec_new(field(v, 24, 0x1) as u8, field(v, 23, 0x1) as u8),
            usr: bit(v, 22),
            wb: bit(v, 21),
            load: bit(v, 20),
            rn: field(v, 16, 0xF) as u8,
            rlist: field(v, 0, 0xFFFF) as u16,
        }
    }

    pub fn from(v: u32) -> (r: Instruction)
        requires
            field(v, 28, 0xF) < 15,
        ensures
            r == Instruction::spec_from(v),
            r.rn < 16,
    {
        Instruction {
            cd: Condition::new(get_bits_u8(v, 28, 0xF)),
            amod: AddrMode::new(get_bits_u8(v, 24, 0x1), get_bits_u8(v, 23, 0x1)),
            usr: is_set(v, 22),
            wb: is_set(v, 21),
            load: is_set(v, 20),
            rn: get_bits_u8(v, 16, 0xF),
            rlist: get_bits(v, 0, 0xFFFF) as u16,
        }
    }
}

impl Instruction {
    /// Register numbers and operands are in range.
    pub open spec fn wf(self) -> bool {
        self.rn < 16
    }

    /// Whether executing the instruction in state `s` is defined.
    pub open spec fn exec_ok<B: Bus>(self, s: CpuView<B::V>) -> bool {
        true
    }

    /// Processor state and cycles after executing the instruction in state
    /// `s`; an instruction whose condition fails takes one sequential cycle.
    pub open spec fn spec_exec<B: Bus>(self, s: CpuView<B::V>) -> (Cycle, CpuView<B::V>) {
        if !s.cpsr.spec_matches(self.cd) {
            (Cycle { i: 0, s: 1, n: 0 }, s)
        } else {
            if self.load {
                spec_ldm::<B>(s, self.rn as int, self.rlist, self.amod, self.wb, self.usr)
            } else {
                spec_stm::<B>(s, self.rn as int, self.rlist, self.amod, self.wb, self.usr)
            }
        }
    }
}

impl<B: Bus> Arm7tdmi<B> {
    /// Executes an ARM instruction of class "block data transfer".
    pub fn exec_arm_format08(&mut self, instr: Instruction) -> (r: Cycle)
        requires
            old(self).wf(),
            instr.wf(),
        ensures
            (r, final(self)@) == instr.spec_exec::<B>(old(self)@),
            final(self).wf(),
    {
        if !self.cpsr.matches(instr.cd) {
            return Cycle { i: 0, s: 1, n: 0 };
        }
        if instr.load {
            self.ldm(instr.rlist, instr.rn, instr.amod, instr.wb, instr.usr)
        } else {
            self.stm(instr.rlist, instr.rn, instr.amod, instr.wb, instr.usr)
        }
    }
}

impl<B: Bus> Executable<B> for Instruction {
    open spec fn ready(self) -> bool {
        self.wf()
    }

    open spec fn dispatch_ok(self, s: CpuView<B::V>) -> bool {
        self.exec_ok::<B>(s)
    }

    open spec fn spec_dispatch(self, s: CpuView<B::V>) -> (Cycle, CpuView<B::V>) {
        self.spec_exec::<B>(s)
    }

    open spec fn spec_condition(self) -> Condition {
        self.cd
    }

    fn condition(&self) -> (r: Condition) {
        self.cd
    }

    fn dispatch(self, cpu: &mut Arm7tdmi<B>) -> (r: Cycle) {
        cpu.exec_arm_format08(self)
    }
}

impl Instruction {
    /// The instruction as the listing writes it.
    pub open spec fn spec_text(self) -> Seq<char> {
        (if self.load { "LDM"@ } else { "STM"@ }) + self.cd.spec_name() + self.amod.spec_name()
            + " R"@ + dec_text(self.rn as nat) + (if self.wb { "!"@ } else { ""@ }) + ", "@
            + spec_format_rlist(self.rlist, None) + (if self.usr { "^"@ } else { ""@ })
    }

    /// The instruction as text (see `spec_text`).
    pub fn text(&self) -> (r: String)
        ensures
            r@ == self.spec_text(),
    {
        let mut r = String::from_str(if self.load { "LDM" } else { "STM" });
        r.append(self.cd.name());
        r.append(self.amod.name());
        r.append(" R");
        write_dec(&mut r, self.rn as u32);
        r.append(if self.wb { "!" } else { "" });
        r.append(", ");
        r.append(format_rlist(self.rlist, None).as_str());
        r.append(if self.usr { "^" } else { "" });
        r
    }
}

} // verus!
