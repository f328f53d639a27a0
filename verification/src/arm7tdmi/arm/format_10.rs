use vstd::prelude::*;
use vstd::string::*;

use crate::arm7tdmi::{Arm7tdmi, CpuView};
use crate::arm7tdmi::common::{Condition, Cycle, Exception};
use crate::arm7tdmi::isa::Executable;
use crate::arm7tdmi::pipeline::{exception_entry, pipeline_loadable, spec_load_pipeline};
use crate::bus::memory::Bus;
use crate::utils::bits::{field, get_bits, get_bits_u8};
use crate::utils::text::{dec_text, write_dec};

verus! {

/// Software interrupt
///
/// `Cond(31-28) | 1111 | Comment(23-0)`
#[derive(Debug, Clone, Copy, PartialEq, Eq, Structural)]
pub struct Instruction {
    pub cd: Condition,
    pub nn: u32,
}

impl Instruction {
    pub open spec fn spec_from(v: u32) -> Instruction {
        Instruction { cd: Condition::spec_new(field(v, 28, 0xF) as u8), nn: field(v, 0, 0xFF_FFFF) }
    }

    pub fn from(v: u32) -> (r: Instruction)
        requires
            field(v, 28, 0xF) < 15,
        ensures
            r == Instruction::spec_from(v),
    {
        Instruction { cd: Condition::new(get_bits_u8(v, 28, 0xF)), nn: get_bits(v, 0, 0xFF_FFFF) }
    }
}

impl Instruction {
    /// Register numbers and operands are in range.
    pub open spec fn wf(self) -> bool {
        true
    }

    /// Whether executing the instruction in state `s` is defined.
    pub open spec fn exec_ok<B: Bus>(self, s: CpuView<B::V>) -> bool {
        !s.cpsr.spec_matches(self.cd) || (pipeline_loadable::<B>(exception_entry(s, Exception::SoftwareInterrupt)))
    }

    /// Processor state and cycles after executing the instruction in state
    /// `s`; an instruction whose condition fails takes one sequential cycle.
    pub open spec fn spec_exec<B: Bus>(self, s: CpuView<B::V>) -> (Cycle, CpuView<B::V>) {
        if !s.cpsr.spec_matches(self.cd) {
            (Cycle { i: 0, s: 1, n: 0 }, s)
        } else {
            (Cycle { i: 0, s: 2, n: 1 }, spec_load_pipeline::<B>(exception_entry(s, Exception::SoftwareInterrupt)))
        }
    }
}

impl<B: Bus> Arm7tdmi<B> {
    /// Executes an ARM instruction of class "software interrupt".
    pub fn exec_arm_format10(&mut self, instr: Instruction) -> (r: Cycle)
        requires
            old(self).wf(),
            instr.wf(),
            instr.exec_ok::<B>(old(self)@),
        ensures
            (r, final(self)@) == instr.spec_exec::<B>(old(self)@),
            final(self).wf(),
    {
        if !self.cpsr.matches(instr.cd) {
            return Cycle { i: 0, s: 1, n: 0 };
        }
        self.swi()
    }
}

impl<B: Bus> Executable<B> for Instruction {
    open spec fn ready(self) -> bool {
        self.wf()
    }

    open spec fn dispatch_ok(self, s: CpuView<B::V>) -> bool {
        self.exec_ok::<B>(s)
    }

    open spec fn spec_dispatch(self, s: CpuView<B::V>) -> (Cycle, CpuView<B::V>) {
        self.spec_exec::<B>(s)
    }

    open spec fn spec_condition(self) -> Condition {
        self.cd
    }

    fn condition(&self) -> (r: Condition) {
        self.cd
    }

    fn dispatch(self, cpu: &mut Arm7tdmi<B>) -> (r: Cycle) {
        cpu.exec_arm_format10(self)
    }
}

impl Instruction {
    /// The instruction as the listing writes it.
    pub open spec fn spec_text(self) -> Seq<char> {
        "SWI"@ + self.cd.spec_name() + " "@ + dec_text(self.nn as nat)
    }

    /// The instruction as text (see `spec_text`).
    pub fn text(&self) -> (r: String)
        ensures
            r@ == self.spec_text(),
    {
        let mut r = String::from_str("SWI");
        r.append(self.cd.name());
        r.append(" ");
        write_dec(&mut r, self.nn);
        r
    }
}

} // verus!
