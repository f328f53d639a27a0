use vstd::prelude::*;
use vstd::string::*;

use crate::arm7tdmi::{Arm7tdmi, CpuView};
use crate::arm7tdmi::common::{Condition, Cycle};
use crate::arm7tdmi::isa::Executable;
use crate::bus::memory::Bus;
use crate::utils::bits::{bit, field, get_bits, is_set};

verus! {

/// Long branch with link
///
/// `1111 | H(11) | Offset(10-0)`
#[derive(Debug, Clone, Copy, PartialEq, Eq, Structural)]
pub struct Instruction {
    pub h: bool,
    pub nn: u16,
}

impl Instruction {
    pub open spec fn spec_from(v: u32) -> Instruction {
        Instruction { h: bit(v, 11), nn: field(v, 0, 0x7FF) as u16 }
    }

    pub fn from(v: u32) -> (r: Instruction)
        ensures
            r == Instruction::spec_from(v),
            r.nn < 0x800,
    {
        let h = is_set(v, 11);
        let nn = get_bits(v, 0, 0x7FF) as u16;
        Instruction { h, nn }
    }
}

impl Instruction {
    /// Register numbers are in range.
    pub open spec fn wf(self) -> bool {
        true
    }

    /// Whether executing the instruction in state `s` is defined.
    pub open spec fn exec_ok<B: Bus>(self, s: CpuView<B::V>) -> bool {
        true
    }

    /// Processor state and cycles after executing the instruction in state `s`.
    pub open spec fn spec_exec<B: Bus>(self, s: CpuView<B::V>) -> (Cycle, CpuView<B::V>) {
        if self.h {
            s.spec_branch_long_second(self.nn)
        } else {
            s.spec_branch_long_first(self.nn)
        }
    }
}

impl<B: Bus> Arm7tdmi<B> {
    /// Executes a THUMB instruction of class "long branch with link".
    pub fn exec_thumb_format19(&mut self, instr: Instruction) -> (r: Cycle)
        requires
            old(self).wf(),
            instr.wf(),
        ensures
            (r, final(self)@) == instr.spec_exec::<B>(old(self)@),
            final(self).wf(),
    {
        if instr.h {
            self.branch_long_second_op(instr.nn)
        } else {
            self.branch_long_first_op(instr.nn)
        }
    }
}

impl<B: Bus> Executable<B> for Instruction {
    open spec fn ready(self) -> bool {
        self.wf()
    }

    open spec fn dispatch_ok(self, s: CpuView<B::V>) -> bool {
        self.exec_ok::<B>(s)
    }

    open spec fn spec_dispatch(self, s: CpuView<B::V>) -> (Cycle, CpuView<B::V>) {
        self.spec_exec::<B>(s)
    }

    open spec fn spec_condition(self) -> Condition {
        Condition::AL
    }

    fn condition(&self) -> (r: Condition) {
        Condition::AL
    }

    fn dispatch(self, cpu: &mut Arm7tdmi<B>) -> (r: Cycle) {
        cpu.exec_thumb_format19(self)
    }
}

impl Instruction {
    /// The instruction as the listing writes it.
    pub open spec fn spec_text(self) -> Seq<char> {
        if self.h {
            "; BL label"@
        } else {
            "BL label"@
        }
    }

    /// The instruction as text (see `spec_text`).
    pub fn text(&self) -> (r: String)
        ensures
            r@ == self.spec_text(),
    {
        if self.h {
            String::from_str("; BL label")
        } else {
            String::from_str("BL label")
        }
    }
}

} // verus!
