use vstd::prelude::*;
use vstd::string::*;

use crate::arm7tdmi::{Arm7tdmi, CpuView};
use crate::arm7tdmi::common::{Condition, Cycle};
use crate::arm7tdmi::isa::Executable;
use crate::bus::memory::Bus;
use crate::utils::bits::{field, get_bits_u8};
use crate::utils::text::{dec_text, write_dec};

verus! {

/// Branch and exchange
///
/// `Cond(31-28) | 0001 0010 1111 1111 1111 0001 | Rn(3-0)`
#[derive(Debug, Clone, Copy, PartialEq, Eq, Structural)]
pub struct Format3 {
    pub cd: Condition,
    pub rn: u8,
}

impl Format3 {
    pub open spec fn spec_from(v: u32) -> Format3 {
        Format3 { cd: Condition::spec_new(field(v, 28, 0xF) as u8), rn: field(v, 0, 0xF) as u8 }
    }

    pub fn from(v: u32) -> (r: Format3)
        requires
            field(v, 28, 0xF) < 15,
        ensures
            r == Format3::spec_from(v),
            r.rn < 16,
    {
        Format3 { cd: Condition::new(get_bits_u8(v, 28, 0xF)), rn: get_bits_u8(v, 0, 0xF) }
    }
}

impl Format3 {
    /// Register numbers and operands are in range.
    pub open spec fn wf(self) -> bool {
        self.rn < 16
    }

    /// Whether executing the instruction in state `s` is defined.
    pub open spec fn exec_ok<B: Bus>(self, s: CpuView<B::V>) -> bool {
        true
    }

    /// Processor state and cycles after executing the instruction in state
    /// `s`; an instruction whose condition fails takes one sequential cycle.
    pub open spec fn spec_exec<B: Bus>(self, s: CpuView<B::V>) -> (Cycle, CpuView<B::V>) {
        if !s.cpsr.spec_matches(self.cd) {
            (Cycle { i: 0, s: 1, n: 0 }, s)
        } else {
            s.spec_bx(self.rn)
        }
    }
}

impl<B: Bus> Arm7tdmi<B> {
    /// Executes an ARM instruction of class "branch and exchange".
    pub fn exec_arm_format03(&mut self, instr: Format3) -> (r: Cycle)
        requires
            old(self).wf(),
            instr.wf(),
        ensures
            (r, final(self)@) == instr.spec_exec::<B>(old(self)@),
            final(self).wf(),
    {
        if !self.cpsr.matches(instr.cd) {
            return Cycle { i: 0, s: 1, n: 0 };
        }
        self.bx(instr.rn)
    }
}

impl<B: Bus> Executable<B> for Format3 {
    open spec fn ready(self) -> bool {
        self.wf()
    }

    open spec fn dispatch_ok(self, s: CpuView<B::V>) -> bool {
        self.exec_ok::<B>(s)
    }

    open spec fn spec_dispatch(self, s: CpuView<B::V>) -> (Cycle, CpuView<B::V>) {
        self.spec_exec::<B>(s)
    }

    open spec fn spec_condition(self) -> Condition {
        self.cd
    }

    fn condition(&self) -> (r: Condition) {
        self.cd
    }

    fn dispatch(self, cpu: &mut Arm7tdmi<B>) -> (r: Cycle) {
        cpu.exec_arm_format03(self)
    }
}

impl Format3 {
    /// The instruction as the listing writes it.
    pub open spec fn spec_text(self) -> Seq<char> {
        "BX"@ + self.cd.spec_name() + " R"@ + dec_text(self.rn as nat)
    }

    /// The instruction as text (see `spec_text`).
    pub fn text(&self) -> (r: String)
        ensures
            r@ == self.spec_text(),
    {
        let mut r = String::from_str("BX");
        r.append(self.cd.name());
        r.append(" R");
        write_dec(&mut r, self.rn as u32);
        r
    }
}

} // verus!
