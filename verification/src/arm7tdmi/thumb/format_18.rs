use vstd::prelude::*;
use vstd::string::*;

use crate::arm7tdmi::{Arm7tdmi, CpuView};
use crate::arm7tdmi::common::{Condition, Cycle};
use crate::arm7tdmi::isa::Executable;
use crate::bus::memory::Bus;
use crate::utils::bits::{field, get_bits};
use crate::utils::text::{signed_text, write_signed};

verus! {

/// Unconditional branch
///
/// `11100 | Offset11(10-0)`; the offset keeps its low 8 bits as a signed byte and is scaled by 2
#[derive(Debug, Clone, Copy, PartialEq, Eq, Structural)]
pub struct Format18 {
    pub of: i16,
}

impl Format18 {
    pub open spec fn spec_from(v: u32) -> Format18 {
        Format18 { of: ((field(v, 0, 0x7FF) as u16 as i8 as i16) * 2) as i16 }
    }

    pub fn from(v: u32) -> (r: Format18)
        ensures
            r == Format18::spec_from(v),
    {
        let nn = get_bits(v, 0, 0x7FF) as u16 as i8 as i16;
        Format18 { of: nn * 2 }
    }
}

impl Format18 {
    /// Register numbers are in range.
    pub open spec fn wf(self) -> bool {
        true
    }

    /// Whether executing the instruction in state `s` is defined.
    pub open spec fn exec_ok<B: Bus>(self, s: CpuView<B::V>) -> bool {
        true
    }

    /// Processor state and cycles after executing the instruction in state `s`.
    pub open spec fn spec_exec<B: Bus>(self, s: CpuView<B::V>) -> (Cycle, CpuView<B::V>) {
        s.spec_branch(Condition::AL, self.of as i32)
    }
}

impl<B: Bus> Arm7tdmi<B> {
    /// Executes a THUMB instruction of class "unconditional branch".
    pub fn exec_thumb_format18(&mut self, instr: Format18) -> (r: Cycle)
        requires
            old(self).wf(),
            instr.wf(),
        ensures
            (r, final(self)@) == instr.spec_exec::<B>(old(self)@),
            final(self).wf(),
    {
        self.b(instr.of as i32)
    }
}

impl<B: Bus> Executable<B> for Format18 {
    open spec fn ready(self) -> bool {
        self.wf()
    }

    open spec fn dispatch_ok(self, s: CpuView<B::V>) -> bool {
        self.exec_ok::<B>(s)
    }

    open spec fn spec_dispatch(self, s: CpuView<B::V>) -> (Cycle, CpuView<B::V>) {
        self.spec_exec::<B>(s)
    }

    open spec fn spec_condition(self) -> Condition {
        Condition::AL
    }

    fn condition(&self) -> (r: Condition) {
        Condition::AL
    }

    fn dispatch(self, cpu: &mut Arm7tdmi<B>) -> (r: Cycle) {
        cpu.exec_thumb_format18(self)
    }
}

impl Format18 {
    /// The instruction as the listing writes it.
    pub open spec fn spec_text(self) -> Seq<char> {
        "B "@ + signed_text(self.of as int)
    }

    /// The instruction as text (see `spec_text`).
    pub fn text(&self) -> (r: String)
        ensures
            r@ == self.spec_text(),
    {
        let mut r = String::from_str("B ");
        write_signed(&mut r, self.of as i32);
        r
    }
}

} // verus!
