use vstd::prelude::*;
use vstd::string::*;

use crate::arm7tdmi::{Arm7tdmi, CpuView};
use crate::arm7tdmi::common::{Condition, Cycle, Exception};
use crate::arm7tdmi::isa::Executable;
use crate::arm7tdmi::pipeline::{exception_entry, pipeline_loadable, spec_load_pipeline};
use crate::bus::memory::Bus;
use crate::utils::bits::{field, get_bits_u8};
use crate::utils::text::{dec_text, write_dec};

verus! {

/// Software interrupt
///
/// `11011111 | Value8(7-0)`
#[derive(Debug, Clone, Copy, PartialEq, Eq, Structural)]
pub struct Format17 {
    pub nn: u8,
}

impl Format17 {
    pub open spec fn spec_from(v: u32) -> Format17 {
        Format17 { nn: field(v, 0, 0xFF) as u8 }
    }

    pub fn from(v: u32) -> (r: Format17)
        ensures
            r == Format17::spec_from(v),
    {
        Format17 { nn: get_bits_u8(v, 0, 0xFF) }
    }
}

impl Format17 {
    /// Register numbers are in range.
    pub open spec fn wf(self) -> bool {
        true
    }

    /// Whether executing the instruction in state `s` is defined.
    pub open spec fn exec_ok<B: Bus>(self, s: CpuView<B::V>) -> bool {
        pipeline_loadable::<B>(exception_entry(s, Exception::SoftwareInterrupt))
    }

    /// Processor state and cycles after executing the instruction in state `s`.
    pub open spec fn spec_exec<B: Bus>(self, s: CpuView<B::V>) -> (Cycle, CpuView<B::V>) {
        (Cycle { i: 0, s: 2, n: 1 }, spec_load_pipeline::<B>(exception_entry(s, Exception::SoftwareInterrupt)))
    }
}

impl<B: Bus> Arm7tdmi<B> {
    /// Executes a THUMB instruction of class "software interrupt".
    pub fn exec_thumb_format17(&mut self, instr: Format17) -> (r: Cycle)
        requires
            old(self).wf(),
            instr.wf(),
            instr.exec_ok::<B>(old(self)@),
        ensures
            (r, final(self)@) == instr.spec_exec::<B>(old(self)@),
            final(self).wf(),
    {
        self.swi()
    }
}

impl<B: Bus> Executable<B> for Format17 {
    open spec fn ready(self) -> bool {
        self.wf()
    }

    open spec fn dispatch_ok(self, s: CpuView<B::V>) -> bool {
        self.exec_ok::<B>(s)
    }

    open spec fn spec_dispatch(self, s: CpuView<B::V>) -> (Cycle, CpuView<B::V>) {
        self.spec_exec::<B>(s)
    }

    open spec fn spec_condition(self) -> Condition {
        Condition::AL
    }

    fn condition(&self) -> (r: Condition) {
        Condition::AL
    }

    fn dispatch(self, cpu: &mut Arm7tdmi<B>) -> (r: Cycle) {
        cpu.exec_thumb_format17(self)
    }
}

impl Format17 {
    /// The instruction as the listing writes it.
    pub open spec fn spec_text(self) -> Seq<char> {
        "SWI "@ + dec_text(self.nn as nat)
    }

    /// The instruction as text (see `spec_text`).
    pub fn text(&self) -> (r: String)
        ensures
            r@ == self.spec_text(),
    {
        let mut r = String::from_str("SWI ");
        write_dec(&mut r, self.nn as u32);
        r
    }
}

} // verus!
