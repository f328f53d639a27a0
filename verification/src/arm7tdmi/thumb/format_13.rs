use vstd::prelude::*;
use vstd::string::*;

use crate::arm7tdmi::{Arm7tdmi, CpuView};
use crate::arm7tdmi::common::{Carry, Condition, Cycle, Operand, OperandKind, ToOperand, spec_reg};
use crate::arm7tdmi::isa::Executable;
use crate::bus::memory::Bus;
use crate::utils::bits::{bit, field, get_bits, is_set};

verus! {

/// Add offset to stack pointer
///
/// `10110000 | S(7) | SWord7(6-0)`; the offset is scaled by 4 and negated when S is set
#[derive(Debug, Clone, Copy, PartialEq, Eq, Structural)]
pub struct Format13 {
    pub nn: Operand,
}

impl Format13 {
    pub open spec fn spec_from(v: u32) -> Format13 {
        Format13 {
            nn: Operand {
                kind: OperandKind::Imm,
                value: (field(v, 0, 0x7F) * 4) as u32,
                negate: bit(v, 7),
                shift: None,
            },
        }
    }

    pub fn from(v: u32) -> (r: Format13)
        ensures
            r == Format13::spec_from(v),
    {
        let nn = get_bits(v, 0, 0x7F) * 4;
        let nn = if !is_set(v, 7) {
            nn.imm()
        } else {
            nn.imm().not()
        };
        Format13 { nn }
    }
}

impl Format13 {
    /// Register numbers are in range.
    pub open spec fn wf(self) -> bool {
        true
    }

    /// Whether executing the instruction in state `s` is defined.
    pub open spec fn exec_ok<B: Bus>(self, s: CpuView<B::V>) -> bool {
        true
    }

    /// Processor state and cycles after executing the instruction in state `s`.
    pub open spec fn spec_exec<B: Bus>(self, s: CpuView<B::V>) -> (Cycle, CpuView<B::V>) {
        let nn = Operand { kind: OperandKind::Imm, value: self.nn.value, negate: false, shift: None };
        if self.nn.negate {
            s.spec_add_sub(Some(13), spec_reg(13), Operand { negate: true, ..nn }, Carry::One, false)
        } else {
            s.spec_add_sub(Some(13), spec_reg(13), nn, Carry::Zero, false)
        }
    }
}

impl<B: Bus> Arm7tdmi<B> {
    /// Executes a THUMB instruction of class "add offset to stack pointer".
    pub fn exec_thumb_format13(&mut self, instr: Format13) -> (r: Cycle)
        requires
            old(self).wf(),
            instr.wf(),
        ensures
            (r, final(self)@) == instr.spec_exec::<B>(old(self)@),
            final(self).wf(),
    {
        let nn = instr.nn.value.imm();
        if instr.nn.negate {
            self.sub(13, 13, nn, false)
        } else {
            self.add(13, 13, nn, false)
        }
    }
}

impl<B: Bus> Executable<B> for Format13 {
    open spec fn ready(self) -> bool {
        self.wf()
    }

    open spec fn dispatch_ok(self, s: CpuView<B::V>) -> bool {
        self.exec_ok::<B>(s)
    }

    open spec fn spec_dispatch(self, s: CpuView<B::V>) -> (Cycle, CpuView<B::V>) {
        self.spec_exec::<B>(s)
    }

    open spec fn spec_condition(self) -> Condition {
        Condition::AL
    }

    fn condition(&self) -> (r: Condition) {
        Condition::AL
    }

    fn dispatch(self, cpu: &mut Arm7tdmi<B>) -> (r: Cycle) {
        cpu.exec_thumb_format13(self)
    }
}

impl Format13 {
    /// The instruction as the listing writes it.
    pub open spec fn spec_text(self) -> Seq<char> {
        "ADD SP, "@ + self.nn.spec_text()
    }

    /// The instruction as text (see `spec_text`).
    pub fn text(&self) -> (r: String)
        ensures
            r@ == self.spec_text(),
    {
        let mut r = String::from_str("ADD SP, ");
        r.append(self.nn.text().as_str());
        r
    }
}

} // verus!
