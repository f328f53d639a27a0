use vstd::prelude::*;
use vstd::string::*;

use crate::arm7tdmi::{Arm7tdmi, CpuView};
use crate::arm7tdmi::common::{Carry, Condition, Cycle, Operand, OperandKind, ToOperand, spec_reg};
use crate::arm7tdmi::isa::Executable;
use crate::bus::memory::Bus;
use crate::utils::bits::{bit, field, get_bits, get_bits_u8, is_set};
use crate::utils::text::{dec_text, write_dec};

verus! {

/// Get relative address
///
/// `1010 | SP(11) | Rd(10-8) | Word8(7-0)`; the offset is scaled by 4
#[derive(Debug, Clone, Copy, PartialEq, Eq, Structural)]
pub struct Format12 {
    pub rs: Operand,
    pub nn: u16,
    pub rd: u8,
}

impl Format12 {
    pub open spec fn spec_from(v: u32) -> Format12 {
        Format12 {
            rs: if !bit(v, 11) {
                Operand { kind: OperandKind::PC, value: 15, negate: false, shift: None }
            } else {
                Operand { kind: OperandKind::SP, value: 13, negate: false, shift: None }
            },
            nn: (field(v, 0, 0xFF) * 4) as u16,
            rd: field(v, 8, 0x7) as u8,
        }
    }

    pub fn from(v: u32) -> (r: Format12)
        ensures
            r == Format12::spec_from(v),
            r.rd < 8,
    {
        let rs = if !is_set(v, 11) {
            Operand::pc()
        } else {
            Operand::sp()
        };
        let rd = get_bits_u8(v, 8, 0x7);
        let nn = (get_bits(v, 0, 0xFF) * 4) as u16;
        Format12 { rs, nn, rd }
    }
}

impl Format12 {
    /// Register numbers are in range.
    pub open spec fn wf(self) -> bool {
        self.rd < 8 && self.rs.value < 16
    }

    /// Whether executing the instruction in state `s` is defined.
    pub open spec fn exec_ok<B: Bus>(self, s: CpuView<B::V>) -> bool {
        true
    }

    /// Processor state and cycles after executing the instruction in state `s`.
    pub open spec fn spec_exec<B: Bus>(self, s: CpuView<B::V>) -> (Cycle, CpuView<B::V>) {
        s.spec_add_sub(Some(self.rd), spec_reg(self.rs.value as u8), Operand { kind: OperandKind::Imm, value: self.nn as u32, negate: false, shift: None }, Carry::Zero, false)
    }
}

impl<B: Bus> Arm7tdmi<B> {
    /// Executes a THUMB instruction of class "get relative address".
    pub fn exec_thumb_format12(&mut self, instr: Format12) -> (r: Cycle)
        requires
            old(self).wf(),
            instr.wf(),
        ensures
            (r, final(self)@) == instr.spec_exec::<B>(old(self)@),
            final(self).wf(),
    {
        self.add(instr.rd, instr.rs.value as u8, instr.nn.imm(), false)
    }
}

impl<B: Bus> Executable<B> for Format12 {
    open spec fn ready(self) -> bool {
        self.wf()
    }

    open spec fn dispatch_ok(self, s: CpuView<B::V>) -> bool {
        self.exec_ok::<B>(s)
    }

    open spec fn spec_dispatch(self, s: CpuView<B::V>) -> (Cycle, CpuView<B::V>) {
        self.spec_exec::<B>(s)
    }

    open spec fn spec_condition(self) -> Condition {
        Condition::AL
    }

    fn condition(&self) -> (r: Condition) {
        Condition::AL
    }

    fn dispatch(self, cpu: &mut Arm7tdmi<B>) -> (r: Cycle) {
        cpu.exec_thumb_format12(self)
    }
}

impl Format12 {
    /// The instruction as the listing writes it.
    pub open spec fn spec_text(self) -> Seq<char> {
        "ADD R"@ + dec_text(self.rd as nat) + ", "@ + self.rs.spec_text() + ", #"@ + dec_text(self.nn as nat)
    }

    /// The instruction as text (see `spec_text`).
    pub fn text(&self) -> (r: String)
        ensures
            r@ == self.spec_text(),
    {
        let mut r = String::from_str("ADD R");
        write_dec(&mut r, self.rd as u32);
        r.append(", ");
        r.append(self.rs.text().as_str());
        r.append(", #");
        write_dec(&mut r, self.nn as u32);
        r
    }
}

} // verus!
