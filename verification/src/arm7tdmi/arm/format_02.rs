use vstd::prelude::*;
use vstd::string::*;

use crate::arm7tdmi::{Arm7tdmi, CpuView};
use crate::arm7tdmi::bank::spsr_index;
use crate::arm7tdmi::common::{Condition, Cycle, Operand, OperandKind, ToOperand};
use crate::arm7tdmi::isa::Executable;
use crate::arm7tdmi::psr::Psr;
use crate::bus::memory::Bus;
use crate::utils::bits::{bit, field, get_bits, get_bits_u8, is_set};
use crate::utils::text::{dec_text, write_dec};

verus! {

use crate::arm7tdmi::psr::{PsrField, PsrKind};
use crate::utils::ops::{rotate_right, spec_ror};

/// MRS reads a status register into `rd`; MSR writes the fields `fd` of a
/// status register from `op`.
#[derive(Debug, Clone, Copy, PartialEq, Eq, Structural)]
pub enum Opcode {
    MRS { rd: u8 },
    MSR { fd: PsrField, op: Operand },
}

/// The source operand of MSR: register Rm when `imm` is set, otherwise the
/// 8-bit immediate rotated right by the 4-bit rotate field.
pub open spec fn spec_decode_operand(value: u32, imm: bool) -> Operand {
    if imm {
        Operand { kind: OperandKind::Reg, value: field(value, 0, 0xF), negate: false, shift: None }
    } else {
        Operand {
            kind: OperandKind::Imm,
            value: spec_ror(field(value, 0, 0xFF), field(value, 8, 0xF)),
            negate: false,
            shift: None,
        }
    }
}

pub fn decode_operand(value: u32, imm: bool) -> (r: Operand)
    ensures
        r == spec_decode_operand(value, imm),
        r.wf(),
{
    if imm {
        get_bits_u8(value, 0, 0xF).reg()
    } else {
        let shift = get_bits(value, 8, 0xF);
        let imm = get_bits(value, 0, 0xFF);
        rotate_right(imm, shift).imm()
    }
}

/// PSR transfer
///
/// `Cond(31-28) | 00 | I(25) | 10 | P(22) | Op(21) | 0 | Field(19-16) | Rd(15-12) | Operand(11-0)`
#[derive(Debug, Clone, Copy, PartialEq, Eq, Structural)]
pub struct Format2 {
    pub cd: Condition,
    pub op: Opcode,
    pub psr: PsrKind,
}

impl Format2 {
    pub open spec fn spec_from(v: u32) -> Format2 {
        Format2 {
            cd: Condition::spec_new(field(v, 28, 0xF) as u8),
            op: if !bit(v, 21) {
                Opcode::MRS { rd: field(v, 12, 0xF) as u8 }
            } else {
                Opcode::MSR {
                    fd: PsrField { mask: PsrField::spec_mask(field(v, 16, 0xF) as u8) },
                    op: spec_decode_operand(v, bit(v, 25)),
                }
            },
            psr: if !bit(v, 22) { PsrKind::CPSR } else { PsrKind::SPSR },
        }
    }

    pub fn from(v: u32) -> (r: Format2)
        requires
            field(v, 28, 0xF) < 15,
        ensures
            r == Format2::spec_from(v),
            r.op matches Opcode::MRS { rd } ==> rd < 16,
            r.op matches Opcode::MSR { op, .. } ==> op.wf(),
    {
        let cd = Condition::new(get_bits_u8(v, 28, 0xF));
        let op = if !is_set(v, 21) {
            Opcode::MRS { rd: get_bits_u8(v, 12, 0xF) }
        } else {
            let fd = PsrField::new(get_bits_u8(v, 16, 0xF));
            let imm = is_set(v, 25);
            Opcode::MSR { fd, op: decode_operand(v, imm) }
        };
        let psr = if !is_set(v, 22) {
            PsrKind::CPSR
        } else {
            PsrKind::SPSR
        };
        Format2 { cd, op, psr }
    }
}

impl Format2 {
    /// Register numbers and operands are in range.
    pub open spec fn wf(self) -> bool {
        match self.op {
            Opcode::MRS { rd } => rd < 16,
            Opcode::MSR { op, .. } => op.wf(),
        }
    }

    /// Whether executing the instruction in state `s` is defined.
    pub open spec fn exec_ok<B: Bus>(self, s: CpuView<B::V>) -> bool {
        !s.cpsr.spec_matches(self.cd) || match self.op {
                Opcode::MRS { .. } => self.psr is SPSR ==> spsr_index(s.mode()) is Some,
                Opcode::MSR { fd, op } => self.psr is CPSR ==> Psr(s.psr_write_value(op, fd.mask)).has_valid_mode(),
            }
    }

    /// Processor state and cycles after executing the instruction in state
    /// `s`; an instruction whose condition fails takes one sequential cycle.
    pub open spec fn spec_exec<B: Bus>(self, s: CpuView<B::V>) -> (Cycle, CpuView<B::V>) {
        if !s.cpsr.spec_matches(self.cd) {
            (Cycle { i: 0, s: 1, n: 0 }, s)
        } else {
            match self.op {
                Opcode::MRS { rd } => s.spec_store_psr(rd, self.psr),
                Opcode::MSR { fd, op } => s.spec_update_psr(op, fd.mask, self.psr),
            }
        }
    }
}

impl<B: Bus> Arm7tdmi<B> {
    /// Executes an ARM instruction of class "PSR transfer".
    pub fn exec_arm_format02(&mut self, instr: Format2) -> (r: Cycle)
        requires
            old(self).wf(),
            instr.wf(),
            instr.exec_ok::<B>(old(self)@),
        ensures
            (r, final(self)@) == instr.spec_exec::<B>(old(self)@),
            final(self).wf(),
    {
        if !self.cpsr.matches(instr.cd) {
            return Cycle { i: 0, s: 1, n: 0 };
        }
        match instr.op {
            Opcode::MRS { rd } => self.store_psr_op(rd, instr.psr),
            Opcode::MSR { fd, op } => self.update_psr_op(op, fd.mask, instr.psr),
        }
    }
}

impl<B: Bus> Executable<B> for Format2 {
    open spec fn ready(self) -> bool {
        self.wf()
    }

    open spec fn dispatch_ok(self, s: CpuView<B::V>) -> bool {
        self.exec_ok::<B>(s)
    }

    open spec fn spec_dispatch(self, s: CpuView<B::V>) -> (Cycle, CpuView<B::V>) {
        self.spec_exec::<B>(s)
    }

    open spec fn spec_condition(self) -> Condition {
        self.cd
    }

    fn condition(&self) -> (r: Condition) {
        self.cd
    }

    fn dispatch(self, cpu: &mut Arm7tdmi<B>) -> (r: Cycle) {
        cpu.exec_arm_format02(self)
    }
}

impl Format2 {
    /// The instruction as the listing writes it.
    pub open spec fn spec_text(self) -> Seq<char> {
        match self.op {
            Opcode::MRS { rd } => "MRS"@ + self.cd.spec_name() + " "@ + dec_text(rd as nat) + ", "@
                + self.psr.spec_name(),
            Opcode::MSR { fd, op } => "MSR"@ + self.cd.spec_name() + " "@ + self.psr.spec_name()
                + "_"@ + fd.spec_text() + ", "@ + op.spec_text(),
        }
    }

    /// The instruction as text (see `spec_text`).
    pub fn text(&self) -> (r: String)
        ensures
            r@ == self.spec_text(),
    {
        match self.op {
            Opcode::MRS { rd } => {
                let mut r = String::from_str("MRS");
                r.append(self.cd.name());
                r.append(" ");
                write_dec(&mut r, rd as u32);
                r.append(", ");
                r.append(self.psr.name());
                r
            },
            Opcode::MSR { fd, op } => {
                let mut r = String::from_str("MSR");
                r.append(self.cd.name());
                r.append(" ");
                r.append(self.psr.name());
                r.append("_");
                r.append(fd.text().as_str());
                r.append(", ");
                r.append(op.text().as_str());
                r
            },
        }
    }
}

} // verus!
