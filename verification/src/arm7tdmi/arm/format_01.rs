use vstd::prelude::*;
use vstd::string::*;

use crate::arm7tdmi::{Arm7tdmi, CpuView};
use crate::arm7tdmi::common::{Carry, Condition, Cycle, Operand, OperandKind, Shift, ShiftKind, ToOperand, spec_reg};
use crate::arm7tdmi::isa::Executable;
use crate::arm7tdmi::ops::LogicalOp;
use crate::bus::memory::Bus;
use crate::utils::bits::{bit, field, get_bits, get_bits_u8, is_set};
use crate::utils::text::{dec_text, write_dec};

verus! {

use crate::utils::ops::{rotate_right, spec_ror};

#[derive(Debug, Clone, Copy, PartialEq, Eq, Structural)]
pub enum Opcode {
    AND,
    EOR,
    SUB,
    RSB,
    ADD,
    ADC,
    SBC,
    RSC,
    TST,
    TEQ,
    CMP,
    CMN,
    ORR,
    MOV,
    BIC,
    MVN,
}

impl Opcode {
    /// The name of the variant, as instruction listings write it.
    pub open spec fn spec_name(self) -> Seq<char> {
        match self {
            Opcode::AND => "AND"@,
            Opcode::EOR => "EOR"@,
            Opcode::SUB => "SUB"@,
            Opcode::RSB => "RSB"@,
            Opcode::ADD => "ADD"@,
            Opcode::ADC => "ADC"@,
            Opcode::SBC => "SBC"@,
            Opcode::RSC => "RSC"@,
            Opcode::TST => "TST"@,
            Opcode::TEQ => "TEQ"@,
            Opcode::CMP => "CMP"@,
            Opcode::CMN => "CMN"@,
            Opcode::ORR => "ORR"@,
            Opcode::MOV => "MOV"@,
            Opcode::BIC => "BIC"@,
            Opcode::MVN => "MVN"@,
        }
    }

    /// The name of the variant (see `spec_name`).
    pub fn name(&self) -> (r: &'static str)
        ensures
            r@ == self.spec_name(),
    {
        match self {
            Opcode::AND => "AND",
            Opcode::EOR => "EOR",
            Opcode::SUB => "SUB",
            Opcode::RSB => "RSB",
            Opcode::ADD => "ADD",
            Opcode::ADC => "ADC",
            Opcode::SBC => "SBC",
            Opcode::RSC => "RSC",
            Opcode::TST => "TST",
            Opcode::TEQ => "TEQ",
            Opcode::CMP => "CMP",
            Opcode::CMN => "CMN",
            Opcode::ORR => "ORR",
            Opcode::MOV => "MOV",
            Opcode::BIC => "BIC",
            Opcode::MVN => "MVN",
        }
    }
}

impl Opcode {
    pub open spec fn spec_new(v: u32) -> Opcode {
        if v == 0 {
            Opcode::AND
        } else if v == 1 {
            Opcode::EOR
        } else if v == 2 {
            Opcode::SUB
        } else if v == 3 {
            Opcode::RSB
        } else if v == 4 {
            Opcode::ADD
        } else if v == 5 {
            Opcode::ADC
        } else if v == 6 {
            Opcode::SBC
        } else if v == 7 {
            Opcode::RSC
        } else if v == 8 {
            Opcode::TST
        } else if v == 9 {
            Opcode::TEQ
        } else if v == 10 {
            Opcode::CMP
        } else if v == 11 {
            Opcode::CMN
        } else if v == 12 {
            Opcode::ORR
        } else if v == 13 {
            Opcode::MOV
        } else if v == 14 {
            Opcode::BIC
        } else {
            Opcode::MVN
        }
    }

    /// The variant encoded by `v`.
    pub fn new(v: u32) -> (r: Opcode)
        requires
            v < 16,
        ensures
            r == Opcode::spec_new(v),
    {
        if v == 0 {
            Opcode::AND
        } else if v == 1 {
            Opcode::EOR
        } else if v == 2 {
            Opcode::SUB
        } else if v == 3 {
            Opcode::RSB
        } else if v == 4 {
            Opcode::ADD
        } else if v == 5 {
            Opcode::ADC
        } else if v == 6 {
            Opcode::SBC
        } else if v == 7 {
            Opcode::RSC
        } else if v == 8 {
            Opcode::TST
        } else if v == 9 {
            Opcode::TEQ
        } else if v == 10 {
            Opcode::CMP
        } else if v == 11 {
            Opcode::CMN
        } else if v == 12 {
            Opcode::ORR
        } else if v == 13 {
            Opcode::MOV
        } else if v == 14 {
            Opcode::BIC
        } else {
            Opcode::MVN
        }
    }
}
/// The second operand of a data processing instruction: a rotated 8-bit
/// immediate, or a register shifted by an immediate or by a register.
pub open spec fn spec_decode_operand2(op: u32, imm: bool) -> Operand {
    if imm {
        Operand {
            kind: OperandKind::Imm,
            value: spec_ror(field(op, 0, 0xFF), (field(op, 8, 0xF) * 2) as u32),
            negate: false,
            shift: None,
        }
    } else {
        let kind = ShiftKind::spec_new(field(op, 5, 0x3) as u8);
        let shift = if field(op, 4, 0x1) == 0 {
            Shift { value: field(op, 7, 0x1F) as u8, register: false, kind }
        } else {
            Shift { value: field(op, 8, 0xF) as u8, register: true, kind }
        };
        Operand { kind: OperandKind::Reg, value: field(op, 0, 0xF), negate: false, shift: Some(shift) }
    }
}

pub fn decode_operand2(op: u32, imm: bool) -> (r: Operand)
    ensures
        r == spec_decode_operand2(op, imm),
        r.wf(),
{
    if imm {
        let shift = get_bits(op, 8, 0xF) * 2;
        let nn = get_bits(op, 0, 0xFF);
        return rotate_right(nn, shift).imm();
    }
    let sk = ShiftKind::new(get_bits_u8(op, 5, 0x3));
    let shift = if get_bits(op, 4, 0x1) == 0 {
        Shift::imm(get_bits_u8(op, 7, 0x1F), sk)
    } else {
        Shift::reg(get_bits_u8(op, 8, 0xF), sk)
    };
    get_bits_u8(op, 0, 0xF).reg().shift(shift)
}

/// Data processing
///
/// `Cond(31-28) | 00 | I(25) | Op(24-21) | S(20) | Rn(19-16) | Rd(15-12) | Operand2(11-0)`
#[derive(Debug, Clone, Copy, PartialEq, Eq, Structural)]
pub struct Format1 {
    pub cd: Condition,
    pub op: Opcode,
    pub s: bool,
    pub rn: u8,
    pub rd: u8,
    pub op2: Operand,
}

impl Format1 {
    pub open spec fn spec_from(v: u32) -> Format1 {
        Format1 {
            cd: Condition::spec_new(field(v, 28, 0xF) as u8),
            op: Opcode::spec_new(field(v, 21, 0xF)),
            s: bit(v, 20),
            rn: field(v, 16, 0xF) as u8,
            rd: field(v, 12, 0xF) as u8,
            op2: spec_decode_operand2(v, bit(v, 25)),
        }
    }

    pub fn from(v: u32) -> (r: Format1)
        requires
            field(v, 28, 0xF) < 15,
        ensures
            r == Format1::spec_from(v),
            r.rn < 16 && r.rd < 16 && r.op2.wf(),
    {
        let cd = Condition::new(get_bits_u8(v, 28, 0xF));
        let imm = is_set(v, 25);
        let op = Opcode::new(get_bits(v, 21, 0xF));
        let s = is_set(v, 20);
        let rn = get_bits_u8(v, 16, 0xF);
        let rd = get_bits_u8(v, 12, 0xF);
        let op2 = decode_operand2(v, imm);
        Format1 { cd, op, s, rn, rd, op2 }
    }
}

impl Format1 {
    /// Register numbers and operands are in range.
    pub open spec fn wf(self) -> bool {
        self.rn < 16 && self.rd < 16 && self.op2.wf()
    }

    /// Whether executing the instruction in state `s` is defined.
    pub open spec fn exec_ok<B: Bus>(self, s: CpuView<B::V>) -> bool {
        true
    }

    /// Processor state and cycles after executing the instruction in state
    /// `s`; an instruction whose condition fails takes one sequential cycle.
    pub open spec fn spec_exec<B: Bus>(self, s: CpuView<B::V>) -> (Cycle, CpuView<B::V>) {
        if !s.cpsr.spec_matches(self.cd) {
            (Cycle { i: 0, s: 1, n: 0 }, s)
        } else {
            let (rd, rn, op2, u) = (self.rd, self.rn, self.op2, self.s);
            match self.op {
                Opcode::AND => s.spec_logical_op(LogicalOp::And, Some(rd), rn, op2, u),
                Opcode::EOR => s.spec_logical_op(LogicalOp::Eor, Some(rd), rn, op2, u),
                Opcode::SUB => s.spec_add_sub(Some(rd), spec_reg(rn), Operand { negate: true, ..op2 }, Carry::One, u),
                Opcode::RSB => s.spec_add_sub(Some(rd), op2, Operand { negate: true, ..spec_reg(rn) }, Carry::One, u),
                Opcode::ADD => s.spec_add_sub(Some(rd), spec_reg(rn), op2, Carry::Zero, u),
                Opcode::ADC => s.spec_add_sub(Some(rd), spec_reg(rn), op2, Carry::Flag, u),
                Opcode::SBC => s.spec_sbc(rd, rn, op2, u),
                Opcode::RSC => s.spec_add_sub(Some(rd), op2, Operand { negate: true, ..spec_reg(rn) }, Carry::Flag, u),
                Opcode::TST => s.spec_logical_op(LogicalOp::And, None, rn, op2, u),
                Opcode::TEQ => s.spec_logical_op(LogicalOp::Eor, None, rn, op2, u),
                Opcode::CMP => s.spec_add_sub(None, spec_reg(rn), Operand { negate: true, ..op2 }, Carry::One, u),
                Opcode::CMN => s.spec_add_sub(None, spec_reg(rn), op2, Carry::Zero, u),
                Opcode::ORR => s.spec_logical_op(LogicalOp::Orr, Some(rd), rn, op2, u),
                Opcode::MOV => s.spec_mov(rd, op2, u),
                Opcode::BIC => s.spec_logical_op(LogicalOp::And, Some(rd), rn, Operand { negate: true, ..op2 }, u),
                Opcode::MVN => s.spec_mov(rd, Operand { negate: true, ..op2 }, u),
            }
        }
    }
}

impl<B: Bus> Arm7tdmi<B> {
    /// Executes an ARM instruction of class "data processing".
    pub fn exec_arm_format01(&mut self, instr: Format1) -> (r: Cycle)
        requires
            old(self).wf(),
            instr.wf(),
        ensures
            (r, final(self)@) == instr.spec_exec::<B>(old(self)@),
            final(self).wf(),
    {
        if !self.cpsr.matches(instr.cd) {
            return Cycle { i: 0, s: 1, n: 0 };
        }
        let (rd, rn, op2, u) = (instr.rd, instr.rn, instr.op2, instr.s);
        match instr.op {
            Opcode::AND => self.and(rd, rn, op2, u),
            Opcode::EOR => self.eor(rd, rn, op2, u),
            Opcode::SUB => self.sub(rd, rn, op2, u),
            Opcode::RSB => self.rsb(rd, rn, op2, u),
            Opcode::ADD => self.add(rd, rn, op2, u),
            Opcode::ADC => self.adc(rd, rn, op2, u),
            Opcode::SBC => self.sbc(rd, rn, op2, u),
            Opcode::RSC => self.rsc(rd, rn, op2, u),
            Opcode::ORR => self.orr(rd, rn, op2, u),
            Opcode::BIC => self.bic(rd, rn, op2, u),
            Opcode::TST => self.tst(rn, op2, u),
            Opcode::TEQ => self.teq(rn, op2, u),
            Opcode::CMP => self.cmp(rn, op2, u),
            Opcode::CMN => self.cmn(rn, op2, u),
            Opcode::MOV => self.mov(rd, op2, u),
            Opcode::MVN => self.mvn(rd, op2, u),
        }
    }
}

impl<B: Bus> Executable<B> for Format1 {
    open spec fn ready(self) -> bool {
        self.wf()
    }

    open spec fn dispatch_ok(self, s: CpuView<B::V>) -> bool {
        self.exec_ok::<B>(s)
    }

    open spec fn spec_dispatch(self, s: CpuView<B::V>) -> (Cycle, CpuView<B::V>) {
        self.spec_exec::<B>(s)
    }

    open spec fn spec_condition(self) -> Condition {
        self.cd
    }

    fn condition(&self) -> (r: Condition) {
        self.cd
    }

    fn dispatch(self, cpu: &mut Arm7tdmi<B>) -> (r: Cycle) {
        cpu.exec_arm_format01(self)
    }
}

impl Format1 {
    /// The instruction as the listing writes it.
    pub open spec fn spec_text(self) -> Seq<char> {
        let head = self.op.spec_name() + self.cd.spec_name() + (if self.s { "S"@ } else { ""@ })
            + " R"@ + dec_text(self.rd as nat);
        if self.op is TST || self.op is TEQ || self.op is CMP || self.op is CMN || self.op is MOV
            || self.op is MVN {
            head + ", "@ + self.op2.spec_text()
        } else {
            head + ", R"@ + dec_text(self.rn as nat) + ", "@ + self.op2.spec_text()
        }
    }

    /// The instruction as text (see `spec_text`).
    pub fn text(&self) -> (r: String)
        ensures
            r@ == self.spec_text(),
    {
        let mut r = String::from_str(self.op.name());
        r.append(self.cd.name());
        r.append(if self.s { "S" } else { "" });
        r.append(" R");
        write_dec(&mut r, self.rd as u32);
        match self.op {
            Opcode::TST | Opcode::TEQ | Opcode::CMP | Opcode::CMN | Opcode::MOV | Opcode::MVN => {},
            _ => {
                r.append(", R");
                write_dec(&mut r, self.rn as u32);
            },
        }
        r.append(", ");
        r.append(self.op2.text().as_str());
        r
    }
}

} // verus!
