use vstd::prelude::*;
use vstd::string::*;

use crate::arm7tdmi::{Arm7tdmi, CpuView};
use crate::arm7tdmi::common::{Carry, Condition, Cycle, LongOperand, Operand, OperandKind, ShiftKind, ToOperand, spec_reg};
use crate::arm7tdmi::isa::Executable;
use crate::arm7tdmi::ops::LogicalOp;
use crate::bus::memory::Bus;
use crate::utils::bits::{field, get_bits, get_bits_u8};
use crate::utils::text::{dec_text, write_dec};

verus! {

#[derive(Debug, Clone, Copy, PartialEq, Eq, Structural)]
pub enum Opcode4 {
    AND,
    EOR,
    LSL,
    LSR,
    ASR,
    ADC,
    SBC,
    ROR,
    TST,
    NEG,
    CMP,
    CMN,
    ORR,
    MUL,
    BIC,
    MVN,
}

impl Opcode4 {
    /// The name of the variant, as instruction listings write it.
    pub open spec fn spec_name(self) -> Seq<char> {
        match self {
            Opcode4::AND => "AND"@,
            Opcode4::EOR => "EOR"@,
            Opcode4::LSL => "LSL"@,
            Opcode4::LSR => "LSR"@,
            Opcode4::ASR => "ASR"@,
            Opcode4::ADC => "ADC"@,
            Opcode4::SBC => "SBC"@,
            Opcode4::ROR => "ROR"@,
            Opcode4::TST => "TST"@,
            Opcode4::NEG => "NEG"@,
            Opcode4::CMP => "CMP"@,
            Opcode4::CMN => "CMN"@,
            Opcode4::ORR => "ORR"@,
            Opcode4::MUL => "MUL"@,
            Opcode4::BIC => "BIC"@,
            Opcode4::MVN => "MVN"@,
        }
    }

    /// The name of the variant (see `spec_name`).
    pub fn name(&self) -> (r: &'static str)
        ensures
            r@ == self.spec_name(),
    {
        match self {
            Opcode4::AND => "AND",
            Opcode4::EOR => "EOR",
            Opcode4::LSL => "LSL",
            Opcode4::LSR => "LSR",
            Opcode4::ASR => "ASR",
            Opcode4::ADC => "ADC",
            Opcode4::SBC => "SBC",
            Opcode4::ROR => "ROR",
            Opcode4::TST => "TST",
            Opcode4::NEG => "NEG",
            Opcode4::CMP => "CMP",
            Opcode4::CMN => "CMN",
            Opcode4::ORR => "ORR",
            Opcode4::MUL => "MUL",
            Opcode4::BIC => "BIC",
            Opcode4::MVN => "MVN",
        }
    }
}

impl Opcode4 {
    pub open spec fn spec_new(v: u32) -> Opcode4 {
        if v == 0 {
            Opcode4::AND
        } else if v == 1 {
            Opcode4::EOR
        } else if v == 2 {
            Opcode4::LSL
        } else if v == 3 {
            Opcode4::LSR
        } else if v == 4 {
            Opcode4::ASR
        } else if v == 5 {
            Opcode4::ADC
        } else if v == 6 {
            Opcode4::SBC
        } else if v == 7 {
            Opcode4::ROR
        } else if v == 8 {
            Opcode4::TST
        } else if v == 9 {
            Opcode4::NEG
        } else if v == 10 {
            Opcode4::CMP
        } else if v == 11 {
            Opcode4::CMN
        } else if v == 12 {
            Opcode4::ORR
        } else if v == 13 {
            Opcode4::MUL
        } else if v == 14 {
            Opcode4::BIC
        } else {
            Opcode4::MVN
        }
    }

    /// The variant encoded by `v`.
    pub fn new(v: u32) -> (r: Opcode4)
        requires
            v < 16,
        ensures
            r == Opcode4::spec_new(v),
    {
        if v == 0 {
            Opcode4::AND
        } else if v == 1 {
            Opcode4::EOR
        } else if v == 2 {
            Opcode4::LSL
        } else if v == 3 {
            Opcode4::LSR
        } else if v == 4 {
            Opcode4::ASR
        } else if v == 5 {
            Opcode4::ADC
        } else if v == 6 {
            Opcode4::SBC
        } else if v == 7 {
            Opcode4::ROR
        } else if v == 8 {
            Opcode4::TST
        } else if v == 9 {
            Opcode4::NEG
        } else if v == 10 {
            Opcode4::CMP
        } else if v == 11 {
            Opcode4::CMN
        } else if v == 12 {
            Opcode4::ORR
        } else if v == 13 {
            Opcode4::MUL
        } else if v == 14 {
            Opcode4::BIC
        } else {
            Opcode4::MVN
        }
    }
}
/// ALU operations
///
/// `010000 | Op(9-6) | Rs(5-3) | Rd(2-0)`
#[derive(Debug, Clone, Copy, PartialEq, Eq, Structural)]
pub struct Format4 {
    pub op: Opcode4,
    pub rs: u8,
    pub rd: u8,
}

impl Format4 {
    pub open spec fn spec_from(v: u32) -> Format4 {
        Format4 {
            op: Opcode4::spec_new(field(v, 6, 0xF)),
            rs: field(v, 3, 0x7) as u8,
            rd: field(v, 0, 0x7) as u8,
        }
    }

    pub fn from(v: u32) -> (r: Format4)
        ensures
            r == Format4::spec_from(v),
            r.rs < 8 && r.rd < 8,
    {
        let op = Opcode4::new(get_bits(v, 6, 0xF));
        let rs = get_bits_u8(v, 3, 0x7);
        let rd = get_bits_u8(v, 0, 0x7);
        Format4 { op, rs, rd }
    }
}

impl Format4 {
    /// Register numbers are in range.
    pub open spec fn wf(self) -> bool {
        self.rs < 8 && self.rd < 8
    }

    /// Whether executing the instruction in state `s` is defined.
    pub open spec fn exec_ok<B: Bus>(self, s: CpuView<B::V>) -> bool {
        true
    }

    /// Processor state and cycles after executing the instruction in state `s`.
    pub open spec fn spec_exec<B: Bus>(self, s: CpuView<B::V>) -> (Cycle, CpuView<B::V>) {
        let rs = spec_reg(self.rs);
        let rd = self.rd;
        match self.op {
            Opcode4::AND => s.spec_logical_op(LogicalOp::And, Some(rd), rd, rs, true),
            Opcode4::EOR => s.spec_logical_op(LogicalOp::Eor, Some(rd), rd, rs, true),
            Opcode4::LSL => s.spec_shift_op(rd, rd, rs, ShiftKind::LSL),
            Opcode4::LSR => s.spec_shift_op(rd, rd, rs, ShiftKind::LSR),
            Opcode4::ASR => s.spec_shift_op(rd, rd, rs, ShiftKind::ASR),
            Opcode4::ADC => s.spec_add_sub(Some(rd), spec_reg(rd), rs, Carry::Flag, true),
            Opcode4::SBC => s.spec_sbc(rd, rd, rs, true),
            Opcode4::ROR => s.spec_shift_op(rd, rd, rs, ShiftKind::ROR),
            Opcode4::TST => s.spec_logical_op(LogicalOp::And, None, rd, rs, true),
            Opcode4::NEG => s.spec_add_sub(Some(rd), Operand { kind: OperandKind::Imm, value: 0, negate: false, shift: None }, Operand { negate: true, ..rs }, Carry::One, true),
            Opcode4::CMP => s.spec_add_sub(None, spec_reg(rd), Operand { negate: true, ..rs }, Carry::One, true),
            Opcode4::CMN => s.spec_add_sub(None, spec_reg(rd), rs, Carry::Zero, true),
            Opcode4::ORR => s.spec_logical_op(LogicalOp::Orr, Some(rd), rd, rs, true),
            Opcode4::MUL => s.spec_mul(LongOperand { lo: rd, hi: None }, self.rs, rd, None, true, false),
            Opcode4::BIC => s.spec_logical_op(LogicalOp::And, Some(rd), rd, Operand { negate: true, ..rs }, true),
            Opcode4::MVN => s.spec_mov(rd, Operand { negate: true, ..rs }, true),
        }
    }
}

impl<B: Bus> Arm7tdmi<B> {
    /// Executes a THUMB instruction of class "alu operations".
    pub fn exec_thumb_format4(&mut self, instr: Format4) -> (r: Cycle)
        requires
            old(self).wf(),
            instr.wf(),
        ensures
            (r, final(self)@) == instr.spec_exec::<B>(old(self)@),
            final(self).wf(),
    {
        let rs = instr.rs.reg();
        let rd = instr.rd;
        match instr.op {
            Opcode4::AND => self.and(rd, rd, rs, true),
            Opcode4::EOR => self.eor(rd, rd, rs, true),
            Opcode4::LSL => self.lsl(rd, rd, rs),
            Opcode4::LSR => self.lsr(rd, rd, rs),
            Opcode4::ASR => self.asr(rd, rd, rs),
            Opcode4::ADC => self.adc(rd, rd, rs, true),
            Opcode4::SBC => self.sbc(rd, rd, rs, true),
            Opcode4::ROR => self.ror(rd, rd, rs),
            Opcode4::TST => self.tst(rd, rs, true),
            Opcode4::NEG => self.neg(rd, instr.rs),
            Opcode4::CMP => self.cmp(rd, rs, true),
            Opcode4::CMN => self.cmn(rd, rs, true),
            Opcode4::ORR => self.orr(rd, rd, rs, true),
            Opcode4::MUL => self.mul(rd, instr.rs, rd, true),
            Opcode4::BIC => self.bic(rd, rd, rs, true),
            Opcode4::MVN => self.mvn(rd, rs, true),
        }
    }
}

impl<B: Bus> Executable<B> for Format4 {
    open spec fn ready(self) -> bool {
        self.wf()
    }

    open spec fn dispatch_ok(self, s: CpuView<B::V>) -> bool {
        self.exec_ok::<B>(s)
    }

    open spec fn spec_dispatch(self, s: CpuView<B::V>) -> (Cycle, CpuView<B::V>) {
        self.spec_exec::<B>(s)
    }

    open spec fn spec_condition(self) -> Condition {
        Condition::AL
    }

    fn condition(&self) -> (r: Condition) {
        Condition::AL
    }

    fn dispatch(self, cpu: &mut Arm7tdmi<B>) -> (r: Cycle) {
        cpu.exec_thumb_format4(self)
    }
}

impl Format4 {
    /// The instruction as the listing writes it.
    pub open spec fn spec_text(self) -> Seq<char> {
        self.op.spec_name() + " R"@ + dec_text(self.rd as nat) + ", R"@ + dec_text(self.rs as nat)
    }

    /// The instruction as text (see `spec_text`).
    pub fn text(&self) -> (r: String)
        ensures
            r@ == self.spec_text(),
    {
        let mut r = String::from_str(self.op.name());
        r.append(" R");
        write_dec(&mut r, self.rd as u32);
        r.append(", R");
        write_dec(&mut r, self.rs as u32);
        r
    }
}

} // verus!
