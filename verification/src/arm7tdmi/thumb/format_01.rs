use vstd::prelude::*;
use vstd::string::*;

use crate::arm7tdmi::{Arm7tdmi, CpuView};
use crate::arm7tdmi::common::{Condition, Cycle, Operand, OperandKind, ShiftKind, ToOperand};
use crate::arm7tdmi::isa::Executable;
use crate::bus::memory::Bus;
use crate::utils::bits::{field, get_bits, get_bits_u8};
use crate::utils::text::{dec_text, write_dec};

verus! {

#[derive(Debug, Clone, Copy, PartialEq, Eq, Structural)]
pub enum Opcode1 {
    LSL,
    LSR,
    ASR,
}

impl Opcode1 {
    /// The name of the variant, as instruction listings write it.
    pub open spec fn spec_name(self) -> Seq<char> {
        match self {
            Opcode1::LSL => "LSL"@,
            Opcode1::LSR => "LSR"@,
            Opcode1::ASR => "ASR"@,
        }
    }

    /// The name of the variant (see `spec_name`).
    pub fn name(&self) -> (r: &'static str)
        ensures
            r@ == self.spec_name(),
    {
        match self {
            Opcode1::LSL => "LSL",
            Opcode1::LSR => "LSR",
            Opcode1::ASR => "ASR",
        }
    }
}

impl Opcode1 {
    pub open spec fn spec_new(v: u32) -> Opcode1 {
        if v == 0 {
            Opcode1::LSL
        } else if v == 1 {
            Opcode1::LSR
        } else {
            Opcode1::ASR
        }
    }

    /// The variant encoded by `v`.
    pub fn new(v: u32) -> (r: Opcode1)
        requires
            v < 3,
        ensures
            r == Opcode1::spec_new(v),
    {
        if v == 0 {
            Opcode1::LSL
        } else if v == 1 {
            Opcode1::LSR
        } else {
            Opcode1::ASR
        }
    }
}
/// Move shifted register
///
/// `000 | Op(12-11) | Offset5(10-6) | Rs(5-3) | Rd(2-0)`
#[derive(Debug, Clone, Copy, PartialEq, Eq, Structural)]
pub struct Format1 {
    pub op: Opcode1,
    pub of: u8,
    pub rs: u8,
    pub rd: u8,
}

impl Format1 {
    pub open spec fn spec_from(v: u32) -> Format1 {
        Format1 {
            op: Opcode1::spec_new(field(v, 11, 0x3)),
            of: field(v, 6, 0x1F) as u8,
            rs: field(v, 3, 0x7) as u8,
            rd: field(v, 0, 0x7) as u8,
        }
    }

    pub open spec fn decodable(v: u32) -> bool {
        field(v, 11, 0x3) < 3
    }

    pub fn from(v: u32) -> (r: Format1)
        requires
            Format1::decodable(v),
        ensures
            r == Format1::spec_from(v),
            r.rs < 8 && r.rd < 8 && r.of < 32,
    {
        let op = Opcode1::new(get_bits(v, 11, 0x3));
        let of = get_bits_u8(v, 6, 0x1F);
        let rs = get_bits_u8(v, 3, 0x7);
        let rd = get_bits_u8(v, 0, 0x7);
        Format1 { op, of, rs, rd }
    }
}

impl Format1 {
    /// Register numbers are in range.
    pub open spec fn wf(self) -> bool {
        self.rs < 8 && self.rd < 8
    }

    /// Whether executing the instruction in state `s` is defined.
    pub open spec fn exec_ok<B: Bus>(self, s: CpuView<B::V>) -> bool {
        true
    }

    /// Processor state and cycles after executing the instruction in state `s`.
    pub open spec fn spec_exec<B: Bus>(self, s: CpuView<B::V>) -> (Cycle, CpuView<B::V>) {
        match self.op {
            Opcode1::LSL => s.spec_shift_op(self.rd, self.rs, Operand { kind: OperandKind::Imm, value: self.of as u32, negate: false, shift: None }, ShiftKind::LSL),
            Opcode1::LSR => s.spec_shift_op(self.rd, self.rs, Operand { kind: OperandKind::Imm, value: self.of as u32, negate: false, shift: None }, ShiftKind::LSR),
            Opcode1::ASR => s.spec_shift_op(self.rd, self.rs, Operand { kind: OperandKind::Imm, value: self.of as u32, negate: false, shift: None }, ShiftKind::ASR),
        }
    }
}

impl<B: Bus> Arm7tdmi<B> {
    /// Executes a THUMB instruction of class "move shifted register".
    pub fn exec_thumb_format1(&mut self, instr: Format1) -> (r: Cycle)
        requires
            old(self).wf(),
            instr.wf(),
        ensures
            (r, final(self)@) == instr.spec_exec::<B>(old(self)@),
            final(self).wf(),
    {
        let nn = instr.of.imm();
        match instr.op {
            Opcode1::LSL => self.lsl(instr.rd, instr.rs, nn),
            Opcode1::LSR => self.lsr(instr.rd, instr.rs, nn),
            Opcode1::ASR => self.asr(instr.rd, instr.rs, nn),
        }
    }
}


impl<B: Bus> Executable<B> for Format1 {
    open spec fn ready(self) -> bool {
        self.wf()
    }

    open spec fn dispatch_ok(self, s: CpuView<B::V>) -> bool {
        self.exec_ok::<B>(s)
    }

    open spec fn spec_dispatch(self, s: CpuView<B::V>) -> (Cycle, CpuView<B::V>) {
        self.spec_exec::<B>(s)
    }

    open spec fn spec_condition(self) -> Condition {
        Condition::AL
    }

    fn condition(&self) -> (r: Condition) {
        Condition::AL
    }

    fn dispatch(self, cpu: &mut Arm7tdmi<B>) -> (r: Cycle) {
        cpu.exec_thumb_format1(self)
    }
}

impl Format1 {
    /// The instruction as the listing writes it.
    pub open spec fn spec_text(self) -> Seq<char> {
        self.op.spec_name() + " R"@ + dec_text(self.rd as nat) + ", R"@ + dec_text(self.rs as nat) + ", #"@ + dec_text(self.of as nat)
    }

    /// The instruction as text (see `spec_text`).
    pub fn text(&self) -> (r: String)
        ensures
            r@ == self.spec_text(),
    {
        let mut r = String::from_str(self.op.name());
        r.append(" R");
        write_dec(&mut r, self.rd as u32);
        r.append(", R");
        write_dec(&mut r, self.rs as u32);
        r.append(", #");
        write_dec(&mut r, self.of as u32);
        r
    }
}

} // verus!
