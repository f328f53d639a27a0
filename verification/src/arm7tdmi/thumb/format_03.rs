use vstd::prelude::*;
use vstd::string::*;

use crate::arm7tdmi::{Arm7tdmi, CpuView};
use crate::arm7tdmi::common::{Carry, Condition, Cycle, Operand, OperandKind, ToOperand, spec_reg};
use crate::arm7tdmi::isa::Executable;
use crate::bus::memory::Bus;
use crate::utils::bits::{field, get_bits, get_bits_u8};
use crate::utils::text::{dec_text, write_dec};

verus! {

#[derive(Debug, Clone, Copy, PartialEq, Eq, Structural)]
pub enum Opcode3 {
    MOV,
    CMP,
    ADD,
    SUB,
}

impl Opcode3 {
    /// The name of the variant, as instruction listings write it.
    pub open spec fn spec_name(self) -> Seq<char> {
        match self {
            Opcode3::MOV => "MOV"@,
            Opcode3::CMP => "CMP"@,
            Opcode3::ADD => "ADD"@,
            Opcode3::SUB => "SUB"@,
        }
    }

    /// The name of the variant (see `spec_name`).
    pub fn name(&self) -> (r: &'static str)
        ensures
            r@ == self.spec_name(),
    {
        match self {
            Opcode3::MOV => "MOV",
            Opcode3::CMP => "CMP",
            Opcode3::ADD => "ADD",
            Opcode3::SUB => "SUB",
        }
    }
}

impl Opcode3 {
    pub open spec fn spec_new(v: u32) -> Opcode3 {
        if v == 0 {
            Opcode3::MOV
        } else if v == 1 {
            Opcode3::CMP
        } else if v == 2 {
            Opcode3::ADD
        } else {
            Opcode3::SUB
        }
    }

    /// The variant encoded by `v`.
    pub fn new(v: u32) -> (r: Opcode3)
        requires
            v < 4,
        ensures
            r == Opcode3::spec_new(v),
    {
        if v == 0 {
            Opcode3::MOV
        } else if v == 1 {
            Opcode3::CMP
        } else if v == 2 {
            Opcode3::ADD
        } else {
            Opcode3::SUB
        }
    }
}
/// Move/compare/add/subtract immediate
///
/// `001 | Op(12-11) | Rd(10-8) | Offset8(7-0)`
#[derive(Debug, Clone, Copy, PartialEq, Eq, Structural)]
pub struct Format3 {
    pub op: Opcode3,
    pub rd: u8,
    pub nn: u8,
}

impl Format3 {
    pub open spec fn spec_from(v: u32) -> Format3 {
        Format3 {
            op: Opcode3::spec_new(field(v, 11, 0x3)),
            rd: field(v, 8, 0x7) as u8,
            nn: field(v, 0, 0xFF) as u8,
        }
    }

    pub fn from(v: u32) -> (r: Format3)
        ensures
            r == Format3::spec_from(v),
            r.rd < 8,
    {
        let op = Opcode3::new(get_bits(v, 11, 0x3));
        let rd = get_bits_u8(v, 8, 0x7);
        let nn = get_bits_u8(v, 0, 0xFF);
        Format3 { op, rd, nn }
    }
}

impl Format3 {
    /// Register numbers are in range.
    pub open spec fn wf(self) -> bool {
        self.rd < 8
    }

    /// Whether executing the instruction in state `s` is defined.
    pub open spec fn exec_ok<B: Bus>(self, s: CpuView<B::V>) -> bool {
        true
    }

    /// Processor state and cycles after executing the instruction in state `s`.
    pub open spec fn spec_exec<B: Bus>(self, s: CpuView<B::V>) -> (Cycle, CpuView<B::V>) {
        let nn = Operand { kind: OperandKind::Imm, value: self.nn as u32, negate: false, shift: None };
        match self.op {
            Opcode3::MOV => s.spec_mov(self.rd, nn, true),
            Opcode3::CMP => s.spec_add_sub(None, spec_reg(self.rd), Operand { negate: true, ..nn }, Carry::One, true),
            Opcode3::ADD => s.spec_add_sub(Some(self.rd), spec_reg(self.rd), nn, Carry::Zero, true),
            Opcode3::SUB => s.spec_add_sub(Some(self.rd), spec_reg(self.rd), Operand { negate: true, ..nn }, Carry::One, true),
        }
    }
}

impl<B: Bus> Arm7tdmi<B> {
    /// Executes a THUMB instruction of class "move/compare/add/subtract immediate".
    pub fn exec_thumb_format3(&mut self, instr: Format3) -> (r: Cycle)
        requires
            old(self).wf(),
            instr.wf(),
        ensures
            (r, final(self)@) == instr.spec_exec::<B>(old(self)@),
            final(self).wf(),
    {
        let nn = instr.nn.imm();
        match instr.op {
            Opcode3::MOV => self.mov(instr.rd, nn, true),
            Opcode3::CMP => self.cmp(instr.rd, nn, true),
            Opcode3::ADD => self.add(instr.rd, instr.rd, nn, true),
            Opcode3::SUB => self.sub(instr.rd, instr.rd, nn, true),
        }
    }
}

impl<B: Bus> Executable<B> for Format3 {
    open spec fn ready(self) -> bool {
        self.wf()
    }

    open spec fn dispatch_ok(self, s: CpuView<B::V>) -> bool {
        self.exec_ok::<B>(s)
    }

    open spec fn spec_dispatch(self, s: CpuView<B::V>) -> (Cycle, CpuView<B::V>) {
        self.spec_exec::<B>(s)
    }

    open spec fn spec_condition(self) -> Condition {
        Condition::AL
    }

    fn condition(&self) -> (r: Condition) {
        Condition::AL
    }

    fn dispatch(self, cpu: &mut Arm7tdmi<B>) -> (r: Cycle) {
        cpu.exec_thumb_format3(self)
    }
}

impl Format3 {
    /// The instruction as the listing writes it.
    pub open spec fn spec_text(self) -> Seq<char> {
        self.op.spec_name() + " R"@ + dec_text(self.rd as nat) + ", #"@ + dec_text(self.nn as nat)
    }

    /// The instruction as text (see `spec_text`).
    pub fn text(&self) -> (r: String)
        ensures
            r@ == self.spec_text(),
    {
        let mut r = String::from_str(self.op.name());
        r.append(" R");
        write_dec(&mut r, self.rd as u32);
        r.append(", #");
        write_dec(&mut r, self.nn as u32);
        r
    }
}

} // verus!
