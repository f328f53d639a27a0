use vstd::prelude::*;
use vstd::string::*;

use crate::arm7tdmi::{Arm7tdmi, CpuView};
use crate::arm7tdmi::common::{Carry, Condition, Cycle, Operand, OperandKind, ToOperand, spec_reg};
use crate::arm7tdmi::isa::Executable;
use crate::bus::memory::Bus;
use crate::utils::bits::{bit, field, get_bits, get_bits_u8, is_set};
use crate::utils::text::{dec_text, write_dec};

verus! {

#[derive(Debug, Clone, Copy, PartialEq, Eq, Structural)]
pub enum Opcode2 {
    ADD,
    SUB,
}

impl Opcode2 {
    /// The name of the variant, as instruction listings write it.
    pub open spec fn spec_name(self) -> Seq<char> {
        match self {
            Opcode2::ADD => "ADD"@,
            Opcode2::SUB => "SUB"@,
        }
    }

    /// The name of the variant (see `spec_name`).
    pub fn name(&self) -> (r: &'static str)
        ensures
            r@ == self.spec_name(),
    {
        match self {
            Opcode2::ADD => "ADD",
            Opcode2::SUB => "SUB",
        }
    }
}

impl Opcode2 {
    pub open spec fn spec_new(v: u32) -> Opcode2 {
        if v == 0 || v == 2 {
            Opcode2::ADD
        } else {
            Opcode2::SUB
        }
    }

    /// The variant encoded by `v`.
    pub fn new(v: u32) -> (r: Opcode2)
        requires
            v < 4,
        ensures
            r == Opcode2::spec_new(v),
    {
        if v == 0 || v == 2 {
            Opcode2::ADD
        } else {
            Opcode2::SUB
        }
    }
}
/// Add/subtract
///
/// `00011 | I(10) | Op(9) | Rn/Offset3(8-6) | Rs(5-3) | Rd(2-0)`
#[derive(Debug, Clone, Copy, PartialEq, Eq, Structural)]
pub struct Format2 {
    pub op: Opcode2,
    pub nn: Operand,
    pub rs: u8,
    pub rd: u8,
}

impl Format2 {
    pub open spec fn spec_from(v: u32) -> Format2 {
        Format2 {
            op: Opcode2::spec_new(field(v, 9, 0x3)),
            nn: Operand {
                kind: if bit(v, 10) { OperandKind::Imm } else { OperandKind::Reg },
                value: field(v, 6, 0x7),
                negate: false,
                shift: None,
            },
            rs: field(v, 3, 0x7) as u8,
            rd: field(v, 0, 0x7) as u8,
        }
    }

    pub fn from(v: u32) -> (r: Format2)
        ensures
            r == Format2::spec_from(v),
            r.rs < 8 && r.rd < 8 && r.nn.value < 8,
    {
        let op = Opcode2::new(get_bits(v, 9, 0x3));
        let operand = get_bits(v, 6, 0x7);
        let rs = get_bits_u8(v, 3, 0x7);
        let rd = get_bits_u8(v, 0, 0x7);
        let nn = if is_set(v, 10) {
            operand.imm()
        } else {
            operand.reg()
        };
        Format2 { op, nn, rs, rd }
    }
}

impl Format2 {
    /// Register numbers are in range.
    pub open spec fn wf(self) -> bool {
        self.rs < 8 && self.rd < 8 && self.nn.wf()
    }

    /// Whether executing the instruction in state `s` is defined.
    pub open spec fn exec_ok<B: Bus>(self, s: CpuView<B::V>) -> bool {
        true
    }

    /// Processor state and cycles after executing the instruction in state `s`.
    pub open spec fn spec_exec<B: Bus>(self, s: CpuView<B::V>) -> (Cycle, CpuView<B::V>) {
        match self.op {
            Opcode2::ADD => s.spec_add_sub(Some(self.rd), spec_reg(self.rs), self.nn, Carry::Zero, true),
            Opcode2::SUB => s.spec_add_sub(Some(self.rd), spec_reg(self.rs), Operand { negate: true, ..self.nn }, Carry::One, true),
        }
    }
}

impl<B: Bus> Arm7tdmi<B> {
    /// Executes a THUMB instruction of class "add/subtract".
    pub fn exec_thumb_format2(&mut self, instr: Format2) -> (r: Cycle)
        requires
            old(self).wf(),
            instr.wf(),
        ensures
            (r, final(self)@) == instr.spec_exec::<B>(old(self)@),
            final(self).wf(),
    {
        match instr.op {
            Opcode2::ADD => self.add(instr.rd, instr.rs, instr.nn, true),
            Opcode2::SUB => self.sub(instr.rd, instr.rs, instr.nn, true),
        }
    }
}

impl<B: Bus> Executable<B> for Format2 {
    open spec fn ready(self) -> bool {
        self.wf()
    }

    open spec fn dispatch_ok(self, s: CpuView<B::V>) -> bool {
        self.exec_ok::<B>(s)
    }

    open spec fn spec_dispatch(self, s: CpuView<B::V>) -> (Cycle, CpuView<B::V>) {
        self.spec_exec::<B>(s)
    }

    open spec fn spec_condition(self) -> Condition {
        Condition::AL
    }

    fn condition(&self) -> (r: Condition) {
        Condition::AL
    }

    fn dispatch(self, cpu: &mut Arm7tdmi<B>) -> (r: Cycle) {
        cpu.exec_thumb_format2(self)
    }
}

impl Format2 {
    /// The instruction as the listing writes it.
    pub open spec fn spec_text(self) -> Seq<char> {
        self.op.spec_name() + " R"@ + dec_text(self.rd as nat) + ", R"@ + dec_text(self.rs as nat) + ", "@ + self.nn.spec_text()
    }

    /// The instruction as text (see `spec_text`).
    pub fn text(&self) -> (r: String)
        ensures
            r@ == self.spec_text(),
    {
        let mut r = String::from_str(self.op.name());
        r.append(" R");
        write_dec(&mut r, self.rd as u32);
        r.append(", R");
        write_dec(&mut r, self.rs as u32);
        r.append(", ");
        r.append(self.nn.text().as_str());
        r
    }
}

} // verus!
