use vstd::prelude::*;
use vstd::string::*;

use crate::arm7tdmi::{Arm7tdmi, CpuView};
use crate::arm7tdmi::common::{Carry, Condition, Cycle, Operand, ToOperand, spec_reg};
use crate::arm7tdmi::isa::Executable;
use crate::bus::memory::Bus;
use crate::utils::bits::{field, get_bits, get_bits_u8};
use crate::utils::text::{dec_text, write_dec};

verus! {

#[derive(Debug, Clone, Copy, PartialEq, Eq, Structural)]
pub enum Opcode5 {
    ADD,
    CMP,
    MOV,
    BX,
}

impl Opcode5 {
    /// The name of the variant, as instruction listings write it.
    pub open spec fn spec_name(self) -> Seq<char> {
        match self {
            Opcode5::ADD => "ADD"@,
            Opcode5::CMP => "CMP"@,
            Opcode5::MOV => "MOV"@,
            Opcode5::BX => "BX"@,
        }
    }

    /// The name of the variant (see `spec_name`).
    pub fn name(&self) -> (r: &'static str)
        ensures
            r@ == self.spec_name(),
    {
        match self {
            Opcode5::ADD => "ADD",
            Opcode5::CMP => "CMP",
            Opcode5::MOV => "MOV",
            Opcode5::BX => "BX",
        }
    }
}

impl Opcode5 {
    pub open spec fn spec_new(v: u32) -> Opcode5 {
        if v == 0 {
            Opcode5::ADD
        } else if v == 1 {
            Opcode5::CMP
        } else if v == 2 {
            Opcode5::MOV
        } else {
            Opcode5::BX
        }
    }

    /// The variant encoded by `v`.
    pub fn new(v: u32) -> (r: Opcode5)
        requires
            v < 4,
        ensures
            r == Opcode5::spec_new(v),
    {
        if v == 0 {
            Opcode5::ADD
        } else if v == 1 {
            Opcode5::CMP
        } else if v == 2 {
            Opcode5::MOV
        } else {
            Opcode5::BX
        }
    }
}
/// Hi register operations/branch exchange
///
/// `010001 | Op(9-8) | Hd(7) | Hs(6) | Rs/Hs(5-3) | Rd/Hd(2-0)`
#[derive(Debug, Clone, Copy, PartialEq, Eq, Structural)]
pub struct Format5 {
    pub op: Opcode5,
    pub rs: u8,
    pub rd: u8,
}

impl Format5 {
    pub open spec fn spec_from(v: u32) -> Format5 {
        Format5 {
            op: Opcode5::spec_new(field(v, 8, 0x3)),
            rs: (field(v, 3, 0x7) + field(v, 6, 0x1) * 8) as u8,
            rd: (field(v, 0, 0x7) + field(v, 7, 0x1) * 8) as u8,
        }
    }

    pub fn from(v: u32) -> (r: Format5)
        ensures
            r == Format5::spec_from(v),
            r.rs < 16 && r.rd < 16,
    {
        let op = Opcode5::new(get_bits(v, 8, 0x3));
        let msbd = get_bits_u8(v, 7, 0x1);
        let msbs = get_bits_u8(v, 6, 0x1);
        let rs = get_bits_u8(v, 3, 0x7);
        let rd = get_bits_u8(v, 0, 0x7);
        Format5 { op, rs: rs + msbs * 8, rd: rd + msbd * 8 }
    }
}

impl Format5 {
    /// Register numbers are in range.
    pub open spec fn wf(self) -> bool {
        self.rs < 16 && self.rd < 16
    }

    /// Whether executing the instruction in state `s` is defined.
    pub open spec fn exec_ok<B: Bus>(self, s: CpuView<B::V>) -> bool {
        true
    }

    /// Processor state and cycles after executing the instruction in state `s`.
    pub open spec fn spec_exec<B: Bus>(self, s: CpuView<B::V>) -> (Cycle, CpuView<B::V>) {
        let rs = spec_reg(self.rs);
        match self.op {
            Opcode5::ADD => s.spec_add_sub(Some(self.rd), spec_reg(self.rd), rs, Carry::Zero, false),
            Opcode5::CMP => s.spec_add_sub(None, spec_reg(self.rd), Operand { negate: true, ..rs }, Carry::One, true),
            Opcode5::MOV => s.spec_mov(self.rd, rs, false),
            Opcode5::BX => s.spec_bx(self.rs),
        }
    }
}

impl<B: Bus> Arm7tdmi<B> {
    /// Executes a THUMB instruction of class "hi register operations/branch exchange".
    pub fn exec_thumb_format5(&mut self, instr: Format5) -> (r: Cycle)
        requires
            old(self).wf(),
            instr.wf(),
        ensures
            (r, final(self)@) == instr.spec_exec::<B>(old(self)@),
            final(self).wf(),
    {
        let rs = instr.rs.reg();
        match instr.op {
            Opcode5::ADD => self.add(instr.rd, instr.rd, rs, false),
            Opcode5::CMP => self.cmp(instr.rd, rs, true),
            Opcode5::MOV => self.mov(instr.rd, rs, false),
            Opcode5::BX => self.bx(instr.rs),
        }
    }
}

impl<B: Bus> Executable<B> for Format5 {
    open spec fn ready(self) -> bool {
        self.wf()
    }

    open spec fn dispatch_ok(self, s: CpuView<B::V>) -> bool {
        self.exec_ok::<B>(s)
    }

    open spec fn spec_dispatch(self, s: CpuView<B::V>) -> (Cycle, CpuView<B::V>) {
        self.spec_exec::<B>(s)
    }

    open spec fn spec_condition(self) -> Condition {
        Condition::AL
    }

    fn condition(&self) -> (r: Condition) {
        Condition::AL
    }

    fn dispatch(self, cpu: &mut Arm7tdmi<B>) -> (r: Cycle) {
        cpu.exec_thumb_format5(self)
    }
}

impl Format5 {
    /// The instruction as the listing writes it.
    pub open spec fn spec_text(self) -> Seq<char> {
        if self.op is BX {
            "BX R"@ + dec_text(self.rs as nat)
        } else {
            self.op.spec_name() + " R"@ + dec_text(self.rd as nat) + ", R"@ + dec_text(self.rs as nat)
        }
    }

    /// The instruction as text (see `spec_text`).
    pub fn text(&self) -> (r: String)
        ensures
            r@ == self.spec_text(),
    {
        if let Opcode5::BX = self.op {
            let mut r = String::from_str("BX R");
            write_dec(&mut r, self.rs as u32);
            r
        } else {
            let mut r = String::from_str(self.op.name());
            r.append(" R");
            write_dec(&mut r, self.rd as u32);
            r.append(", R");
            write_dec(&mut r, self.rs as u32);
            r
        }
    }
}

} // verus!
