use vstd::prelude::*;
use vstd::string::*;

use crate::arm7tdmi::{Arm7tdmi, CpuView};
use crate::arm7tdmi::common::{AddrMode, Condition, Cycle, DataType, Operand, OperandKind, RegisterOffset, ToOperand};
use crate::arm7tdmi::isa::Executable;
use crate::arm7tdmi::ops::{spec_ldr, spec_str};
use crate::bus::memory::Bus;
use crate::utils::bits::{bit, field, get_bits, get_bits_u8, is_set};
use crate::utils::text::{dec_text, write_dec};

verus! {

/// Half-word and signed transfers.
#[derive(Debug, Clone, Copy, PartialEq, Eq, Structural)]
pub enum Opcode {
    STRH,
    LDRH,
    LDSB,
    LDSH,
}

impl Opcode {
    /// The name of the variant, as instruction listings write it.
    pub open spec fn spec_name(self) -> Seq<char> {
        match self {
            Opcode::STRH => "STRH"@,
            Opcode::LDRH => "LDRH"@,
            Opcode::LDSB => "LDSB"@,
            Opcode::LDSH => "LDSH"@,
        }
    }

    /// The name of the variant (see `spec_name`).
    pub fn name(&self) -> (r: &'static str)
        ensures
            r@ == self.spec_name(),
    {
        match self {
            Opcode::STRH => "STRH",
            Opcode::LDRH => "LDRH",
            Opcode::LDSB => "LDSB",
            Opcode::LDSH => "LDSH",
        }
    }
}

impl Opcode {
    /// Whether the load bit `l` and the SH field `sh` name a transfer.
    pub open spec fn valid(l: bool, sh: u32) -> bool {
        sh == 1 || (l && (sh == 2 || sh == 3))
    }

    pub open spec fn spec_new(l: bool, sh: u32) -> Opcode {
        if !l {
            Opcode::STRH
        } else if sh == 1 {
            Opcode::LDRH
        } else if sh == 2 {
            Opcode::LDSB
        } else {
            Opcode::LDSH
        }
    }

    pub fn new(l: bool, sh: u32) -> (r: Opcode)
        requires
            Opcode::valid(l, sh),
        ensures
            r == Opcode::spec_new(l, sh),
    {
        if !l {
            Opcode::STRH
        } else if sh == 1 {
            Opcode::LDRH
        } else if sh == 2 {
            Opcode::LDSB
        } else {
            Opcode::LDSH
        }
    }
}

/// Half-word and signed data transfer
///
/// `Cond(31-28) | 000 | P(24) | U(23) | I(22) | W(21) | L(20) | Rn(19-16) | Rd(15-12) | OffsetHi(11-8) | 1 | S(6) | H(5) | 1 | Rm/OffsetLo(3-0)`; write-back is taken from bit 22 or post-indexing
#[derive(Debug, Clone, Copy, PartialEq, Eq, Structural)]
pub struct Instruction {
    pub op: Opcode,
    pub cd: Condition,
    pub amod: AddrMode,
    pub wb: bool,
    pub rd: u8,
    pub rn: u8,
    pub of: Operand,
}

impl Instruction {
    pub open spec fn decodable(v: u32) -> bool {
        field(v, 28, 0xF) < 15 && Opcode::valid(bit(v, 20), field(v, 5, 0x3))
    }

    pub open spec fn spec_from(v: u32) -> Instruction {
        let p = field(v, 24, 0x1) as u8;
        Instruction {
            op: Opcode::spec_new(bit(v, 20), field(v, 5, 0x3)),
            cd: Condition::spec_new(field(v, 28, 0xF) as u8),
            amod: AddrMode::spec_new(p, field(v, 23, 0x1) as u8),
            wb: bit(v, 22) || p == 0,
            rd: field(v, 12, 0xF) as u8,
            rn: field(v, 16, 0xF) as u8,
            of: if bit(v, 22) {
                Operand {
                    kind: OperandKind::Imm,
                    value: (field(v, 8, 0xF) * 16 + field(v, 0, 0xF)) as u32,
                    negate: false,
                    shift: None,
                }
            } else {
                Operand { kind: OperandKind::Reg, value: field(v, 0, 0xF), negate: false, shift: None }
            },
        }
    }

    pub fn from(v: u32) -> (r: Instruction)
        requires
            Instruction::decodable(v),
        ensures
            r == Instruction::spec_from(v),
            r.rd < 16 && r.rn < 16,
            r.of.wf(),
    {
        let cd = Condition::new(get_bits_u8(v, 28, 0xF));
        let p = get_bits_u8(v, 24, 0x1);
        let u = get_bits_u8(v, 23, 0x1);
        let wb = is_set(v, 22) || p == 0;
        let rn = get_bits_u8(v, 16, 0xF);
        let rd = get_bits_u8(v, 12, 0xF);
        let op = Opcode::new(is_set(v, 20), get_bits(v, 5, 0x3));
        let amod = AddrMode::new(p, u);
        let of = if is_set(v, 22) {
            (get_bits(v, 8, 0xF) * 16 + get_bits(v, 0, 0xF)).imm()
        } else {
            get_bits(v, 0, 0xF).reg()
        };
        Instruction { op, cd, amod, wb, rd, rn, of }
    }
}

impl Instruction {
    /// Register numbers and operands are in range.
    pub open spec fn wf(self) -> bool {
        self.rd < 16 && self.rn < 16 && self.of.wf()
    }

    /// Whether executing the instruction in state `s` is defined.
    pub open spec fn exec_ok<B: Bus>(self, s: CpuView<B::V>) -> bool {
        true
    }

    /// Processor state and cycles after executing the instruction in state
    /// `s`; an instruction whose condition fails takes one sequential cycle.
    pub open spec fn spec_exec<B: Bus>(self, s: CpuView<B::V>) -> (Cycle, CpuView<B::V>) {
        if !s.cpsr.spec_matches(self.cd) {
            (Cycle { i: 0, s: 1, n: 0 }, s)
        } else {
            let offset = RegisterOffset { amod: self.amod, wb: self.wb, value: s.operand_eval(self.of, false).0 };
            match self.op {
                Opcode::STRH => spec_str::<B>(s, self.rd, self.rn, DataType::HWord, offset),
                Opcode::LDRH => spec_ldr::<B>(s, self.rd, self.rn, DataType::HWord, false, offset),
                Opcode::LDSB => spec_ldr::<B>(s, self.rd, self.rn, DataType::Byte, true, offset),
                Opcode::LDSH => spec_ldr::<B>(s, self.rd, self.rn, DataType::HWord, true, offset),
            }
        }
    }
}

impl<B: Bus> Arm7tdmi<B> {
    /// Executes an ARM instruction of class "half-word and signed data transfer".
    pub fn exec_arm_format07(&mut self, instr: Instruction) -> (r: Cycle)
        requires
            old(self).wf(),
            instr.wf(),
        ensures
            (r, final(self)@) == instr.spec_exec::<B>(old(self)@),
            final(self).wf(),
    {
        if !self.cpsr.matches(instr.cd) {
            return Cycle { i: 0, s: 1, n: 0 };
        }
        let value = self.get_operand(instr.of);
        let offset = RegisterOffset::new(value, instr.amod, instr.wb);
        match instr.op {
            Opcode::STRH => self.strh(instr.rd, instr.rn, offset),
            Opcode::LDRH => self.ldrh(instr.rd, instr.rn, offset),
            Opcode::LDSB => self.ldsb(instr.rd, instr.rn, offset),
            Opcode::LDSH => self.ldsh(instr.rd, instr.rn, offset),
        }
    }
}

impl<B: Bus> Executable<B> for Instruction {
    open spec fn ready(self) -> bool {
        self.wf()
    }

    open spec fn dispatch_ok(self, s: CpuView<B::V>) -> bool {
        self.exec_ok::<B>(s)
    }

    open spec fn spec_dispatch(self, s: CpuView<B::V>) -> (Cycle, CpuView<B::V>) {
        self.spec_exec::<B>(s)
    }

    open spec fn spec_condition(self) -> Condition {
        self.cd
    }

    fn condition(&self) -> (r: Condition) {
        self.cd
    }

    fn dispatch(self, cpu: &mut Arm7tdmi<B>) -> (r: Cycle) {
        cpu.exec_arm_format07(self)
    }
}

impl Opcode {
    /// The name split after its third letter, where the condition goes.
    pub fn name_parts(&self) -> (r: (&'static str, &'static str))
        ensures
            r.0@ == self.spec_name().subrange(0, 3),
            r.1@ == self.spec_name().subrange(3, self.spec_name().len() as int),
    {
        proof {
            reveal_strlit("STRH");
            reveal_strlit("LDRH");
            reveal_strlit("LDSB");
            reveal_strlit("LDSH");
            reveal_strlit("STR");
            reveal_strlit("LDR");
            reveal_strlit("LDS");
            reveal_strlit("H");
            reveal_strlit("B");
        }
        match self {
            Opcode::STRH => {
                assert("STRH"@.subrange(0, 3) =~= "STR"@);
                assert("STRH"@.subrange(3, 4) =~= "H"@);
                ("STR", "H")
            },
            Opcode::LDRH => {
                assert("LDRH"@.subrange(0, 3) =~= "LDR"@);
                assert("LDRH"@.subrange(3, 4) =~= "H"@);
                ("LDR", "H")
            },
            Opcode::LDSB => {
                assert("LDSB"@.subrange(0, 3) =~= "LDS"@);
                assert("LDSB"@.subrange(3, 4) =~= "B"@);
                ("LDS", "B")
            },
            Opcode::LDSH => {
                assert("LDSH"@.subrange(0, 3) =~= "LDS"@);
                assert("LDSH"@.subrange(3, 4) =~= "H"@);
                ("LDS", "H")
            },
        }
    }
}

impl Instruction {
    /// The address part of the listing: base register, offset and the
    /// direction in which the offset goes.
    pub open spec fn spec_addr_text(self) -> Seq<char> {
        let rn = "[R"@ + dec_text(self.rn as nat);
        let imm = self.of.kind is Imm;
        match self.amod {
            AddrMode::IB => if imm && self.of.value == 0 {
                rn + "]"@
            } else {
                rn + ", "@ + self.of.spec_text() + "]"@
            },
            AddrMode::DB => if imm && self.of.value == 0 {
                rn + "]"@
            } else if imm {
                rn + ", #-"@ + dec_text(self.of.value as nat) + "]"@
            } else {
                rn + ", -"@ + self.of.spec_text() + "]"@
            },
            AddrMode::IA => rn + "], "@ + self.of.spec_text(),
            AddrMode::DA => if imm {
                rn + "], #-"@ + dec_text(self.of.value as nat)
            } else {
                rn + "], -"@ + self.of.spec_text()
            },
        }
    }

    /// The instruction as the listing writes it: the condition goes after
    /// the third letter of the name, and a pre-indexed address that is
    /// written back ends in `!`.
    pub open spec fn spec_text(self) -> Seq<char> {
        let name = self.op.spec_name();
        name.subrange(0, 3) + self.cd.spec_name() + name.subrange(3, name.len() as int) + " R"@
            + dec_text(self.rd as nat) + ", "@ + self.spec_addr_text() + (if self.wb && (
        self.amod is IB || self.amod is DB) {
            "!"@
        } else {
            ""@
        })
    }

    fn addr_text(&self) -> (r: String)
        ensures
            r@ == self.spec_addr_text(),
    {
        let mut r = String::from_str("[R");
        write_dec(&mut r, self.rn as u32);
        let imm = self.of.is_imm();
        match self.amod {
            AddrMode::IB => {
                if imm && self.of.value == 0 {
                    r.append("]");
                } else {
                    r.append(", ");
                    r.append(self.of.text().as_str());
                    r.append("]");
                }
            },
            AddrMode::DB => {
                if imm && self.of.value == 0 {
                    r.append("]");
                } else if imm {
                    r.append(", #-");
                    write_dec(&mut r, self.of.value);
                    r.append("]");
                } else {
                    r.append(", -");
                    r.append(self.of.text().as_str());
                    r.append("]");
                }
            },
            AddrMode::IA => {
                r.append("], ");
                r.append(self.of.text().as_str());
            },
            AddrMode::DA => {
                if imm {
                    r.append("], #-");
                    write_dec(&mut r, self.of.value);
                } else {
                    r.append("], -");
                    r.append(self.of.text().as_str());
                }
            },
        }
        r
    }

    /// The instruction as text (see `spec_text`).
    pub fn text(&self) -> (r: String)
        ensures
            r@ == self.spec_text(),
    {
        let (prefix, suffix) = self.op.name_parts();
        let mut r = String::from_str(prefix);
        r.append(self.cd.name());
        r.append(suffix);
        r.append(" R");
        write_dec(&mut r, self.rd as u32);
        r.append(", ");
        r.append(self.addr_text().as_str());
        let pre = match self.amod {
            AddrMode::IB | AddrMode::DB => true,
            _ => false,
        };
        r.append(if self.wb && pre { "!" } else { "" });
        r
    }
}

} // verus!
