use vstd::prelude::*;
use vstd::string::*;

use crate::arm7tdmi::{Arm7tdmi, CpuView};
use crate::arm7tdmi::common::{AddrMode, Condition, Cycle, DataType, RegisterOffset};
use crate::arm7tdmi::isa::Executable;
use crate::arm7tdmi::ops::{spec_ldr, spec_str};
use crate::bus::memory::Bus;
use crate::utils::bits::{field, get_bits, get_bits_u8};
use crate::utils::text::{dec_text, write_dec};

verus! {

#[derive(Debug, Clone, Copy, PartialEq, Eq, Structural)]
pub enum Opcode8 {
    STRH,
    LDSB,
    LDSH,
}

impl Opcode8 {
    /// The name of the variant, as instruction listings write it.
    pub open spec fn spec_name(self) -> Seq<char> {
        match self {
            Opcode8::STRH => "STRH"@,
            Opcode8::LDSB => "LDSB"@,
            Opcode8::LDSH => "LDSH"@,
        }
    }

    /// The name of the variant (see `spec_name`).
    pub fn name(&self) -> (r: &'static str)
        ensures
            r@ == self.spec_name(),
    {
        match self {
            Opcode8::STRH => "STRH",
            Opcode8::LDSB => "LDSB",
            Opcode8::LDSH => "LDSH",
        }
    }
}

impl Opcode8 {
    pub open spec fn spec_new(v: u32) -> Opcode8 {
        if v == 0 {
            Opcode8::STRH
        } else if v == 1 {
            Opcode8::LDSB
        } else {
            Opcode8::LDSH
        }
    }

    /// The variant encoded by `v`.
    pub fn new(v: u32) -> (r: Opcode8)
        requires
            v < 4,
        ensures
            r == Opcode8::spec_new(v),
    {
        if v == 0 {
            Opcode8::STRH
        } else if v == 1 {
            Opcode8::LDSB
        } else {
            Opcode8::LDSH
        }
    }
}
/// Load/store sign-extended byte/halfword
///
/// `0101 | Op(11-10) | 1 | Ro(8-6) | Rb(5-3) | Rd(2-0)`
#[derive(Debug, Clone, Copy, PartialEq, Eq, Structural)]
pub struct Format8 {
    pub op: Opcode8,
    pub ro: u8,
    pub rb: u8,
    pub rd: u8,
}

impl Format8 {
    pub open spec fn spec_from(v: u32) -> Format8 {
        Format8 {
            op: Opcode8::spec_new(field(v, 10, 0x3)),
            ro: field(v, 6, 0x7) as u8,
            rb: field(v, 3, 0x7) as u8,
            rd: field(v, 0, 0x7) as u8,
        }
    }

    pub fn from(v: u32) -> (r: Format8)
        ensures
            r == Format8::spec_from(v),
            r.ro < 8 && r.rb < 8 && r.rd < 8,
    {
        let op = Opcode8::new(get_bits(v, 10, 0x3));
        let ro = get_bits_u8(v, 6, 0x7);
        let rb = get_bits_u8(v, 3, 0x7);
        let rd = get_bits_u8(v, 0, 0x7);
        Format8 { op, ro, rb, rd }
    }
}

impl Format8 {
    /// Register numbers are in range.
    pub open spec fn wf(self) -> bool {
        self.ro < 8 && self.rb < 8 && self.rd < 8
    }

    /// Whether executing the instruction in state `s` is defined.
    pub open spec fn exec_ok<B: Bus>(self, s: CpuView<B::V>) -> bool {
        true
    }

    /// Processor state and cycles after executing the instruction in state `s`.
    pub open spec fn spec_exec<B: Bus>(self, s: CpuView<B::V>) -> (Cycle, CpuView<B::V>) {
        let offset = RegisterOffset { amod: AddrMode::IB, wb: false, value: s.get_reg(self.ro as int) };
        match self.op {
            Opcode8::STRH => spec_str::<B>(s, self.rd, self.rb, DataType::HWord, offset),
            Opcode8::LDSB => spec_ldr::<B>(s, self.rd, self.rb, DataType::Byte, true, offset),
            Opcode8::LDSH => spec_ldr::<B>(s, self.rd, self.rb, DataType::HWord, true, offset),
        }
    }
}

impl<B: Bus> Arm7tdmi<B> {
    /// Executes a THUMB instruction of class "load/store sign-extended byte/half-word".
    pub fn exec_thumb_format8(&mut self, instr: Format8) -> (r: Cycle)
        requires
            old(self).wf(),
            instr.wf(),
        ensures
            (r, final(self)@) == instr.spec_exec::<B>(old(self)@),
            final(self).wf(),
    {
        let value = self.get_reg(instr.ro as usize);
        let offset = RegisterOffset::new(value, AddrMode::IB, false);
        match instr.op {
            Opcode8::STRH => self.strh(instr.rd, instr.rb, offset),
            Opcode8::LDSB => self.ldsb(instr.rd, instr.rb, offset),
            Opcode8::LDSH => self.ldsh(instr.rd, instr.rb, offset),
        }
    }
}

impl<B: Bus> Executable<B> for Format8 {
    open spec fn ready(self) -> bool {
        self.wf()
    }

    open spec fn dispatch_ok(self, s: CpuView<B::V>) -> bool {
        self.exec_ok::<B>(s)
    }

    open spec fn spec_dispatch(self, s: CpuView<B::V>) -> (Cycle, CpuView<B::V>) {
        self.spec_exec::<B>(s)
    }

    open spec fn spec_condition(self) -> Condition {
        Condition::AL
    }

    fn condition(&self) -> (r: Condition) {
        Condition::AL
    }

    fn dispatch(self, cpu: &mut Arm7tdmi<B>) -> (r: Cycle) {
        cpu.exec_thumb_format8(self)
    }
}

impl Format8 {
    /// The instruction as the listing writes it.
    pub open spec fn spec_text(self) -> Seq<char> {
        self.op.spec_name() + " R"@ + dec_text(self.rd as nat) + ", [R"@ + dec_text(self.rb as nat) + ", R"@ + dec_text(self.ro as nat) + "]"@
    }

    /// The instruction as text (see `spec_text`).
    pub fn text(&self) -> (r: String)
        ensures
            r@ == self.spec_text(),
    {
        let mut r = String::from_str(self.op.name());
        r.append(" R");
        write_dec(&mut r, self.rd as u32);
        r.append(", [R");
        write_dec(&mut r, self.rb as u32);
        r.append(", R");
        write_dec(&mut r, self.ro as u32);
        r.append("]");
        r
    }
}

} // verus!
