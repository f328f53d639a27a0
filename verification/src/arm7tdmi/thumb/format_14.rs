use vstd::prelude::*;
use vstd::string::*;

use crate::arm7tdmi::{Arm7tdmi, CpuView};
use crate::arm7tdmi::common::{AddrMode, Condition, Cycle, NamedRegister, format_rlist, spec_format_rlist};
use crate::arm7tdmi::isa::Executable;
use crate::arm7tdmi::ops::{spec_ldm, spec_push};
use crate::bus::memory::Bus;
use crate::utils::bits::{bit, field, get_bits, get_bits_u8, is_set};

verus! {

#[derive(Debug, Clone, Copy, PartialEq, Eq, Structural)]
pub enum Opcode14 {
    PUSH,
    POP,
}

impl Opcode14 {
    /// The name of the variant, as instruction listings write it.
    pub open spec fn spec_name(self) -> Seq<char> {
        match self {
            Opcode14::PUSH => "PUSH"@,
            Opcode14::POP => "POP"@,
        }
    }

    /// The name of the variant (see `spec_name`).
    pub fn name(&self) -> (r: &'static str)
        ensures
            r@ == self.spec_name(),
    {
        match self {
            Opcode14::PUSH => "PUSH",
            Opcode14::POP => "POP",
        }
    }
}

impl Opcode14 {
    pub open spec fn spec_new(v: u32) -> Opcode14 {
        if v == 0 {
            Opcode14::PUSH
        } else {
            Opcode14::POP
        }
    }

    /// The variant encoded by `v`.
    pub fn new(v: u32) -> (r: Opcode14)
        requires
            v < 2,
        ensures
            r == Opcode14::spec_new(v),
    {
        if v == 0 {
            Opcode14::PUSH
        } else {
            Opcode14::POP
        }
    }
}
/// Push/pop registers
///
/// `1011 | Op(11) | 10 | R(8) | Rlist(7-0)`; R adds LR to a push and PC to a pop
#[derive(Debug, Clone, Copy, PartialEq, Eq, Structural)]
pub struct Instruction {
    pub op: Opcode14,
    pub lrpc: bool,
    pub rlist: u8,
}

impl Instruction {
    pub open spec fn spec_from(v: u32) -> Instruction {
        Instruction {
            op: Opcode14::spec_new(field(v, 11, 0x1)),
            lrpc: bit(v, 8),
            rlist: field(v, 0, 0xFF) as u8,
        }
    }

    pub fn from(v: u32) -> (r: Instruction)
        ensures
            r == Instruction::spec_from(v),
    {
        let op = Opcode14::new(get_bits(v, 11, 0x1));
        let lrpc = is_set(v, 8);
        let rlist = get_bits_u8(v, 0, 0xFF);
        Instruction { op, lrpc, rlist }
    }
}

impl Instruction {
    /// Register numbers are in range.
    pub open spec fn wf(self) -> bool {
        true
    }

    /// Whether executing the instruction in state `s` is defined.
    pub open spec fn exec_ok<B: Bus>(self, s: CpuView<B::V>) -> bool {
        true
    }

    /// Processor state and cycles after executing the instruction in state `s`.
    pub open spec fn spec_exec<B: Bus>(self, s: CpuView<B::V>) -> (Cycle, CpuView<B::V>) {
        match self.op {
            Opcode14::PUSH => spec_push::<B>(s, self.rlist, self.lrpc),
            Opcode14::POP => spec_ldm::<B>(s, 13, (self.rlist as u16 | (if self.lrpc { 0x8000u16 } else { 0u16 })) as u16, AddrMode::IA, true, false),
        }
    }
}

impl<B: Bus> Arm7tdmi<B> {
    /// Executes a THUMB instruction of class "push/pop registers".
    pub fn exec_thumb_format14(&mut self, instr: Instruction) -> (r: Cycle)
        requires
            old(self).wf(),
            instr.wf(),
        ensures
            (r, final(self)@) == instr.spec_exec::<B>(old(self)@),
            final(self).wf(),
    {
        match instr.op {
            Opcode14::PUSH => self.push(instr.rlist, instr.lrpc),
            Opcode14::POP => self.pop(instr.rlist, instr.lrpc),
        }
    }
}

impl<B: Bus> Executable<B> for Instruction {
    open spec fn ready(self) -> bool {
        self.wf()
    }

    open spec fn dispatch_ok(self, s: CpuView<B::V>) -> bool {
        self.exec_ok::<B>(s)
    }

    open spec fn spec_dispatch(self, s: CpuView<B::V>) -> (Cycle, CpuView<B::V>) {
        self.spec_exec::<B>(s)
    }

    open spec fn spec_condition(self) -> Condition {
        Condition::AL
    }

    fn condition(&self) -> (r: Condition) {
        Condition::AL
    }

    fn dispatch(self, cpu: &mut Arm7tdmi<B>) -> (r: Cycle) {
        cpu.exec_thumb_format14(self)
    }
}

impl Instruction {
    /// The instruction as the listing writes it.
    pub open spec fn spec_text(self) -> Seq<char> {
        let named = match self.op {
            Opcode14::PUSH => NamedRegister::LR,
            Opcode14::POP => NamedRegister::PC,
        };
        self.op.spec_name() + " {"@ + spec_format_rlist(
            self.rlist as u16,
            if self.lrpc { Some(named) } else { None },
        ) + "}"@
    }

    /// The instruction as text (see `spec_text`).
    pub fn text(&self) -> (r: String)
        ensures
            r@ == self.spec_text(),
    {
        let named = match self.op {
            Opcode14::PUSH => NamedRegister::LR,
            Opcode14::POP => NamedRegister::PC,
        };
        let extra = if self.lrpc { Some(named) } else { None };
        let mut r = String::from_str(self.op.name());
        r.append(" {");
        r.append(format_rlist(self.rlist as u16, extra).as_str());
        r.append("}");
        r
    }
}

} // verus!
