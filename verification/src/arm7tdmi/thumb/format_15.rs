use vstd::prelude::*;
use vstd::string::*;

use crate::arm7tdmi::{Arm7tdmi, CpuView};
use crate::arm7tdmi::common::{AddrMode, Condition, Cycle, format_rlist, spec_format_rlist};
use crate::arm7tdmi::isa::Executable;
use crate::arm7tdmi::ops::{spec_ldm, spec_stm};
use crate::bus::memory::Bus;
use crate::utils::bits::{field, get_bits, get_bits_u8};
use crate::utils::text::{dec_text, write_dec};

verus! {

#[derive(Debug, Clone, Copy, PartialEq, Eq, Structural)]
pub enum Opcode15 {
    STMIA,
    LDMIA,
}

impl Opcode15 {
    /// The name of the variant, as instruction listings write it.
    pub open spec fn spec_name(self) -> Seq<char> {
        match self {
            Opcode15::STMIA => "STMIA"@,
            Opcode15::LDMIA => "LDMIA"@,
        }
    }

    /// The name of the variant (see `spec_name`).
    pub fn name(&self) -> (r: &'static str)
        ensures
            r@ == self.spec_name(),
    {
        match self {
            Opcode15::STMIA => "STMIA",
            Opcode15::LDMIA => "LDMIA",
        }
    }
}

impl Opcode15 {
    pub open spec fn spec_new(v: u32) -> Opcode15 {
        if v == 0 {
            Opcode15::STMIA
        } else {
            Opcode15::LDMIA
        }
    }

    /// The variant encoded by `v`.
    pub fn new(v: u32) -> (r: Opcode15)
        requires
            v < 2,
        ensures
            r == Opcode15::spec_new(v),
    {
        if v == 0 {
            Opcode15::STMIA
        } else {
            Opcode15::LDMIA
        }
    }
}
/// Multiple load/store
///
/// `1100 | L(11) | Rb(10-8) | Rlist(7-0)`
#[derive(Debug, Clone, Copy, PartialEq, Eq, Structural)]
pub struct Format15 {
    pub op: Opcode15,
    pub rb: u8,
    pub rlist: u8,
}

impl Format15 {
    pub open spec fn spec_from(v: u32) -> Format15 {
        Format15 {
            op: Opcode15::spec_new(field(v, 11, 0x1)),
            rb: field(v, 8, 0x7) as u8,
            rlist: field(v, 0, 0xFF) as u8,
        }
    }

    pub fn from(v: u32) -> (r: Format15)
        ensures
            r == Format15::spec_from(v),
            r.rb < 8,
    {
        let op = Opcode15::new(get_bits(v, 11, 0x1));
        let rb = get_bits_u8(v, 8, 0x7);
        let rlist = get_bits_u8(v, 0, 0xFF);
        Format15 { op, rb, rlist }
    }
}

impl Format15 {
    /// Register numbers are in range.
    pub open spec fn wf(self) -> bool {
        self.rb < 8
    }

    /// Whether executing the instruction in state `s` is defined.
    pub open spec fn exec_ok<B: Bus>(self, s: CpuView<B::V>) -> bool {
        true
    }

    /// Processor state and cycles after executing the instruction in state `s`.
    pub open spec fn spec_exec<B: Bus>(self, s: CpuView<B::V>) -> (Cycle, CpuView<B::V>) {
        match self.op {
            Opcode15::STMIA => spec_stm::<B>(s, self.rb as int, self.rlist as u16, AddrMode::IA, true, false),
            Opcode15::LDMIA => spec_ldm::<B>(s, self.rb as int, self.rlist as u16, AddrMode::IA, true, false),
        }
    }
}

impl<B: Bus> Arm7tdmi<B> {
    /// Executes a THUMB instruction of class "multiple load/store".
    pub fn exec_thumb_format15(&mut self, instr: Format15) -> (r: Cycle)
        requires
            old(self).wf(),
            instr.wf(),
        ensures
            (r, final(self)@) == instr.spec_exec::<B>(old(self)@),
            final(self).wf(),
    {
        match instr.op {
            Opcode15::STMIA => self.stm(instr.rlist as u16, instr.rb, AddrMode::IA, true, false),
            Opcode15::LDMIA => self.ldm(instr.rlist as u16, instr.rb, AddrMode::IA, true, false),
        }
    }
}

impl<B: Bus> Executable<B> for Format15 {
    open spec fn ready(self) -> bool {
        self.wf()
    }

    open spec fn dispatch_ok(self, s: CpuView<B::V>) -> bool {
        self.exec_ok::<B>(s)
    }

    open spec fn spec_dispatch(self, s: CpuView<B::V>) -> (Cycle, CpuView<B::V>) {
        self.spec_exec::<B>(s)
    }

    open spec fn spec_condition(self) -> Condition {
        Condition::AL
    }

    fn condition(&self) -> (r: Condition) {
        Condition::AL
    }

    fn dispatch(self, cpu: &mut Arm7tdmi<B>) -> (r: Cycle) {
        cpu.exec_thumb_format15(self)
    }
}

impl Format15 {
    /// The instruction as the listing writes it.
    pub open spec fn spec_text(self) -> Seq<char> {
        self.op.spec_name() + " R"@ + dec_text(self.rb as nat) + "!, "@ + spec_format_rlist(self.rlist as u16, None)
    }

    /// The instruction as text (see `spec_text`).
    pub fn text(&self) -> (r: String)
        ensures
            r@ == self.spec_text(),
    {
        let mut r = String::from_str(self.op.name());
        r.append(" R");
        write_dec(&mut r, self.rb as u32);
        r.append("!, ");
        r.append(format_rlist(self.rlist as u16, None).as_str());
        r
    }
}

} // verus!
