use vstd::prelude::*;

use crate::arm7tdmi::{Arm7tdmi, CpuView, LR};
use crate::arm7tdmi::arm::{arm_decodable, lemma_decode_arm_wf, spec_decode_arm};
use crate::arm7tdmi::common::{Cycle, Exception};
use crate::arm7tdmi::isa::Instruction;
use crate::arm7tdmi::psr::Psr;
use crate::arm7tdmi::thumb::{lemma_decode_thumb_wf, spec_decode_thumb_half, thumb_decodable, thumb_half};
use crate::bus::memory::{Bus, read_word, spec_read_word};
use crate::utils::bits::{with_bit, with_field};

verus! {

/// The fetch/decode stages: the decoded instruction about to execute and the
/// fetched word behind it.
#[derive(Debug, Clone, Copy, PartialEq, Eq, Structural)]
pub struct Pipeline {
    pub curr_pc: u32,
    pub last_pc: u32,
    pub curr_word: Option<u32>,
    pub next_word: Option<u32>,
    pub curr_instr: Option<Instruction>,
}

impl Pipeline {
    pub open spec fn spec_default() -> Pipeline {
        Pipeline { curr_pc: 0, last_pc: 0, curr_word: None, next_word: None, curr_instr: None }
    }

    pub open spec fn flushed(self) -> Pipeline {
        Pipeline { curr_word: None, next_word: None, curr_instr: None, ..self }
    }

    /// Takes the decoded instruction out of the pipeline.
    pub fn take(&mut self) -> (r: Instruction)
        requires
            old(self).curr_instr is Some,
        ensures
            Some(r) == old(self).curr_instr,
            *final(self) == (Pipeline { curr_instr: None, ..*old(self) }),
    {
        let r = self.curr_instr.take();
        match r {
            Some(i) => i,
            None => Instruction::Arm(crate::arm7tdmi::arm::ArmInstr::Undefined(0)),
        }
    }

    /// Program counter after the last fetch.
    pub fn last_pc(&self) -> (r: u32)
        ensures
            r == self.last_pc,
    {
        self.last_pc
    }

    /// Drops the decoded instruction and the fetched words.
    pub fn flush(&mut self)
        ensures
            *final(self) == old(self).flushed(),
    {
        self.curr_instr = None;
        self.curr_word = None;
        self.next_word = None;
    }
}

impl Default for Pipeline {
    fn default() -> (r: Pipeline)
        ensures
            r == Pipeline::spec_default(),
    {
        Pipeline { curr_pc: 0, last_pc: 0, curr_word: None, next_word: None, curr_instr: None }
    }
}

/// The word at PC and the state with PC advanced by one instruction.
pub open spec fn spec_fetch<B: Bus>(s: CpuView<B::V>) -> (u32, CpuView<B::V>) {
    (spec_read_word::<B>(s.bus, s.pc()), s.set_pc(s.pc().wrapping_add_signed(s.instr_size() as i32)))
}

/// Whether `word` decodes in the instruction set of state `s`.
pub open spec fn decodable<V>(s: CpuView<V>, word: u32) -> bool {
    if s.thumb() {
        thumb_decodable(thumb_half(word, s.pc()))
    } else {
        arm_decodable(word)
    }
}

pub open spec fn spec_decode<V>(s: CpuView<V>, word: u32) -> Instruction {
    if s.thumb() {
        Instruction::Thumb(spec_decode_thumb_half(thumb_half(word, s.pc())))
    } else {
        Instruction::Arm(spec_decode_arm(word))
    }
}

/// The word to decode next and the state after fetching it: the word
/// already fetched, if any.
pub open spec fn next_word<B: Bus>(s: CpuView<B::V>) -> (u32, CpuView<B::V>) {
    match s.pipeline.next_word {
        Some(w) => (w, s),
        None => spec_fetch::<B>(s),
    }
}

/// Whether the pipeline can be loaded: the word to decode next decodes.
pub open spec fn pipeline_loadable<B: Bus>(s: CpuView<B::V>) -> bool {
    let (word, s1) = next_word::<B>(s);
    decodable(s1, word)
}

/// Pipeline refill: decode the word to execute next and fetch the one after it.
pub open spec fn spec_load_pipeline<B: Bus>(s: CpuView<B::V>) -> CpuView<B::V> {
    let (word, s1) = next_word::<B>(s);
    let (next, s2) = spec_fetch::<B>(s1);
    s2.with_pipeline(
        Pipeline {
            curr_pc: s.pc(),
            last_pc: s2.pc(),
            curr_word: Some(word),
            next_word: Some(next),
            curr_instr: Some(spec_decode(s1, word)),
        },
    )
}

/// Processor state on entry to an exception: LR = address of the next
/// instruction (written in the old mode), SPSR of the new mode = CPSR, new
/// mode, ARM state, interrupts masked as the exception asks, PC = vector.
pub open spec fn exception_entry<V>(s: CpuView<V>, e: Exception) -> CpuView<V> {
    let irq = e.spec_disable_irq() || s.cpsr.flag(7);
    let fiq = e.spec_disable_fiq() || s.cpsr.flag(6);
    let s1 = match s.next_instr_addr() {
        Some(a) => s.set_reg(14, a),
        None => s,
    };
    let bank = s1.bank.set_spsr(e.spec_operating_mode(), s1.cpsr);
    let mode = with_field(s1.cpsr.0, 0, 0x1F, e.spec_operating_mode().spec_bits());
    let cpsr = Psr(with_bit(with_bit(with_bit(mode, 5, false), 7, irq), 6, fiq));
    CpuView { bank, cpsr, ..s1 }.set_pc(e.spec_vector())
}

impl<B: Bus> Arm7tdmi<B> {
    /// Reads the word at PC and advances PC by one instruction.
    pub fn fetch(&mut self) -> (r: u32)
        requires
            old(self)@.wf_regs(),
        ensures
            (r, final(self)@) == spec_fetch::<B>(old(self)@),
            final(self)@.wf_regs(),
    {
        let offset = self.instr_size();
        let word = read_word(&self.bus, self.pc());
        self.shift_pc(offset as i32);
        word
    }

    /// Decodes a word in the current instruction set.
    pub fn decode(&self, word: u32) -> (r: Instruction)
        requires
            decodable(self@, word),
        ensures
            r == spec_decode(self@, word),
    {
        if self.cpsr.thumb() {
            Instruction::Thumb(self.decode_thumb(word))
        } else {
            Instruction::Arm(self.decode_arm(word))
        }
    }

    /// Refills the pipeline (see `spec_load_pipeline`).
    pub fn load_pipeline(&mut self)
        requires
            old(self)@.wf_regs(),
            pipeline_loadable::<B>(old(self)@),
        ensures
            final(self)@ == spec_load_pipeline::<B>(old(self)@),
            final(self).wf(),
    {
        let curr_pc = self.pc();
        let word = match self.pipeline.next_word {
            Some(w) => w,
            None => self.fetch(),
        };
        self.pipeline.curr_pc = curr_pc;
        self.pipeline.curr_word = Some(word);
        let instr = self.decode(word);
        proof {
            lemma_decode_thumb_wf(thumb_half(word, self@.pc()));
            lemma_decode_arm_wf(word);
        }
        self.pipeline.curr_instr = Some(instr);
        let next = self.fetch();
        self.pipeline.next_word = Some(next);
        self.pipeline.last_pc = self.pc();
    }

    /// Enters an exception (see `exception_entry`) and refills the pipeline
    /// from the vector.
    pub fn handle_exception(&mut self, exception: Exception) -> (r: Cycle)
        requires
            old(self)@.next_instr_addr() is None || old(self)@.wf_regs(),
            pipeline_loadable::<B>(exception_entry(old(self)@, exception)),
        ensures
            r == (Cycle { i: 0, s: 2, n: 1 }),
            final(self)@ == spec_load_pipeline::<B>(exception_entry(old(self)@, exception)),
            final(self).wf(),
    {
        let vector = exception.vector();
        let op_mode = exception.operating_mode();
        let irq = exception.disable_irq() || self.cpsr.has(7);
        let fiq = exception.disable_fiq() || self.cpsr.has(6);
        if let Some(next_addr) = self.next_instr_addr() {
            self.set_reg(LR, next_addr);
        }
        self.bank.set_spsr(op_mode, self.cpsr);
        self.cpsr.set_operating_mode(op_mode);
        self.cpsr.update(5, false);
        self.cpsr.update(7, irq);
        self.cpsr.update(6, fiq);
        self.set_pc(vector);
        self.load_pipeline();
        Cycle { i: 0, s: 2, n: 1 }
    }

    /// Software interrupt.
    pub fn swi(&mut self) -> (r: Cycle)
        requires
            old(self).wf(),
            pipeline_loadable::<B>(exception_entry(old(self)@, Exception::SoftwareInterrupt)),
        ensures
            r == (Cycle { i: 0, s: 2, n: 1 }),
            final(self)@ == spec_load_pipeline::<B>(exception_entry(old(self)@, Exception::SoftwareInterrupt)),
            final(self).wf(),
    {
        self.handle_exception(Exception::SoftwareInterrupt)
    }

    /// Reset: enters the reset exception.
    pub fn reset(&mut self)
        requires
            pipeline_loadable::<B>(exception_entry(old(self)@, Exception::Reset)),
            old(self)@.next_instr_addr() is None || old(self)@.wf_regs(),
        ensures
            final(self)@ == spec_load_pipeline::<B>(exception_entry(old(self)@, Exception::Reset)),
            final(self).wf(),
    {
        self.handle_exception(Exception::Reset);
    }
}

} // verus!
