use vstd::prelude::*;

use crate::arm7tdmi::{Arm7tdmi, CpuView, SP, lemma_rlist_count_le, rlist_count};
use crate::arm7tdmi::arm::ArmInstr;
use crate::arm7tdmi::common::{AddrMode, Carry, Condition, Cycle, DataType, LongOperand, Operand, OperandKind, RegisterOffset, ShiftKind, ToOperand, spec_reg};
use crate::arm7tdmi::ops::{LogicalOp, push_regs, spec_ldm, spec_ldr, spec_push, spec_stm, spec_str, spec_swap};
use crate::arm7tdmi::thumb::ThumbInstr;
use crate::bus::memory::{Bus, write_word};
use crate::utils::bits::is_set;

verus! {

/// A decoded instruction of either instruction set.
#[derive(Debug, Clone, Copy, PartialEq, Eq, Structural)]
pub enum Instruction {
    Arm(ArmInstr),
    Thumb(ThumbInstr),
}

/// An instruction of one class that the processor can execute on a
/// processor connected to a bus of type `B`.
pub trait Executable<B: Bus>: Sized {
    /// Register numbers and operands are in range.
    spec fn ready(self) -> bool;

    /// Whether dispatching the instruction in state `s` is defined.
    spec fn dispatch_ok(self, s: CpuView<B::V>) -> bool;

    /// Processor state and cycles after dispatching the instruction in state `s`.
    spec fn spec_dispatch(self, s: CpuView<B::V>) -> (Cycle, CpuView<B::V>);

    spec fn spec_condition(self) -> Condition;

    /// The condition the instruction runs under.
    fn condition(&self) -> (r: Condition)
        ensures
            r == self.spec_condition(),
    ;

    /// Executes the instruction.
    fn dispatch(self, cpu: &mut Arm7tdmi<B>) -> (r: Cycle)
        requires
            old(cpu).wf(),
            self.ready(),
            self.dispatch_ok(old(cpu)@),
        ensures
            (r, final(cpu)@) == self.spec_dispatch(old(cpu)@),
            final(cpu).wf(),
    ;

}

/// Executes `instr` when the processor's flags meet its condition;
/// otherwise it takes one sequential cycle and changes nothing.
pub fn dispatch_checked<B: Bus, E: Executable<B>>(instr: E, cpu: &mut Arm7tdmi<B>) -> (r: Cycle)
    requires
        old(cpu).wf(),
        instr.ready(),
        old(cpu).cpsr.spec_matches(instr.spec_condition()) ==> instr.dispatch_ok(old(cpu)@),
    ensures
        (r, final(cpu)@) == (if old(cpu).cpsr.spec_matches(instr.spec_condition()) {
            instr.spec_dispatch(old(cpu)@)
        } else {
            (Cycle { i: 0, s: 1, n: 0 }, old(cpu)@)
        }),
        final(cpu).wf(),
{
    if cpu.cpsr.matches(instr.condition()) {
        instr.dispatch(cpu)
    } else {
        Cycle { i: 0, s: 1, n: 0 }
    }
}

impl Instruction {
    /// Register numbers and operands are in range.
    pub open spec fn wf(self) -> bool {
        match self {
            Instruction::Arm(i) => i.wf(),
            Instruction::Thumb(i) => i.wf(),
        }
    }

    /// Whether executing the instruction in state `s` is defined.
    pub open spec fn exec_ok<B: Bus>(self, s: CpuView<B::V>) -> bool {
        match self {
            Instruction::Arm(i) => i.exec_ok::<B>(s),
            Instruction::Thumb(i) => i.exec_ok::<B>(s),
        }
    }

    /// Processor state and cycles after executing the instruction in state `s`.
    pub open spec fn spec_exec<B: Bus>(self, s: CpuView<B::V>) -> (Cycle, CpuView<B::V>) {
        match self {
            Instruction::Arm(i) => i.spec_exec::<B>(s),
            Instruction::Thumb(i) => i.spec_exec::<B>(s),
        }
    }
}

impl<B: Bus> Arm7tdmi<B> {
    /// THUMB LSL of register `lhs` into `dst`.
    pub fn lsl(&mut self, dst: u8, lhs: u8, rhs: Operand) -> (r: Cycle)
        requires
            old(self).wf(),
            dst < 16,
            lhs < 16,
            rhs.wf(),
        ensures
            (r, final(self)@) == old(self)@.spec_shift_op(dst, lhs, rhs, ShiftKind::LSL),
            final(self).wf(),
    {
        self.shift_op(dst, lhs, rhs, ShiftKind::LSL)
    }

    /// THUMB LSR of register `lhs` into `dst`.
    pub fn lsr(&mut self, dst: u8, lhs: u8, rhs: Operand) -> (r: Cycle)
        requires
            old(self).wf(),
            dst < 16,
            lhs < 16,
            rhs.wf(),
        ensures
            (r, final(self)@) == old(self)@.spec_shift_op(dst, lhs, rhs, ShiftKind::LSR),
            final(self).wf(),
    {
        self.shift_op(dst, lhs, rhs, ShiftKind::LSR)
    }

    /// THUMB ASR of register `lhs` into `dst`.
    pub fn asr(&mut self, dst: u8, lhs: u8, rhs: Operand) -> (r: Cycle)
        requires
            old(self).wf(),
            dst < 16,
            lhs < 16,
            rhs.wf(),
        ensures
            (r, final(self)@) == old(self)@.spec_shift_op(dst, lhs, rhs, ShiftKind::ASR),
            final(self).wf(),
    {
        self.shift_op(dst, lhs, rhs, ShiftKind::ASR)
    }

    /// THUMB ROR of register `lhs` into `dst`.
    pub fn ror(&mut self, dst: u8, lhs: u8, rhs: Operand) -> (r: Cycle)
        requires
            old(self).wf(),
            dst < 16,
            lhs < 16,
            rhs.wf(),
        ensures
            (r, final(self)@) == old(self)@.spec_shift_op(dst, lhs, rhs, ShiftKind::ROR),
            final(self).wf(),
    {
        self.shift_op(dst, lhs, rhs, ShiftKind::ROR)
    }

    /// dst = lhs + rhs.
    pub fn add(&mut self, dst: u8, lhs: u8, rhs: Operand, update: bool) -> (r: Cycle)
        requires
            old(self).wf(),
            dst < 16,
            lhs < 16,
            rhs.wf(),
        ensures
            (r, final(self)@) == old(self)@.spec_add_sub(Some(dst), spec_reg(lhs), rhs, Carry::Zero, update),
            final(self).wf(),
    {
        self.add_sub_op(Some(dst), lhs.reg(), rhs, Carry::Zero, update)
    }

    /// dst = lhs + rhs + C.
    pub fn adc(&mut self, dst: u8, lhs: u8, rhs: Operand, update: bool) -> (r: Cycle)
        requires
            old(self).wf(),
            dst < 16,
            lhs < 16,
            rhs.wf(),
        ensures
            (r, final(self)@) == old(self)@.spec_add_sub(Some(dst), spec_reg(lhs), rhs, Carry::Flag, update),
            final(self).wf(),
    {
        self.add_sub_op(Some(dst), lhs.reg(), rhs, Carry::Flag, update)
    }

    /// dst = lhs - rhs.
    pub fn sub(&mut self, dst: u8, lhs: u8, rhs: Operand, update: bool) -> (r: Cycle)
        requires
            old(self).wf(),
            dst < 16,
            lhs < 16,
            rhs.wf(),
        ensures
            (r, final(self)@) == old(self)@.spec_add_sub(Some(dst), spec_reg(lhs), Operand { negate: true, ..rhs }, Carry::One, update),
            final(self).wf(),
    {
        self.add_sub_op(Some(dst), lhs.reg(), rhs.not(), Carry::One, update)
    }

    /// dst = rhs - lhs.
    pub fn rsb(&mut self, dst: u8, lhs: u8, rhs: Operand, update: bool) -> (r: Cycle)
        requires
            old(self).wf(),
            dst < 16,
            lhs < 16,
            rhs.wf(),
        ensures
            (r, final(self)@) == old(self)@.spec_add_sub(Some(dst), rhs, Operand { negate: true, ..spec_reg(lhs) }, Carry::One, update),
            final(self).wf(),
    {
        self.add_sub_op(Some(dst), rhs, lhs.reg().not(), Carry::One, update)
    }

    /// dst = lhs - rhs - !C.
    pub fn sbc(&mut self, dst: u8, lhs: u8, rhs: Operand, update: bool) -> (r: Cycle)
        requires
            old(self).wf(),
            dst < 16,
            lhs < 16,
            rhs.wf(),
        ensures
            (r, final(self)@) == old(self)@.spec_sbc(dst, lhs, rhs, update),
            final(self).wf(),
    {
        let cycle = self.add_sub_op(Some(dst), lhs.reg(), rhs.not(), Carry::Flag, update);
        if update {
            let borrow = !self.cpsr.c();
            self.set_flag(29, borrow);
        }
        cycle
    }

    /// dst = rhs - lhs - !C.
    pub fn rsc(&mut self, dst: u8, lhs: u8, rhs: Operand, update: bool) -> (r: Cycle)
        requires
            old(self).wf(),
            dst < 16,
            lhs < 16,
            rhs.wf(),
        ensures
            (r, final(self)@) == old(self)@.spec_add_sub(Some(dst), rhs, Operand { negate: true, ..spec_reg(lhs) }, Carry::Flag, update),
            final(self).wf(),
    {
        self.add_sub_op(Some(dst), rhs, lhs.reg().not(), Carry::Flag, update)
    }

    /// Flags of lhs - rhs.
    pub fn cmp(&mut self, lhs: u8, rhs: Operand, update: bool) -> (r: Cycle)
        requires
            old(self).wf(),
            lhs < 16,
            rhs.wf(),
        ensures
            (r, final(self)@) == old(self)@.spec_add_sub(None, spec_reg(lhs), Operand { negate: true, ..rhs }, Carry::One, update),
            final(self).wf(),
    {
        self.add_sub_op(None, lhs.reg(), rhs.not(), Carry::One, update)
    }

    /// Flags of lhs + rhs.
    pub fn cmn(&mut self, lhs: u8, rhs: Operand, update: bool) -> (r: Cycle)
        requires
            old(self).wf(),
            lhs < 16,
            rhs.wf(),
        ensures
            (r, final(self)@) == old(self)@.spec_add_sub(None, spec_reg(lhs), rhs, Carry::Zero, update),
            final(self).wf(),
    {
        self.add_sub_op(None, lhs.reg(), rhs, Carry::Zero, update)
    }

    /// rd = 0 - rs, setting the flags.
    pub fn neg(&mut self, rd: u8, rs: u8) -> (r: Cycle)
        requires
            old(self).wf(),
            rd < 16,
            rs < 16,
        ensures
            (r, final(self)@) == old(self)@.spec_add_sub(Some(rd), Operand { kind: OperandKind::Imm, value: 0, negate: false, shift: None }, Operand { negate: true, ..spec_reg(rs) }, Carry::One, true),
            final(self).wf(),
    {
        self.add_sub_op(Some(rd), 0u32.imm(), rs.reg().not(), Carry::One, true)
    }

    /// dst = lhs AND rhs.
    pub fn and(&mut self, dst: u8, lhs: u8, rhs: Operand, update: bool) -> (r: Cycle)
        requires
            old(self).wf(),
            dst < 16,
            lhs < 16,
            rhs.wf(),
        ensures
            (r, final(self)@) == old(self)@.spec_logical_op(LogicalOp::And, Some(dst), lhs, rhs, update),
            final(self).wf(),
    {
        self.logical_op(LogicalOp::And, Some(dst), lhs, rhs, update)
    }

    /// dst = lhs XOR rhs.
    pub fn eor(&mut self, dst: u8, lhs: u8, rhs: Operand, update: bool) -> (r: Cycle)
        requires
            old(self).wf(),
            dst < 16,
            lhs < 16,
            rhs.wf(),
        ensures
            (r, final(self)@) == old(self)@.spec_logical_op(LogicalOp::Eor, Some(dst), lhs, rhs, update),
            final(self).wf(),
    {
        self.logical_op(LogicalOp::Eor, Some(dst), lhs, rhs, update)
    }

    /// dst = lhs OR rhs.
    pub fn orr(&mut self, dst: u8, lhs: u8, rhs: Operand, update: bool) -> (r: Cycle)
        requires
            old(self).wf(),
            dst < 16,
            lhs < 16,
            rhs.wf(),
        ensures
            (r, final(self)@) == old(self)@.spec_logical_op(LogicalOp::Orr, Some(dst), lhs, rhs, update),
            final(self).wf(),
    {
        self.logical_op(LogicalOp::Orr, Some(dst), lhs, rhs, update)
    }

    /// Flags of lhs AND op.
    pub fn tst(&mut self, dst: u8, op: Operand, update: bool) -> (r: Cycle)
        requires
            old(self).wf(),
            dst < 16,
            op.wf(),
        ensures
            (r, final(self)@) == old(self)@.spec_logical_op(LogicalOp::And, None, dst, op, update),
            final(self).wf(),
    {
        self.logical_op(LogicalOp::And, None, dst, op, update)
    }

    /// Flags of lhs XOR op.
    pub fn teq(&mut self, dst: u8, op: Operand, update: bool) -> (r: Cycle)
        requires
            old(self).wf(),
            dst < 16,
            op.wf(),
        ensures
            (r, final(self)@) == old(self)@.spec_logical_op(LogicalOp::Eor, None, dst, op, update),
            final(self).wf(),
    {
        self.logical_op(LogicalOp::Eor, None, dst, op, update)
    }

    /// dst = lhs AND NOT rhs.
    pub fn bic(&mut self, dst: u8, lhs: u8, rhs: Operand, update: bool) -> (r: Cycle)
        requires
            old(self).wf(),
            dst < 16,
            lhs < 16,
            rhs.wf(),
        ensures
            (r, final(self)@) == old(self)@.spec_logical_op(LogicalOp::And, Some(dst), lhs, Operand { negate: true, ..rhs }, update),
            final(self).wf(),
    {
        self.logical_op(LogicalOp::And, Some(dst), lhs, rhs.not(), update)
    }

    /// Load byte.
    pub fn ldrb(&mut self, rd: u8, base: u8, offset: RegisterOffset) -> (r: Cycle)
        requires
            old(self).wf(),
            rd < 16,
            base < 16,
        ensures
            (r, final(self)@) == spec_ldr::<B>(old(self)@, rd, base, DataType::Byte, false, offset),
            final(self).wf(),
    {
        self.ldr_op(rd, base, DataType::Byte, false, offset)
    }

    /// Load half-word.
    pub fn ldrh(&mut self, rd: u8, base: u8, offset: RegisterOffset) -> (r: Cycle)
        requires
            old(self).wf(),
            rd < 16,
            base < 16,
        ensures
            (r, final(self)@) == spec_ldr::<B>(old(self)@, rd, base, DataType::HWord, false, offset),
            final(self).wf(),
    {
        self.ldr_op(rd, base, DataType::HWord, false, offset)
    }

    /// Load word.
    pub fn ldr(&mut self, rd: u8, base: u8, offset: RegisterOffset) -> (r: Cycle)
        requires
            old(self).wf(),
            rd < 16,
            base < 16,
        ensures
            (r, final(self)@) == spec_ldr::<B>(old(self)@, rd, base, DataType::Word, false, offset),
            final(self).wf(),
    {
        self.ldr_op(rd, base, DataType::Word, false, offset)
    }

    /// Load sign-extended byte.
    pub fn ldsb(&mut self, rd: u8, base: u8, offset: RegisterOffset) -> (r: Cycle)
        requires
            old(self).wf(),
            rd < 16,
            base < 16,
        ensures
            (r, final(self)@) == spec_ldr::<B>(old(self)@, rd, base, DataType::Byte, true, offset),
            final(self).wf(),
    {
        self.ldr_op(rd, base, DataType::Byte, true, offset)
    }

    /// Load sign-extended half-word.
    pub fn ldsh(&mut self, rd: u8, base: u8, offset: RegisterOffset) -> (r: Cycle)
        requires
            old(self).wf(),
            rd < 16,
            base < 16,
        ensures
            (r, final(self)@) == spec_ldr::<B>(old(self)@, rd, base, DataType::HWord, true, offset),
            final(self).wf(),
    {
        self.ldr_op(rd, base, DataType::HWord, true, offset)
    }

    /// Store byte.
    pub fn strb(&mut self, rd: u8, base: u8, offset: RegisterOffset) -> (r: Cycle)
        requires
            old(self).wf(),
            rd < 16,
            base < 16,
        ensures
            (r, final(self)@) == spec_str::<B>(old(self)@, rd, base, DataType::Byte, offset),
            final(self).wf(),
    {
        self.str_op(rd, base, DataType::Byte, offset)
    }

    /// Store half-word.
    pub fn strh(&mut self, rd: u8, base: u8, offset: RegisterOffset) -> (r: Cycle)
        requires
            old(self).wf(),
            rd < 16,
            base < 16,
        ensures
            (r, final(self)@) == spec_str::<B>(old(self)@, rd, base, DataType::HWord, offset),
            final(self).wf(),
    {
        self.str_op(rd, base, DataType::HWord, offset)
    }

    /// Store word.
    pub fn str(&mut self, rd: u8, base: u8, offset: RegisterOffset) -> (r: Cycle)
        requires
            old(self).wf(),
            rd < 16,
            base < 16,
        ensures
            (r, final(self)@) == spec_str::<B>(old(self)@, rd, base, DataType::Word, offset),
            final(self).wf(),
    {
        self.str_op(rd, base, DataType::Word, offset)
    }

    /// rd = NOT op.
    pub fn mvn(&mut self, rd: u8, op: Operand, update: bool) -> (r: Cycle)
        requires
            old(self).wf(),
            rd < 16,
            op.wf(),
        ensures
            (r, final(self)@) == old(self)@.spec_mov(rd, Operand { negate: true, ..op }, update),
            final(self).wf(),
    {
        self.mov_op(rd, op.not(), update)
    }

    /// rd = op.
    pub fn mov(&mut self, rd: u8, op: Operand, update: bool) -> (r: Cycle)
        requires
            old(self).wf(),
            rd < 16,
            op.wf(),
        ensures
            (r, final(self)@) == old(self)@.spec_mov(rd, op, update),
            final(self).wf(),
    {
        self.mov_op(rd, op, update)
    }

    /// dst = lhs * rhs.
    pub fn mul(&mut self, dst: u8, lhs: u8, rhs: u8, update: bool) -> (r: Cycle)
        requires
            old(self).wf(),
            dst < 16,
            lhs < 16,
            rhs < 16,
        ensures
            (r, final(self)@) == old(self)@.spec_mul(LongOperand { lo: dst, hi: None }, lhs, rhs, None, update, false),
            final(self).wf(),
    {
        self.mul_op(LongOperand::single(dst), lhs, rhs, None, update, false)
    }

    /// dst = lhs * rhs + acc.
    pub fn mla(&mut self, dst: u8, lhs: u8, rhs: u8, acc: u8, update: bool) -> (r: Cycle)
        requires
            old(self).wf(),
            dst < 16,
            lhs < 16,
            rhs < 16,
            acc < 16,
        ensures
            (r, final(self)@) == old(self)@.spec_mul(LongOperand { lo: dst, hi: None }, lhs, rhs, Some(LongOperand { lo: acc, hi: None }), update, false),
            final(self).wf(),
    {
        self.mul_op(LongOperand::single(dst), lhs, rhs, Some(LongOperand::single(acc)), update, false)
    }

    /// Unsigned 64-bit product.
    pub fn umull(&mut self, dst: LongOperand, lhs: u8, rhs: u8, update: bool) -> (r: Cycle)
        requires
            old(self).wf(),
            dst.lo < 16,
            dst.hi matches Some(h) ==> h < 16,
            lhs < 16,
            rhs < 16,
        ensures
            (r, final(self)@) == old(self)@.spec_mul(dst, lhs, rhs, None, update, false),
            final(self).wf(),
    {
        self.mul_op(dst, lhs, rhs, None, update, false)
    }

    /// Unsigned 64-bit product plus the 64-bit destination.
    pub fn umula(&mut self, dst: LongOperand, lhs: u8, rhs: u8, update: bool) -> (r: Cycle)
        requires
            old(self).wf(),
            dst.lo < 16,
            dst.hi matches Some(h) ==> h < 16,
            lhs < 16,
            rhs < 16,
        ensures
            (r, final(self)@) == old(self)@.spec_mul(dst, lhs, rhs, Some(dst), update, false),
            final(self).wf(),
    {
        self.mul_op(dst, lhs, rhs, Some(dst), update, false)
    }

    /// Signed 64-bit product.
    pub fn smull(&mut self, dst: LongOperand, lhs: u8, rhs: u8, update: bool) -> (r: Cycle)
        requires
            old(self).wf(),
            dst.lo < 16,
            dst.hi matches Some(h) ==> h < 16,
            lhs < 16,
            rhs < 16,
        ensures
            (r, final(self)@) == old(self)@.spec_mul(dst, lhs, rhs, None, update, true),
            final(self).wf(),
    {
        self.mul_op(dst, lhs, rhs, None, update, true)
    }

    /// Signed 64-bit product plus the 64-bit destination.
    pub fn smula(&mut self, dst: LongOperand, lhs: u8, rhs: u8, update: bool) -> (r: Cycle)
        requires
            old(self).wf(),
            dst.lo < 16,
            dst.hi matches Some(h) ==> h < 16,
            lhs < 16,
            rhs < 16,
        ensures
            (r, final(self)@) == old(self)@.spec_mul(dst, lhs, rhs, Some(dst), update, true),
            final(self).wf(),
    {
        self.mul_op(dst, lhs, rhs, Some(dst), update, true)
    }

    /// Branch and exchange.
    pub fn bx(&mut self, rs: u8) -> (r: Cycle)
        requires
            old(self).wf(),
            rs < 16,
        ensures
            (r, final(self)@) == old(self)@.spec_bx(rs),
            final(self).wf(),
    {
        self.bx_op(rs)
    }

    /// THUMB push (see `spec_push`).
    pub fn push(&mut self, rlist: u8, lr: bool) -> (r: Cycle)
        requires
            old(self).wf(),
        ensures
            (r, final(self)@) == spec_push::<B>(old(self)@, rlist, lr),
            final(self).wf(),
    {
        let list = rlist as u16 | (if lr {
            0x4000u16
        } else {
            0u16
        });
        let n = self.count_rlist(list);
        let mut sp = self.get_reg(SP);
        let mut idx: u32 = 0;
        while idx < 16
            invariant
                idx <= 16,
                self.wf(),
                push_regs::<B>(self@, list as u32, idx as int, sp) == push_regs::<B>(
                    old(self)@,
                    list as u32,
                    0,
                    old(self)@.get_reg(13),
                ),
            decreases 16 - idx,
        {
            if is_set(list as u32, idx) {
                sp = sp.wrapping_sub(4);
                let v = self.get_reg(idx as usize);
                write_word(&mut self.bus, sp, v);
            }
            idx = idx + 1;
        }
        self.set_reg(SP, sp);
        Cycle { i: 1, s: n, n: 1 }
    }

    /// THUMB pop: load the registers of `rlist` (and PC) from SP, incrementing SP.
    pub fn pop(&mut self, rlist: u8, pc: bool) -> (r: Cycle)
        requires
            old(self).wf(),
        ensures
            (r, final(self)@) == spec_ldm::<B>(old(self)@, 13, (rlist as u16 | (if pc { 0x8000u16 } else { 0u16 })) as u16, AddrMode::IA, true, false),
            final(self).wf(),
    {
        let list = rlist as u16 | (if pc { 0x8000u16 } else { 0u16 });
        self.ldm_op(SP, list, AddrMode::IA, true, false)
    }

    /// Block store of `rl` at the base register `rb`.
    pub fn stm(&mut self, rl: u16, rb: u8, amod: AddrMode, wb: bool, usr: bool) -> (r: Cycle)
        requires
            old(self).wf(),
            rb < 16,
        ensures
            (r, final(self)@) == spec_stm::<B>(old(self)@, rb as int, rl, amod, wb, usr),
            final(self).wf(),
    {
        self.stm_op(rb as usize, rl, amod, wb, usr)
    }

    /// Block load of `rl` from the base register `rb`.
    pub fn ldm(&mut self, rl: u16, rb: u8, amod: AddrMode, wb: bool, usr: bool) -> (r: Cycle)
        requires
            old(self).wf(),
            rb < 16,
        ensures
            (r, final(self)@) == spec_ldm::<B>(old(self)@, rb as int, rl, amod, wb, usr),
            final(self).wf(),
    {
        self.ldm_op(rb as usize, rl, amod, wb, usr)
    }

    /// Branch by `offset` when EQ holds.
    pub fn beq(&mut self, offset: i16) -> (r: Cycle)
        requires
            old(self).wf(),
        ensures
            (r, final(self)@) == old(self)@.spec_branch(Condition::EQ, offset as i32),
            final(self).wf(),
    {
        self.branch_op(Condition::EQ, offset as i32)
    }

    /// Branch by `offset` when NE holds.
    pub fn bne(&mut self, offset: i16) -> (r: Cycle)
        requires
            old(self).wf(),
        ensures
            (r, final(self)@) == old(self)@.spec_branch(Condition::NE, offset as i32),
            final(self).wf(),
    {
        self.branch_op(Condition::NE, offset as i32)
    }

    /// Branch by `offset` when CS holds.
    pub fn bcs(&mut self, offset: i16) -> (r: Cycle)
        requires
            old(self).wf(),
        ensures
            (r, final(self)@) == old(self)@.spec_branch(Condition::CS, offset as i32),
            final(self).wf(),
    {
        self.branch_op(Condition::CS, offset as i32)
    }

    /// Branch by `offset` when CC holds.
    pub fn bcc(&mut self, offset: i16) -> (r: Cycle)
        requires
            old(self).wf(),
        ensures
            (r, final(self)@) == old(self)@.spec_branch(Condition::CC, offset as i32),
            final(self).wf(),
    {
        self.branch_op(Condition::CC, offset as i32)
    }

    /// Branch by `offset` when MI holds.
    pub fn bmi(&mut self, offset: i16) -> (r: Cycle)
        requires
            old(self).wf(),
        ensures
            (r, final(self)@) == old(self)@.spec_branch(Condition::MI, offset as i32),
            final(self).wf(),
    {
        self.branch_op(Condition::MI, offset as i32)
    }

    /// Branch by `offset` when PL holds.
    pub fn bpl(&mut self, offset: i16) -> (r: Cycle)
        requires
            old(self).wf(),
        ensures
            (r, final(self)@) == old(self)@.spec_branch(Condition::PL, offset as i32),
            final(self).wf(),
    {
        self.branch_op(Condition::PL, offset as i32)
    }

    /// Branch by `offset` when VS holds.
    pub fn bvs(&mut self, offset: i16) -> (r: Cycle)
        requires
            old(self).wf(),
        ensures
            (r, final(self)@) == old(self)@.spec_branch(Condition::VS, offset as i32),
            final(self).wf(),
    {
        self.branch_op(Condition::VS, offset as i32)
    }

    /// Branch by `offset` when VC holds.
    pub fn bvc(&mut self, offset: i16) -> (r: Cycle)
        requires
            old(self).wf(),
        ensures
            (r, final(self)@) == old(self)@.spec_branch(Condition::VC, offset as i32),
            final(self).wf(),
    {
        self.branch_op(Condition::VC, offset as i32)
    }

    /// Branch by `offset` when HI holds.
    pub fn bhi(&mut self, offset: i16) -> (r: Cycle)
        requires
            old(self).wf(),
        ensures
            (r, final(self)@) == old(self)@.spec_branch(Condition::HI, offset as i32),
            final(self).wf(),
    {
        self.branch_op(Condition::HI, offset as i32)
    }

    /// Branch by `offset` when LS holds.
    pub fn bls(&mut self, offset: i16) -> (r: Cycle)
        requires
            old(self).wf(),
        ensures
            (r, final(self)@) == old(self)@.spec_branch(Condition::LS, offset as i32),
            final(self).wf(),
    {
        self.branch_op(Condition::LS, offset as i32)
    }

    /// Branch by `offset` when GE holds.
    pub fn bge(&mut self, offset: i16) -> (r: Cycle)
        requires
            old(self).wf(),
        ensures
            (r, final(self)@) == old(self)@.spec_branch(Condition::GE, offset as i32),
            final(self).wf(),
    {
        self.branch_op(Condition::GE, offset as i32)
    }

    /// Branch by `offset` when LT holds.
    pub fn blt(&mut self, offset: i16) -> (r: Cycle)
        requires
            old(self).wf(),
        ensures
            (r, final(self)@) == old(self)@.spec_branch(Condition::LT, offset as i32),
            final(self).wf(),
    {
        self.branch_op(Condition::LT, offset as i32)
    }

    /// Branch by `offset` when GT holds.
    pub fn bgt(&mut self, offset: i16) -> (r: Cycle)
        requires
            old(self).wf(),
        ensures
            (r, final(self)@) == old(self)@.spec_branch(Condition::GT, offset as i32),
            final(self).wf(),
    {
        self.branch_op(Condition::GT, offset as i32)
    }

    /// Branch by `offset` when LE holds.
    pub fn ble(&mut self, offset: i16) -> (r: Cycle)
        requires
            old(self).wf(),
        ensures
            (r, final(self)@) == old(self)@.spec_branch(Condition::LE, offset as i32),
            final(self).wf(),
    {
        self.branch_op(Condition::LE, offset as i32)
    }

    /// Branch by `offset`.
    pub fn b(&mut self, offset: i32) -> (r: Cycle)
        requires
            old(self).wf(),
        ensures
            (r, final(self)@) == old(self)@.spec_branch(Condition::AL, offset),
            final(self).wf(),
    {
        self.branch_op(Condition::AL, offset)
    }

    /// Swap register `rm` with the memory at the address in `rn`, into `rd`.
    pub fn swp(&mut self, rd: u8, rm: u8, rn: u8, byte: bool) -> (r: Cycle)
        requires
            old(self).wf(),
            rd < 16,
            rm < 16,
            rn < 16,
        ensures
            (r, final(self)@) == spec_swap::<B>(old(self)@, rd, rm, rn, byte),
            final(self).wf(),
    {
        self.swap_op(rd, rm, rn, byte)
    }
}

impl<B: Bus> Arm7tdmi<B> {
    /// Executes a decoded instruction of either instruction set.
    pub fn exec(&mut self, instruction: Instruction) -> (r: Cycle)
        requires
            old(self).wf(),
            instruction.wf(),
            instruction.exec_ok::<B>(old(self)@),
        ensures
            (r, final(self)@) == instruction.spec_exec::<B>(old(self)@),
            final(self).wf(),
    {
        match instruction {
            Instruction::Thumb(op) => self.exec_thumb(op),
            Instruction::Arm(op) => self.exec_arm(op),
        }
    }
}

/// A THUMB instruction takes at most 18 cycles.
#[verifier::spinoff_prover]
#[verifier::rlimit(60)]
pub proof fn lemma_thumb_cycles_bounded<B: Bus>(instr: ThumbInstr, s: CpuView<B::V>)
    ensures
        instr.spec_exec::<B>(s).0.spec_count() <= 18,
{
    assert forall|r: u32| #[trigger] rlist_count(r, 16) <= 16 by {
        lemma_rlist_count_le(r, 16);
    }
    match instr {
        ThumbInstr::Format01(i) => {
            assert(i.spec_exec::<B>(s).0.spec_count() <= 18);
        },
        ThumbInstr::Format02(i) => {
            assert(i.spec_exec::<B>(s).0.spec_count() <= 18);
        },
        ThumbInstr::Format03(i) => {
            assert(i.spec_exec::<B>(s).0.spec_count() <= 18);
        },
        ThumbInstr::Format04(i) => {
            assert(i.spec_exec::<B>(s).0.spec_count() <= 18);
        },
        ThumbInstr::Format05(i) => {
            assert(i.spec_exec::<B>(s).0.spec_count() <= 18);
        },
        ThumbInstr::Format06(i) => {
            assert(i.spec_exec::<B>(s).0.spec_count() <= 18);
        },
        ThumbInstr::Format07(i) => {
            assert(i.spec_exec::<B>(s).0.spec_count() <= 18);
        },
        ThumbInstr::Format08(i) => {
            assert(i.spec_exec::<B>(s).0.spec_count() <= 18);
        },
        ThumbInstr::Format09(i) => {
            assert(i.spec_exec::<B>(s).0.spec_count() <= 18);
        },
        ThumbInstr::Format10(i) => {
            assert(i.spec_exec::<B>(s).0.spec_count() <= 18);
        },
        ThumbInstr::Format11(i) => {
            assert(i.spec_exec::<B>(s).0.spec_count() <= 18);
        },
        ThumbInstr::Format12(i) => {
            assert(i.spec_exec::<B>(s).0.spec_count() <= 18);
        },
        ThumbInstr::Format13(i) => {
            assert(i.spec_exec::<B>(s).0.spec_count() <= 18);
        },
        ThumbInstr::Format14(i) => {
            assert(i.spec_exec::<B>(s).0.spec_count() <= 18);
        },
        ThumbInstr::Format15(i) => {
            assert(i.spec_exec::<B>(s).0.spec_count() <= 18);
        },
        ThumbInstr::Format16(i) => {
            assert(i.spec_exec::<B>(s).0.spec_count() <= 18);
        },
        ThumbInstr::Format17(i) => {
            assert(i.spec_exec::<B>(s).0.spec_count() <= 18);
        },
        ThumbInstr::Format18(i) => {
            assert(i.spec_exec::<B>(s).0.spec_count() <= 18);
        },
        ThumbInstr::Format19(i) => {
            assert(i.spec_exec::<B>(s).0.spec_count() <= 18);
        },
        ThumbInstr::Undefined(_) => {},
    }
}

/// An ARM instruction takes at most 18 cycles.
pub proof fn lemma_arm_cycles_bounded<B: Bus>(instr: ArmInstr, s: CpuView<B::V>)
    ensures
        instr.spec_exec::<B>(s).0.spec_count() <= 18,
{
    assert forall|r: u32| #[trigger] rlist_count(r, 16) <= 16 by {
        lemma_rlist_count_le(r, 16);
    }
    match instr {
        ArmInstr::Format01(i) => {
            assert(i.spec_exec::<B>(s).0.spec_count() <= 18);
        },
        ArmInstr::Format02(i) => {
            assert(i.spec_exec::<B>(s).0.spec_count() <= 18);
        },
        ArmInstr::Format03(i) => {
            assert(i.spec_exec::<B>(s).0.spec_count() <= 18);
        },
        ArmInstr::Format04(i) => {
            assert(i.spec_exec::<B>(s).0.spec_count() <= 18);
        },
        ArmInstr::Format05(i) => {
            assert(i.spec_exec::<B>(s).0.spec_count() <= 18);
        },
        ArmInstr::Format06(i) => {
            assert(i.spec_exec::<B>(s).0.spec_count() <= 18);
        },
        ArmInstr::Format07(i) => {
            assert(i.spec_exec::<B>(s).0.spec_count() <= 18);
        },
        ArmInstr::Format08(i) => {
            assert(i.spec_exec::<B>(s).0.spec_count() <= 18);
        },
        ArmInstr::Format09(i) => {
            assert(i.spec_exec::<B>(s).0.spec_count() <= 18);
        },
        ArmInstr::Format10(i) => {
            assert(i.spec_exec::<B>(s).0.spec_count() <= 18);
        },
        ArmInstr::Undefined(_) => {},
    }
}

/// An instruction takes at most 18 cycles.
pub proof fn lemma_exec_cycles_bounded<B: Bus>(instr: Instruction, s: CpuView<B::V>)
    ensures
        instr.spec_exec::<B>(s).0.spec_count() <= 18,
{
    match instr {
        Instruction::Arm(i) => lemma_arm_cycles_bounded::<B>(i, s),
        Instruction::Thumb(i) => lemma_thumb_cycles_bounded::<B>(i, s),
    }
}

impl Instruction {
    /// The instruction as the listing of its instruction set writes it.
    pub open spec fn spec_text(self) -> Seq<char> {
        match self {
            Instruction::Arm(op) => op.spec_text(),
            Instruction::Thumb(op) => op.spec_text(),
        }
    }

    /// The instruction as text (see `spec_text`).
    pub fn text(&self) -> (r: String)
        ensures
            r@ == self.spec_text(),
    {
        match self {
            Instruction::Arm(op) => op.text(),
            Instruction::Thumb(op) => op.text(),
        }
    }
}

} // verus!
