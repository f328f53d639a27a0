use vstd::prelude::*;

use crate::arm7tdmi::{Arm7tdmi, CpuView, LR, PC, SP, rlist_count, spec_shift};
use crate::arm7tdmi::common::{AddrMode, Carry, Condition, Cycle, DataType, LongOperand, Operand, RegisterOffset, ShiftKind, spec_reg};
use crate::arm7tdmi::psr::{Psr, PsrKind};
use crate::bus::memory::{Bus, read_hword, read_word, spec_read_hword, spec_read_word, spec_write_hword, spec_write_word, write_hword, write_word};
use crate::utils::bits::{bit, field, get_bits, is_set};
use crate::utils::ops::{rotate_right, spec_ror};

verus! {

/// Bitwise operation of a logical data processing instruction.
#[derive(Debug, Clone, Copy, PartialEq, Eq, Structural)]
pub enum LogicalOp {
    And,
    Eor,
    Orr,
}

pub open spec fn spec_logical(op: LogicalOp, a: u32, b: u32) -> u32 {
    match op {
        LogicalOp::And => a & b,
        LogicalOp::Eor => a ^ b,
        LogicalOp::Orr => a | b,
    }
}

/// Sum of `a`, `b` and a carry `c` (0 or 1): the 32-bit result, the carry
/// out (the sum exceeds 32 bits) and the signed overflow.
pub open spec fn spec_add_with_carry(a: u32, b: u32, c: u32) -> (u32, bool, bool) {
    let sum = a + b + c;
    let res = if sum > u32::MAX {
        (sum - 0x1_0000_0000) as u32
    } else {
        sum as u32
    };
    (res, sum > u32::MAX, bit((res ^ a) & (res ^ b), 31))
}

/// Cycles of a data processing instruction: one internal cycle for a
/// register-shifted register operand, and one more S and N cycle when the
/// destination is PC.
pub open spec fn spec_variable_cycle(dst: Option<u8>, operand: Operand) -> Cycle {
    let p = dst == Some(15u8);
    let r = operand.spec_is_reg() && operand.spec_reg_shift();
    Cycle {
        i: if r { 1 } else { 0 },
        s: if p { 2 } else { 1 },
        n: if p { 1 } else { 0 },
    }
}

impl<V> CpuView<V> {
    /// The state with Z and N set from `value`.
    pub open spec fn update_zn(self, value: u32) -> CpuView<V> {
        self.with_flag(30, value == 0).with_flag(31, bit(value, 31))
    }

    pub open spec fn write_opt(self, dst: Option<u8>, value: u32) -> CpuView<V> {
        match dst {
            Some(rd) => self.set_reg(rd as int, value),
            None => self,
        }
    }

    /// Addition `lhs + rhs + carry` (subtractions negate an operand and add 1).
    pub open spec fn spec_add_sub(
        self,
        dst: Option<u8>,
        lhs: Operand,
        rhs: Operand,
        carry: Carry,
        update: bool,
    ) -> (Cycle, CpuView<V>) {
        let cycle = spec_variable_cycle(dst, rhs);
        let (lv, s1) = if lhs.spec_is_pc() && !self.thumb() && rhs.spec_reg_shift() {
            (self.pc().wrapping_add(4), self)
        } else if lhs.spec_is_pc() && self.thumb() && rhs.kind is Imm {
            (self.pc() & !2u32, self)
        } else {
            self.operand_eval(lhs, update)
        };
        let c: u32 = match carry {
            Carry::One => 1,
            Carry::Zero => 0,
            Carry::Flag => if s1.carry() {
                1
            } else {
                0
            },
        };
        let rv = s1.operand_eval(rhs, false).0;
        let (res, cout, ov) = spec_add_with_carry(lv, rv, c);
        let s2 = if update {
            s1.update_zn(res).with_flag(29, cout).with_flag(28, ov)
        } else {
            s1
        };
        (cycle, s2.write_opt(dst, res))
    }

    /// Logical operation of register `lhs` and an operand.
    /// Subtraction with carry: `dst = lhs - rhs - !C`; when the flags are
    /// updated, C is left set exactly when the subtraction borrowed, the
    /// opposite of the carry out of the addition it is computed by.
    pub open spec fn spec_sbc(self, dst: u8, lhs: u8, rhs: Operand, update: bool) -> (Cycle, CpuView<V>) {
        let (c, s1) = self.spec_add_sub(Some(dst), spec_reg(lhs), Operand { negate: true, ..rhs }, Carry::Flag, update);
        (c, if update {
            s1.with_flag(29, !s1.carry())
        } else {
            s1
        })
    }

    pub open spec fn spec_logical_op(
        self,
        func: LogicalOp,
        dst: Option<u8>,
        lhs: u8,
        rhs: Operand,
        update: bool,
    ) -> (Cycle, CpuView<V>) {
        let cycle = spec_variable_cycle(dst, rhs);
        let lv = self.get_reg(lhs as int);
        let (rv, s1) = self.operand_eval(rhs, update);
        let res = spec_logical(func, lv, rv);
        let s2 = if update {
            s1.update_zn(res)
        } else {
            s1
        };
        (cycle, s2.write_opt(dst, res))
    }

    pub open spec fn spec_mov(self, rd: u8, operand: Operand, update: bool) -> (Cycle, CpuView<V>) {
        let cycle = spec_variable_cycle(Some(rd), operand);
        let (v, s1) = self.operand_eval(operand, update);
        let s2 = if update {
            s1.update_zn(v)
        } else {
            s1
        };
        (cycle, s2.set_reg(rd as int, v))
    }

    /// THUMB shift of register `lhs` by an immediate or by the low byte of a register.
    pub open spec fn spec_shift_op(self, dst: u8, lhs: u8, rhs: Operand, shift: ShiftKind) -> (
        Cycle,
        CpuView<V>,
    ) {
        let i: u8 = if rhs.kind is Reg {
            1
        } else {
            0
        };
        let lv = self.get_reg(lhs as int);
        let rv = self.operand_eval(rhs, false).0 & 0xFF;
        let (res, cu) = spec_shift(lv, rv, shift, rhs.kind is Imm, true, self.carry());
        let s = self.apply_carry(lv, cu, true).update_zn(res).set_reg(dst as int, res);
        (Cycle { i, s: 1, n: 0 }, s)
    }

    /// Branch and exchange: T takes bit 0 of the target, PC the target; a
    /// change of state flushes the pipeline.
    pub open spec fn spec_bx(self, rs: u8) -> (Cycle, CpuView<V>) {
        let v = self.get_reg(rs as int);
        let s1 = self.with_flag(5, bit(v, 0)).set_pc(v);
        let s2 = if s1.thumb() != self.thumb() {
            s1.with_pipeline(s1.pipeline.flushed())
        } else {
            s1
        };
        (Cycle { i: 0, s: 2, n: 1 }, s2)
    }

    /// Internal cycles of a multiplication by `rhs`: 1 to 4 by the number of
    /// significant bytes.
    pub open spec fn mul_cycles(rhs: u32) -> u8 {
        if field(rhs, 24, 0xFF) != 0 {
            4
        } else if field(rhs, 16, 0xFF) != 0 {
            3
        } else if field(rhs, 8, 0xFF) != 0 {
            2
        } else {
            1
        }
    }

    /// The 64-bit accumulator of a multiply-accumulate: `lo`, with `hi` as
    /// its upper word for long multiplications; 0 without accumulation.
    pub open spec fn acc_value(self, acc: Option<LongOperand>) -> u64 {
        match acc {
            None => 0,
            Some(reg) => {
                let hi: u64 = match reg.hi {
                    Some(h) => self.get_reg(h as int) as u64,
                    None => 0,
                };
                (hi << 32u64) | (self.get_reg(reg.lo as int) as u64)
            },
        }
    }

    /// The 64-bit result of a multiplication: registers `lhs` and `rhs`,
    /// sign-extended when `signed`, multiplied and added to the accumulator,
    /// wrapping.
    pub open spec fn mul_value(self, lhs: u8, rhs: u8, acc: Option<LongOperand>, signed: bool) -> u64 {
        let lv = self.get_reg(lhs as int);
        let rv = self.get_reg(rhs as int);
        let (l, r): (u64, u64) = if signed {
            (lv as i32 as i64 as u64, rv as i32 as i64 as u64)
        } else {
            (lv as u64, rv as u64)
        };
        l.wrapping_mul(r).wrapping_add(self.acc_value(acc))
    }

    /// Multiplication `lhs * rhs (+ acc)` with a 64-bit result written to
    /// `dst.lo` and, for long multiplications, `dst.hi`.
    pub open spec fn spec_mul(
        self,
        dst: LongOperand,
        lhs: u8,
        rhs: u8,
        acc: Option<LongOperand>,
        update: bool,
        signed: bool,
    ) -> (Cycle, CpuView<V>) {
        let rv = self.get_reg(rhs as int);
        let i_extra: u8 = match acc {
            None => 0,
            Some(reg) => if reg.hi is Some {
                2
            } else {
                1
            },
        };
        let res = self.mul_value(lhs, rhs, acc, signed);
        let res_hi = (res >> 32u64) as u32;
        let res_lo = res as u32;
        let s1 = if update {
            self.with_flag(30, res == 0).with_flag(31, bit(res_hi, 31)).with_flag(29, false)
        } else {
            self
        };
        let s2 = match dst.hi {
            Some(hi) => s1.set_reg(hi as int, res_hi),
            None => s1,
        };
        (
            Cycle { i: (CpuView::<V>::mul_cycles(rv) + i_extra) as u8, s: 1, n: 0 },
            s2.set_reg(dst.lo as int, res_lo),
        )
    }

    /// Address of a single transfer: the base moved by the offset for
    /// pre-indexing, the base itself for post-indexing.
    pub open spec fn transfer_address(base: u32, offset: RegisterOffset) -> u32 {
        match offset.amod {
            AddrMode::IB => base.wrapping_add(offset.value),
            AddrMode::DB => base.wrapping_sub(offset.value),
            _ => base,
        }
    }

    /// Base write-back of a post-indexed single transfer.
    pub open spec fn post_index(self, rn: u8, base: u32, offset: RegisterOffset) -> CpuView<V> {
        match offset.amod {
            AddrMode::IA => self.set_reg(rn as int, base.wrapping_add(offset.value)),
            AddrMode::DA => self.set_reg(rn as int, base.wrapping_sub(offset.value)),
            _ => self,
        }
    }

    pub open spec fn spec_branch(self, cond: Condition, offset: i32) -> (Cycle, CpuView<V>) {
        if !self.cpsr.spec_matches(cond) {
            (Cycle { i: 0, s: 1, n: 0 }, self)
        } else if offset != 0 {
            (Cycle { i: 0, s: 2, n: 1 }, self.set_pc(self.pc().wrapping_add_signed(offset)))
        } else {
            (Cycle { i: 0, s: 2, n: 1 }, self.with_pipeline(self.pipeline.flushed()))
        }
    }

    /// Address of the instruction after the one executing, if the last
    /// fetch address is at least one instruction.
    pub open spec fn next_instr_addr(self) -> Option<u32> {
        if self.pipeline.last_pc >= self.instr_size() {
            Some((self.pipeline.last_pc - self.instr_size()) as u32)
        } else {
            None
        }
    }

    /// First half of a THUMB long branch: LR = PC + (sign-extended 11-bit offset << 12).
    pub open spec fn spec_branch_long_first(self, nn: u16) -> (Cycle, CpuView<V>) {
        let ext = (((nn as u32) << 21u32) as i32) >> 21u32;
        let upper = (ext as u32) << 12u32;
        (Cycle { i: 0, s: 1, n: 0 }, self.set_reg(14, self.pc().wrapping_add(upper)))
    }

    /// Second half of a THUMB long branch: PC = LR + (offset << 1), LR = next
    /// instruction address with bit 0 set.
    pub open spec fn spec_branch_long_second(self, nn: u16) -> (Cycle, CpuView<V>) {
        let lower = (nn as u32) << 1u32;
        let target = (self.get_reg(14) as i32).wrapping_add(lower as i32);
        let lr = match self.next_instr_addr() {
            Some(a) => a,
            None => 0,
        } | 1;
        let s = self.set_pc(target as u32).set_reg(14, lr);
        (Cycle { i: 0, s: 2, n: 1 }, s.with_pipeline(s.pipeline.flushed()))
    }

    pub open spec fn spec_store_psr(self, rd: u8, kind: PsrKind) -> (Cycle, CpuView<V>) {
        let psr = match kind {
            PsrKind::CPSR => self.cpsr,
            PsrKind::SPSR => self.bank.get_spsr(self.mode()).unwrap(),
        };
        (Cycle { i: 0, s: 1, n: 0 }, self.set_reg(rd as int, psr.0))
    }

    /// Value a status register write of `op` under `mask` gives the CPSR.
    pub open spec fn psr_write_value(self, op: Operand, mask: u32) -> u32 {
        let value = self.operand_eval(op, false).0 & mask;
        (self.cpsr.0 & !mask) | value
    }

    pub open spec fn spec_update_psr(self, op: Operand, mask: u32, kind: PsrKind) -> (Cycle, CpuView<V>) {
        let value = self.operand_eval(op, false).0 & mask;
        let s = match kind {
            PsrKind::CPSR => self.with_cpsr(Psr((self.cpsr.0 & !mask) | value)),
            PsrKind::SPSR => {
                let b = match self.bank.get_spsr(self.mode()) {
                    Some(psr) => self.bank.set_spsr(self.mode(), Psr((psr.0 & !mask) | value)),
                    None => self.bank,
                };
                CpuView { bank: b, ..self }
            },
        };
        (Cycle { i: 0, s: 1, n: 0 }, s)
    }
}

/// Value a single load reads: bytes zero- or sign-extended, half-words
/// sign-extended or rotated by a misaligned address, words rotated by a
/// misaligned address.
pub open spec fn spec_load_value<B: Bus>(bus: B::V, kind: DataType, signed: bool, addr: u32) -> u32 {
    match kind {
        DataType::HWord => if signed {
            (((spec_read_hword::<B>(bus, addr & !1u32) as i16) >> (((addr & 1) * 8) as u32)) as i32) as u32
        } else {
            spec_ror(spec_read_hword::<B>(bus, addr & !1u32) as u32, ((addr & 1) * 8) as u32)
        },
        DataType::Byte => if signed {
            B::spec_read_byte(bus, addr) as i8 as i32 as u32
        } else {
            B::spec_read_byte(bus, addr) as u32
        },
        DataType::Word => spec_ror(spec_read_word::<B>(bus, addr & !3u32), ((addr & 3) * 8) as u32),
    }
}

/// Bus after a single store of `value`: the low byte, the low half-word at
/// the half-word aligned address, or the word at the word aligned address.
pub open spec fn spec_store_value<B: Bus>(bus: B::V, kind: DataType, addr: u32, value: u32) -> B::V {
    match kind {
        DataType::Byte => B::spec_write_byte(bus, addr, (value & 0xFF) as u8),
        DataType::HWord => spec_write_hword::<B>(bus, addr & !1u32, (value & 0xFFFF) as u16),
        DataType::Word => spec_write_word::<B>(bus, addr & !3u32, value),
    }
}

pub open spec fn spec_ldr<B: Bus>(
    s: CpuView<B::V>,
    rd: u8,
    rn: u8,
    kind: DataType,
    signed: bool,
    offset: RegisterOffset,
) -> (Cycle, CpuView<B::V>) {
    let (base, sc, nc): (u32, u8, u8) = if rn == 15 {
        if s.thumb() {
            (s.pc() & !2u32, 1, 1)
        } else {
            (s.pc(), 2, 2)
        }
    } else {
        (s.get_reg(rn as int), 1, 1)
    };
    let addr = CpuView::<B::V>::transfer_address(base, offset);
    let s1 = if offset.wb {
        s.set_reg(rn as int, addr)
    } else {
        s
    };
    let value = spec_load_value::<B>(s.bus, kind, signed, addr);
    let s2 = s1.post_index(rn, base, offset);
    (Cycle { i: 1, s: sc, n: nc }, s2.set_reg(rd as int, value))
}

pub open spec fn spec_str<B: Bus>(
    s: CpuView<B::V>,
    rs: u8,
    rn: u8,
    kind: DataType,
    offset: RegisterOffset,
) -> (Cycle, CpuView<B::V>) {
    let base = s.get_reg(rn as int);
    let value = if rs == 15 && !s.thumb() {
        s.pc().wrapping_add(4)
    } else {
        s.get_reg(rs as int)
    };
    let addr = CpuView::<B::V>::transfer_address(base, offset);
    let s1 = if offset.wb {
        s.set_reg(rn as int, addr)
    } else {
        s
    };
    let s2 = s1.with_bus(spec_store_value::<B>(s1.bus, kind, addr, value));
    (Cycle { i: 0, s: 0, n: 2 }, s2.post_index(rn, base, offset))
}

pub open spec fn spec_swap<B: Bus>(s: CpuView<B::V>, rd: u8, rm: u8, rn: u8, byte: bool) -> (
    Cycle,
    CpuView<B::V>,
) {
    let addr = s.get_reg(rn as int);
    let r = if byte {
        let s1 = s.set_reg(rd as int, B::spec_read_byte(s.bus, addr) as u32);
        s1.with_bus(B::spec_write_byte(s1.bus, addr, s1.get_reg(rm as int) as u8))
    } else {
        let value = spec_read_word::<B>(s.bus, addr & !3u32);
        let s1 = s.with_bus(spec_write_word::<B>(s.bus, addr & !3u32, s.get_reg(rm as int)));
        s1.set_reg(rd as int, spec_ror(value, ((addr & 3) * 8) as u32))
    };
    (Cycle { i: 1, s: 1, n: 2 }, r)
}

/// Block store of the registers of `rlist` from bit `idx` on, at `offset`
/// upwards; the base is written back early when it is stored after the
/// first register. Returns the state, the next address and whether the base
/// was written back.
pub open spec fn stm_regs<B: Bus>(
    s: CpuView<B::V>,
    rb: int,
    rlist: u32,
    n: u8,
    amod: AddrMode,
    usr: bool,
    low_addr: u32,
    idx: int,
    offset: u32,
    pre_write: bool,
) -> (CpuView<B::V>, u32, bool)
    decreases 16 - idx,
{
    if idx >= 16 || idx < 0 {
        (s, offset, pre_write)
    } else if bit(rlist, idx as u32) {
        let early = idx == rb && low_addr != offset;
        let s1 = if early {
            s.set_reg(rb, s.base_after(rb, n, amod))
        } else {
            s
        };
        let s2 = s1.with_bus(spec_write_word::<B>(s1.bus, offset, s1.stored_value(idx, usr)));
        stm_regs::<B>(
            s2,
            rb,
            rlist,
            n,
            amod,
            usr,
            low_addr,
            idx + 1,
            offset.wrapping_add(4),
            pre_write || early,
        )
    } else {
        stm_regs::<B>(s, rb, rlist, n, amod, usr, low_addr, idx + 1, offset, pre_write)
    }
}

/// Address an empty block store writes the program counter to, relative to the base.
pub open spec fn empty_list_offset(amod: AddrMode) -> i32 {
    match amod {
        AddrMode::DA => -0x3Ci32,
        AddrMode::DB => -0x40i32,
        AddrMode::IA => 0x00,
        AddrMode::IB => 0x04,
    }
}

pub open spec fn spec_stm<B: Bus>(
    s: CpuView<B::V>,
    rb: int,
    rlist: u16,
    amod: AddrMode,
    wb: bool,
    usr: bool,
) -> (Cycle, CpuView<B::V>) {
    let n = rlist_count(rlist as u32, 16);
    let low = s.lowest_address(rb, n, amod);
    let s1 = if n == 0 {
        let addr = s.get_reg(rb).wrapping_add_signed(empty_list_offset(amod));
        let pc = s.pipeline.curr_pc.wrapping_add((s.instr_size() * 2) as u32);
        s.with_bus(spec_write_word::<B>(s.bus, addr, pc))
    } else {
        s
    };
    let (s2, _, pre) = stm_regs::<B>(s1, rb, rlist as u32, n, amod, usr, low, 0, low, false);
    let s3 = if wb && !pre {
        s2.set_reg(rb, s2.base_after(rb, n, amod))
    } else {
        s2
    };
    (Cycle { i: 1, s: n, n: 1 }, s3)
}

/// Stores the registers of `list` from bit `idx` on, in ascending register
/// order, each at the next word below `sp`. Returns the state and the
/// address of the last word stored.
pub open spec fn push_regs<B: Bus>(s: CpuView<B::V>, list: u32, idx: int, sp: u32) -> (CpuView<B::V>, u32)
    decreases 16 - idx,
{
    if idx >= 16 || idx < 0 {
        (s, sp)
    } else if bit(list, idx as u32) {
        let sp1 = sp.wrapping_sub(4);
        push_regs::<B>(s.with_bus(spec_write_word::<B>(s.bus, sp1, s.get_reg(idx))), list, idx + 1, sp1)
    } else {
        push_regs::<B>(s, list, idx + 1, sp)
    }
}

/// THUMB push: the registers of `rlist`, and LR when `lr` is set, are
/// stored in ascending register order at successively lower words below
/// SP, and SP is left at the last word stored.
pub open spec fn spec_push<B: Bus>(s: CpuView<B::V>, rlist: u8, lr: bool) -> (Cycle, CpuView<B::V>) {
    let list = (rlist as u16 | (if lr { 0x4000u16 } else { 0u16 })) as u32;
    let (s1, sp) = push_regs::<B>(s, list, 0, s.get_reg(13));
    (Cycle { i: 1, s: rlist_count(list, 16), n: 1 }, s1.set_reg(13, sp))
}

/// Block load of the registers of `rlist` from bit `idx` on, from `offset`
/// upwards. Returns the state, the next address and whether the base was loaded.
pub open spec fn ldm_regs<B: Bus>(
    s: CpuView<B::V>,
    rb: int,
    rlist: u32,
    usr: bool,
    idx: int,
    offset: u32,
    skip: bool,
) -> (CpuView<B::V>, u32, bool)
    decreases 16 - idx,
{
    if idx >= 16 || idx < 0 {
        (s, offset, skip)
    } else if bit(rlist, idx as u32) {
        let s1 = s.load_value(idx, spec_read_word::<B>(s.bus, offset), usr);
        ldm_regs::<B>(s1, rb, rlist, usr, idx + 1, offset.wrapping_add(4), skip || idx == rb)
    } else {
        ldm_regs::<B>(s, rb, rlist, usr, idx + 1, offset, skip)
    }
}

pub open spec fn spec_ldm<B: Bus>(
    s: CpuView<B::V>,
    rb: int,
    rlist: u16,
    amod: AddrMode,
    wb: bool,
    usr: bool,
) -> (Cycle, CpuView<B::V>) {
    let n = rlist_count(rlist as u32, 16);
    let sc: u8 = if n == 0 {
        0
    } else {
        (n - 1) as u8
    };
    let s1 = if n == 0 {
        s.set_pc(spec_read_word::<B>(s.bus, s.get_reg(rb)))
    } else {
        s
    };
    let low = s1.lowest_address(rb, n, amod);
    let (s2, _, skip) = ldm_regs::<B>(s1, rb, rlist as u32, usr, 0, low, false);
    let s3 = if wb && !skip {
        s2.set_reg(rb, s2.base_after(rb, n, amod))
    } else {
        s2
    };
    (Cycle { i: 0, s: sc, n: 2 }, s3)
}

/// Sum of `lhs`, `rhs` and a carry of 0 or 1 with its carry out and overflow.
pub fn add_with_carry(lhs: u32, rhs: u32, carry: u32) -> (r: (u32, bool, bool))
    requires
        carry <= 1,
    ensures
        r == spec_add_with_carry(lhs, rhs, carry),
{
    let res1 = lhs.wrapping_add(rhs);
    let ov1 = res1 < lhs;
    let res2 = res1.wrapping_add(carry);
    let ov2 = res2 < res1;
    let overflow = is_set((res2 ^ lhs) & (res2 ^ rhs), 31);
    (res2, ov1 || ov2, overflow)
}

impl<B: Bus> Arm7tdmi<B> {
    /// Sets Z and N from `value`.
    pub fn set_zn(&mut self, value: u32)
        requires
            old(self).wf(),
        ensures
            final(self)@ == old(self)@.update_zn(value),
            final(self).wf(),
    {
        self.cpsr.update_zn(value);
    }

    /// Sets status bit `n` (28 to 31 and 5 to 7 are flags above the mode bits).
    pub fn set_flag(&mut self, n: u32, value: bool)
        requires
            old(self).wf(),
            5 <= n < 32,
        ensures
            final(self)@ == old(self)@.with_flag(n, value),
            final(self).wf(),
    {
        self.cpsr.update(n, value);
    }

    /// Writes `value` to `dst` when there is a destination.
    pub fn write_opt(&mut self, dst: Option<u8>, value: u32)
        requires
            old(self).wf(),
            dst matches Some(rd) ==> rd < 16,
        ensures
            final(self)@ == old(self)@.write_opt(dst, value),
            final(self).wf(),
    {
        if let Some(rd) = dst {
            self.set_reg(rd as usize, value);
        }
    }

    /// Cycles of a data processing instruction (see `spec_variable_cycle`).
    pub fn get_variable_cycle(&self, dst: Option<u8>, operand: &Operand) -> (r: Cycle)
        ensures
            r == spec_variable_cycle(dst, *operand),
    {
        let reg_shift = operand.has_reg_shift();
        let pc_operand = match dst {
            Some(r) => r == 15,
            None => false,
        };
        let r = if operand.is_reg() && reg_shift {
            1
        } else {
            0
        };
        let p = if pc_operand {
            1
        } else {
            0
        };
        Cycle { i: r, s: 1 + p, n: p }
    }

    /// Addition and subtraction: `dst = lhs + rhs + carry`; subtractions pass
    /// a negated operand and a carry of one. With `update` the flags N, Z, C
    /// and V are set from the sum.
    pub fn add_sub_op(&mut self, dst: Option<u8>, lhs: Operand, rhs: Operand, carry: Carry, update: bool) -> (r: Cycle)
        requires
            old(self).wf(),
            lhs.wf(),
            rhs.wf(),
            dst matches Some(rd) ==> rd < 16,
        ensures
            (r, final(self)@) == old(self)@.spec_add_sub(dst, lhs, rhs, carry, update),
            final(self).wf(),
    {
        let cycle = self.get_variable_cycle(dst, &rhs);
        let reg_shift = rhs.has_reg_shift();
        let thumb = self.cpsr.thumb();
        let lhs_value = if lhs.is_pc() && !thumb && reg_shift {
            self.pc().wrapping_add(4)
        } else if lhs.is_pc() && thumb && rhs.is_imm() {
            self.pc() & !2u32
        } else {
            self.get_operand_with_shift(lhs, update)
        };
        let c = match carry {
            Carry::One => 1,
            Carry::Zero => 0,
            Carry::Flag => self.cpsr.get(29),
        };
        let rhs_value = self.get_operand(rhs);
        let (res, cout, overflow) = add_with_carry(lhs_value, rhs_value, c);
        if update {
            self.set_zn(res);
            self.set_flag(29, cout);
            self.set_flag(28, overflow);
        }
        self.write_opt(dst, res);
        cycle
    }

    /// Logical data processing: `dst = lhs op rhs`; with `update` the
    /// flags N and Z are set from the result (and C by the operand's shift).
    pub fn logical_op(&mut self, func: LogicalOp, dst: Option<u8>, lhs: u8, rhs: Operand, update: bool) -> (r: Cycle)
        requires
            old(self).wf(),
            lhs < 16,
            rhs.wf(),
            dst matches Some(rd) ==> rd < 16,
        ensures
            (r, final(self)@) == old(self)@.spec_logical_op(func, dst, lhs, rhs, update),
            final(self).wf(),
    {
        let cycle = self.get_variable_cycle(dst, &rhs);
        let lhs_value = self.get_reg(lhs as usize);
        let rhs_value = self.get_operand_with_shift(rhs, update);
        let result = match func {
            LogicalOp::And => lhs_value & rhs_value,
            LogicalOp::Eor => lhs_value ^ rhs_value,
            LogicalOp::Orr => lhs_value | rhs_value,
        };
        if update {
            self.set_zn(result);
        }
        self.write_opt(dst, result);
        cycle
    }

    /// Move: `rd = operand`; with `update` N and Z are set from the value.
    pub fn mov_op(&mut self, rd: u8, operand: Operand, update: bool) -> (r: Cycle)
        requires
            old(self).wf(),
            rd < 16,
            operand.wf(),
        ensures
            (r, final(self)@) == old(self)@.spec_mov(rd, operand, update),
            final(self).wf(),
    {
        let cycle = self.get_variable_cycle(Some(rd), &operand);
        let value = self.get_operand_with_shift(operand, update);
        if update {
            self.set_zn(value);
        }
        self.set_reg(rd as usize, value);
        cycle
    }

    /// THUMB shift: `dst = lhs shifted by rhs` (a register amount uses its
    /// low byte); sets C, N and Z.
    pub fn shift_op(&mut self, dst: u8, lhs: u8, rhs: Operand, shift: ShiftKind) -> (r: Cycle)
        requires
            old(self).wf(),
            dst < 16,
            lhs < 16,
            rhs.wf(),
        ensures
            (r, final(self)@) == old(self)@.spec_shift_op(dst, lhs, rhs, shift),
            final(self).wf(),
    {
        let i = if rhs.is_reg() {
            1
        } else {
            0
        };
        let imm = rhs.is_imm();
        let lhs_value = self.get_reg(lhs as usize);
        let rhs_value = self.get_operand(rhs) & 0xFF;
        let result = self.apply_shift(lhs_value, rhs_value, shift, imm, true);
        proof {
            let (res, cu) = spec_shift(lhs_value, rhs_value, shift, imm, true, old(self)@.carry());
            match cu {
                crate::arm7tdmi::CarryUpdate::Bit(b) => {
                    crate::arm7tdmi::psr::lemma_flag_keeps_mode(old(self).cpsr.0, 29, bit(lhs_value, b & 31));
                },
                crate::arm7tdmi::CarryUpdate::Clear => {
                    crate::arm7tdmi::psr::lemma_flag_keeps_mode(old(self).cpsr.0, 29, false);
                },
                _ => {},
            }
        }
        self.set_zn(result);
        self.set_reg(dst as usize, result);
        Cycle { i, s: 1, n: 0 }
    }

    /// Branch and exchange to the address in `rs` (see `spec_bx`).
    pub fn bx_op(&mut self, rs: u8) -> (r: Cycle)
        requires
            old(self).wf(),
            rs < 16,
        ensures
            (r, final(self)@) == old(self)@.spec_bx(rs),
            final(self).wf(),
    {
        let value = self.get_reg(rs as usize);
        let prev_mode = self.cpsr.thumb();
        let t = is_set(value, 0);
        self.set_flag(5, t);
        self.set_pc(value);
        if prev_mode != self.cpsr.thumb() {
            self.pipeline.flush();
        }
        Cycle { i: 0, s: 2, n: 1 }
    }

    /// Multiplication (see `spec_mul`); with `update` Z is set from the 64-bit
    /// result, N from its bit 63, and C cleared.
    pub fn mul_op(
        &mut self,
        dst: LongOperand,
        lhs: u8,
        rhs: u8,
        acc: Option<LongOperand>,
        update: bool,
        signed: bool,
    ) -> (r: Cycle)
        requires
            old(self).wf(),
            lhs < 16,
            rhs < 16,
            dst.lo < 16,
            dst.hi matches Some(h) ==> h < 16,
            acc matches Some(a) ==> (a.lo < 16 && (a.hi matches Some(h) ==> h < 16)),
        ensures
            (r, final(self)@) == old(self)@.spec_mul(dst, lhs, rhs, acc, update, signed),
            final(self).wf(),
    {
        let lhs_value = self.get_reg(lhs as usize);
        let rhs_value = self.get_reg(rhs as usize);
        let i_base: u8 = if get_bits(rhs_value, 24, 0xFF) != 0 {
            4
        } else if get_bits(rhs_value, 16, 0xFF) != 0 {
            3
        } else if get_bits(rhs_value, 8, 0xFF) != 0 {
            2
        } else {
            1
        };
        let (acc_value, i_extra): (u64, u8) = match acc {
            None => (0, 0),
            Some(reg) => {
                let hi: u64 = match reg.hi {
                    Some(h) => self.get_reg(h as usize) as u64,
                    None => 0,
                };
                let lo = self.get_reg(reg.lo as usize) as u64;
                let i: u8 = if reg.hi.is_some() {
                    2
                } else {
                    1
                };
                ((hi << 32u64) | lo, i)
            },
        };
        let (l, r): (u64, u64) = if signed {
            (lhs_value as i32 as i64 as u64, rhs_value as i32 as i64 as u64)
        } else {
            (lhs_value as u64, rhs_value as u64)
        };
        let res = l.wrapping_mul(r).wrapping_add(acc_value);
        let res_hi = (res >> 32u64) as u32;
        let res_lo = res as u32;
        let i = i_base + i_extra;
        if update {
            self.set_flag(30, res == 0);
            let n = is_set(res_hi, 31);
            self.set_flag(31, n);
            self.set_flag(29, false);
        }
        if let Some(hi) = dst.hi {
            self.set_reg(hi as usize, res_hi);
        }
        self.set_reg(dst.lo as usize, res_lo);
        Cycle { i, s: 1, n: 0 }
    }

    /// Single load of `kind` into `rd` from base `rn` and `offset` (see
    /// `spec_ldr`); PC as base is word aligned in THUMB state.
    pub fn ldr_op(&mut self, rd: u8, rn: u8, kind: DataType, signed: bool, offset: RegisterOffset) -> (r: Cycle)
        requires
            old(self).wf(),
            rd < 16,
            rn < 16,
        ensures
            (r, final(self)@) == spec_ldr::<B>(old(self)@, rd, rn, kind, signed, offset),
            final(self).wf(),
    {
        let (base, s, n): (u32, u8, u8) = if rn == 15 {
            if self.cpsr.thumb() {
                (self.pc() & !2u32, 1, 1)
            } else {
                (self.pc(), 2, 2)
            }
        } else {
            (self.get_reg(rn as usize), 1, 1)
        };
        let addr = match offset.amod {
            AddrMode::IB => base.wrapping_add(offset.value),
            AddrMode::DB => base.wrapping_sub(offset.value),
            _ => base,
        };
        if offset.wb {
            self.set_reg(rn as usize, addr);
        }
        proof {
            crate::utils::bits::lemma_and_le(addr, 1);
            crate::utils::bits::lemma_and_le(addr, 3);
        }
        let value = match kind {
            DataType::HWord => if signed {
                let h = read_hword(&self.bus, addr & !1u32);
                ((h as i16) >> ((addr & 1) * 8)) as i32 as u32
            } else {
                let h = read_hword(&self.bus, addr & !1u32);
                rotate_right(h as u32, ((addr & 1) * 8) as u32)
            },
            DataType::Byte => if signed {
                self.bus.read_byte(addr) as i8 as i32 as u32
            } else {
                self.bus.read_byte(addr) as u32
            },
            DataType::Word => {
                let w = read_word(&self.bus, addr & !3u32);
                rotate_right(w, (addr & 3) * 8)
            },
        };
        match offset.amod {
            AddrMode::IA => self.set_reg(rn as usize, base.wrapping_add(offset.value)),
            AddrMode::DA => self.set_reg(rn as usize, base.wrapping_sub(offset.value)),
            _ => {},
        }
        self.set_reg(rd as usize, value);
        Cycle { i: 1, s, n }
    }

    /// Single store of `kind` from `rs` to base `rn` and `offset` (see
    /// `spec_str`); in ARM state PC is stored as PC + 4.
    pub fn str_op(&mut self, rs: u8, rn: u8, kind: DataType, offset: RegisterOffset) -> (r: Cycle)
        requires
            old(self).wf(),
            rs < 16,
            rn < 16,
        ensures
            (r, final(self)@) == spec_str::<B>(old(self)@, rs, rn, kind, offset),
            final(self).wf(),
    {
        let base = self.get_reg(rn as usize);
        let value = if rs == 15 && !self.cpsr.thumb() {
            self.pc().wrapping_add(4)
        } else {
            self.get_reg(rs as usize)
        };
        let addr = match offset.amod {
            AddrMode::IB => base.wrapping_add(offset.value),
            AddrMode::DB => base.wrapping_sub(offset.value),
            _ => base,
        };
        if offset.wb {
            self.set_reg(rn as usize, addr);
        }
        match kind {
            DataType::Byte => self.bus.write_byte(addr, (value & 0xFF) as u8),
            DataType::HWord => write_hword(&mut self.bus, addr & !1u32, (value & 0xFFFF) as u16),
            DataType::Word => write_word(&mut self.bus, addr & !3u32, value),
        }
        match offset.amod {
            AddrMode::IA => self.set_reg(rn as usize, base.wrapping_add(offset.value)),
            AddrMode::DA => self.set_reg(rn as usize, base.wrapping_sub(offset.value)),
            _ => {},
        }
        Cycle { i: 0, s: 0, n: 2 }
    }

    /// Conditional branch by `offset` bytes from PC; an offset of 0 flushes
    /// the pipeline instead.
    pub fn branch_op(&mut self, cond: Condition, offset: i32) -> (r: Cycle)
        requires
            old(self).wf(),
        ensures
            (r, final(self)@) == old(self)@.spec_branch(cond, offset),
            final(self).wf(),
    {
        if !self.cpsr.matches(cond) {
            return Cycle { i: 0, s: 1, n: 0 };
        }
        if offset != 0 {
            self.shift_pc(offset);
        } else {
            self.pipeline.flush();
        }
        Cycle { i: 0, s: 2, n: 1 }
    }

    /// Address of the instruction after the one executing.
    pub fn next_instr_addr(&self) -> (r: Option<u32>)
        ensures
            r == self@.next_instr_addr(),
    {
        let last_pc = self.pipeline.last_pc();
        let instr_size = self.instr_size() as u32;
        last_pc.checked_sub(instr_size)
    }

    /// First half of a THUMB long branch with link.
    pub fn branch_long_first_op(&mut self, nn: u16) -> (r: Cycle)
        requires
            old(self).wf(),
        ensures
            (r, final(self)@) == old(self)@.spec_branch_long_first(nn),
            final(self).wf(),
    {
        let ext = (((nn as u32) << 21u32) as i32) >> 21u32;
        let upper = (ext as u32) << 12u32;
        let result = self.pc().wrapping_add(upper);
        self.set_reg(LR, result);
        Cycle { i: 0, s: 1, n: 0 }
    }

    /// Second half of a THUMB long branch with link.
    pub fn branch_long_second_op(&mut self, nn: u16) -> (r: Cycle)
        requires
            old(self).wf(),
        ensures
            (r, final(self)@) == old(self)@.spec_branch_long_second(nn),
            final(self).wf(),
    {
        let lower = (nn as u32) << 1u32;
        let lr = self.get_reg(LR) as i32;
        let offset = lr.wrapping_add(lower as i32);
        let lr = match self.next_instr_addr() {
            Some(a) => a,
            None => 0,
        } | 1;
        self.set_pc(offset as u32);
        self.set_reg(LR, lr);
        self.pipeline.flush();
        Cycle { i: 0, s: 2, n: 1 }
    }

    /// MRS: `rd` = the current or the saved status register.
    pub fn store_psr_op(&mut self, rd: u8, kind: PsrKind) -> (r: Cycle)
        requires
            old(self).wf(),
            rd < 16,
            kind is SPSR ==> crate::arm7tdmi::bank::spsr_index(old(self)@.mode()) is Some,
        ensures
            (r, final(self)@) == old(self)@.spec_store_psr(rd, kind),
            final(self).wf(),
    {
        let psr = match kind {
            PsrKind::CPSR => self.cpsr,
            PsrKind::SPSR => self.bank.get_spsr_unchecked(self.cpsr.operating_mode()),
        };
        self.set_reg(rd as usize, psr.value());
        Cycle { i: 0, s: 1, n: 0 }
    }

    /// MSR: replaces the bits of `mask` in a status register with those of the operand.
    ///
    /// A write to the CPSR must leave mode bits that name an operating mode:
    /// every later register access looks the mode up, and with any other
    /// mode bits that lookup fails, so a processor in such a state cannot
    /// run on. The requirement keeps the processor well formed.
    pub fn update_psr_op(&mut self, op: Operand, mask: u32, kind: PsrKind) -> (r: Cycle)
        requires
            old(self).wf(),
            op.wf(),
            kind is CPSR ==> Psr(old(self)@.psr_write_value(op, mask)).has_valid_mode(),
        ensures
            (r, final(self)@) == old(self)@.spec_update_psr(op, mask, kind),
            final(self).wf(),
    {
        let value = self.get_operand(op) & mask;
        let op_mode = self.cpsr.operating_mode();
        match kind {
            PsrKind::CPSR => self.cpsr = Psr::from((self.cpsr.value() & !mask) | value),
            PsrKind::SPSR => self.bank.update_spsr(op_mode, value, mask),
        }
        Cycle { i: 0, s: 1, n: 0 }
    }

    /// Swap: `rd` = memory at the address in `rn`, and the memory = `rm`
    /// (a byte, or a word read rotated by a misaligned address).
    pub fn swap_op(&mut self, rd: u8, rm: u8, rn: u8, byte: bool) -> (r: Cycle)
        requires
            old(self).wf(),
            rd < 16,
            rm < 16,
            rn < 16,
        ensures
            (r, final(self)@) == spec_swap::<B>(old(self)@, rd, rm, rn, byte),
            final(self).wf(),
    {
        let addr = self.get_reg(rn as usize);
        proof {
            crate::utils::bits::lemma_and_le(addr, 3);
        }
        if byte {
            let b = self.bus.read_byte(addr) as u32;
            self.set_reg(rd as usize, b);
            let v = self.get_reg(rm as usize) as u8;
            self.bus.write_byte(addr, v);
        } else {
            let value = read_word(&self.bus, addr & !3u32);
            let v = self.get_reg(rm as usize);
            write_word(&mut self.bus, addr & !3u32, v);
            self.set_reg(rd as usize, rotate_right(value, (addr & 3) * 8));
        }
        Cycle { i: 1, s: 1, n: 2 }
    }

    /// Block store of the registers of `rlist` (see `spec_stm`).
    pub fn stm_op(&mut self, rb: usize, rlist: u16, amod: AddrMode, wb: bool, usr: bool) -> (r: Cycle)
        requires
            old(self).wf(),
            rb < 16,
        ensures
            (r, final(self)@) == spec_stm::<B>(old(self)@, rb as int, rlist, amod, wb, usr),
            final(self).wf(),
    {
        let n = self.count_rlist(rlist);
        let low_addr = self.get_lowest_address(rb, n, amod);
        let mut offset = low_addr;
        let mut pre_write = false;
        if n == 0 {
            let off: i32 = match amod {
                AddrMode::DA => -0x3C,
                AddrMode::DB => -0x40,
                AddrMode::IA => 0x00,
                AddrMode::IB => 0x04,
            };
            let base = self.get_reg(rb);
            let addr = base.wrapping_add_signed(off);
            let pc = self.pipeline.curr_pc.wrapping_add(self.instr_size() as u32 * 2);
            write_word(&mut self.bus, addr, pc);
        }
        let ghost s1 = self@;
        let mut idx: usize = 0;
        while idx < 16
            invariant
                idx <= 16,
                self.wf(),
                rb < 16,
                n <= 16,
                stm_regs::<B>(self@, rb as int, rlist as u32, n, amod, usr, low_addr, idx as int, offset, pre_write)
                    == stm_regs::<B>(s1, rb as int, rlist as u32, n, amod, usr, low_addr, 0, low_addr, false),
            decreases 16 - idx,
        {
            if is_set(rlist as u32, idx as u32) {
                if idx == rb && low_addr != offset {
                    self.write_base_address(rb, n, amod);
                    pre_write = true;
                }
                self.store_reg(idx, &mut offset, usr);
            }
            idx = idx + 1;
        }
        if wb && !pre_write {
            self.write_base_address(rb, n, amod);
        }
        Cycle { i: 1, s: n, n: 1 }
    }

    /// Block load of the registers of `rlist` (see `spec_ldm`).
    pub fn ldm_op(&mut self, rb: usize, rlist: u16, amod: AddrMode, wb: bool, usr: bool) -> (r: Cycle)
        requires
            old(self).wf(),
            rb < 16,
        ensures
            (r, final(self)@) == spec_ldm::<B>(old(self)@, rb as int, rlist, amod, wb, usr),
            final(self).wf(),
    {
        let n = self.count_rlist(rlist);
        let s: u8 = if n == 0 {
            0
        } else {
            n - 1
        };
        let mut skip_write = false;
        if n == 0 {
            let addr = self.get_reg(rb);
            let value = read_word(&self.bus, addr);
            self.set_pc(value);
        }
        let mut offset = self.get_lowest_address(rb, n, amod);
        let ghost s1 = self@;
        let ghost low = offset;
        let mut idx: usize = 0;
        while idx < 16
            invariant
                idx <= 16,
                self.wf(),
                rb < 16,
                n <= 16,
                ldm_regs::<B>(self@, rb as int, rlist as u32, usr, idx as int, offset, skip_write)
                    == ldm_regs::<B>(s1, rb as int, rlist as u32, usr, 0, low, false),
            decreases 16 - idx,
        {
            if is_set(rlist as u32, idx as u32) {
                if idx == rb {
                    skip_write = true;
                }
                self.load_reg(idx, &mut offset, usr);
            }
            idx = idx + 1;
        }
        if wb && !skip_write {
            self.write_base_address(rb, n, amod);
        }
        Cycle { i: 0, s, n: 2 }
    }
}

} // verus!
