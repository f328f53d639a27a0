use vstd::prelude::*;

use crate::arm7tdmi::{CarryUpdate, CpuView, spec_shift};
use crate::arm7tdmi::common::{AddrMode, Carry, Condition, DataType, Exception, LongOperand, Operand, ShiftKind, spec_reg};
use crate::arm7tdmi::ops::{LogicalOp, spec_load_value};
use crate::arm7tdmi::pipeline::exception_entry;
use crate::arm7tdmi::psr::lemma_flag_keeps_mode;
use crate::arm7tdmi::thumb::format_16::Format16;
use crate::bus::memory::{Bus, spec_read_hword, spec_read_word};
use crate::utils::bits::{bit, field, lemma_with_low_field, with_bit, with_field};

use vstd::arithmetic::div_mod::{lemma_add_mod_noop, lemma_fundamental_div_mod_converse, lemma_mod_multiples_vanish, lemma_mul_mod_noop_general, lemma_small_mod};
use vstd::arithmetic::power2::{lemma2_to64, lemma_pow2_adds, lemma_pow2_pos, lemma_pow2_strictly_increases, pow2};
use vstd::bits::{lemma_u32_shl_is_mul, lemma_u32_shr_is_div, lemma_u64_shl_is_mul};

verus! {

/// A register value read as a two's-complement signed number.
pub open spec fn signed(x: u32) -> int {
    if x < 0x8000_0000 {
        x as int
    } else {
        x as int - 0x1_0000_0000
    }
}

/// Reading a register just written, in the same mode, gives the value
/// written; writing one register leaves every other register as seen in
/// that mode unchanged, and keeps the register file well formed.
pub proof fn lemma_register_read_after_write<V>(s: CpuView<V>, i: int, j: int, v: u32)
    requires
        s.wf_regs(),
        0 <= i < 16,
        0 <= j < 16,
    ensures
        s.set_reg(i, v).get_reg(j) == if i == j {
            v
        } else {
            s.get_reg(j)
        },
        s.set_reg(i, v).wf_regs(),
        s.set_reg(i, v).mode() == s.mode(),
{
}

proof fn lemma_bit31(v: u32)
    by (bit_vector)
    ensures
        bit(v, 31) == (v >= 0x8000_0000),
{
}

proof fn lemma_overflow_bit(a: u32, b: u32, c: u32)
    by (bit_vector)
    ensures
        bit((a ^ b) & (a ^ c), 31) == (bit(a, 31) != bit(b, 31) && bit(a, 31) != bit(c, 31)),
{
}

proof fn lemma_not_value(y: u32)
    by (bit_vector)
    ensures
        !y == 0xFFFF_FFFF - y,
{
}

proof fn lemma_flag_bits(p: u32, z: bool, n: bool, c: bool, v: bool)
    by (bit_vector)
    ensures
        ({
            let q = with_bit(with_bit(with_bit(with_bit(p, 30, z), 31, n), 29, c), 28, v);
            &&& bit(q, 31) == n
            &&& bit(q, 30) == z
            &&& bit(q, 29) == c
            &&& bit(q, 28) == v
        }),
{
}

/// After a comparison of a register `rn` other than PC with an unshifted
/// operand, holding `x` and `y`, each condition holds exactly when the
/// comparison it names holds: EQ/NE equality, CS/CC/HI/LS the unsigned and
/// GE/LT/GT/LE the signed orderings of `x` and `y`, MI/PL the sign of the
/// wrapped difference.
pub proof fn lemma_compare_conditions<V>(s: CpuView<V>, rn: u8, op: Operand)
    requires
        s.wf_regs(),
        rn < 15,
        op.wf(),
        op.shift is None,
        !op.negate,
    ensures
        ({
            let x = s.get_reg(rn as int);
            let y = s.operand_eval(op, false).0;
            let p = s.spec_add_sub(None, spec_reg(rn), Operand { negate: true, ..op }, Carry::One, true).1.cpsr;
            &&& p.spec_matches(Condition::EQ) == (x == y)
            &&& p.spec_matches(Condition::NE) == (x != y)
            &&& p.spec_matches(Condition::CS) == (x >= y)
            &&& p.spec_matches(Condition::CC) == (x < y)
            &&& p.spec_matches(Condition::HI) == (x > y)
            &&& p.spec_matches(Condition::LS) == (x <= y)
            &&& p.spec_matches(Condition::GE) == (signed(x) >= signed(y))
            &&& p.spec_matches(Condition::LT) == (signed(x) < signed(y))
            &&& p.spec_matches(Condition::GT) == (signed(x) > signed(y))
            &&& p.spec_matches(Condition::LE) == (signed(x) <= signed(y))
            &&& p.spec_matches(Condition::MI) == (x.wrapping_sub(y) >= 0x8000_0000)
        }),
{
    let x = s.get_reg(rn as int);
    let y = s.operand_eval(op, false).0;
    let ny = s.operand_eval(Operand { negate: true, ..op }, false).0;
    assert(ny == !y);
    lemma_not_value(y);
    let sum = x as int + ny as int + 1;
    let res: u32 = if sum > u32::MAX {
        (sum - 0x1_0000_0000) as u32
    } else {
        sum as u32
    };
    assert(res == x.wrapping_sub(y));
    lemma_bit31(res);
    lemma_bit31(x);
    lemma_bit31(ny);
    lemma_overflow_bit(res, x, ny);
    lemma_flag_bits(s.cpsr.0, res == 0, bit(res, 31), sum > u32::MAX, bit((res ^ x) & (res ^ ny), 31));
}

/// Entering an exception switches to the exception's mode in ARM state,
/// masks IRQs for reset and interrupts (keeping the mask otherwise), saves
/// the interrupted CPSR in that mode's SPSR and jumps to the vector, so that
/// restoring the CPSR from the SPSR there gives back the interrupted CPSR.
pub proof fn lemma_exception_return<V>(s: CpuView<V>, e: Exception)
    requires
        s.wf_regs(),
    ensures
        ({
            let t = exception_entry(s, e);
            &&& t.mode() == e.spec_operating_mode()
            &&& !t.thumb()
            &&& t.cpsr.flag(7) == (e.spec_disable_irq() || s.cpsr.flag(7))
            &&& t.pc() == e.spec_vector()
            &&& t.bank.get_spsr(t.mode()) == Some(s.cpsr)
            &&& t.wf_regs()
        }),
{
    let irq = e.spec_disable_irq() || s.cpsr.flag(7);
    let fiq = e.spec_disable_fiq() || s.cpsr.flag(6);
    let bits = e.spec_operating_mode().spec_bits();
    let m = with_field(s.cpsr.0, 0, 0x1F, bits);
    lemma_with_low_field(s.cpsr.0, bits);
    assert(bits & 0x1F == bits) by (bit_vector)
        requires
            bits < 32,
    ;
    let m5 = with_bit(m, 5, false);
    let m7 = with_bit(m5, 7, irq);
    lemma_flag_keeps_mode(m, 5, false);
    lemma_flag_keeps_mode(m5, 7, irq);
    lemma_flag_keeps_mode(m7, 6, fiq);
    crate::utils::bits::lemma_with_bit(m7, 6, fiq, 7);
    crate::utils::bits::lemma_with_bit(m5, 7, irq, 7);
    crate::utils::bits::lemma_with_bit(m7, 6, fiq, 5);
    crate::utils::bits::lemma_with_bit(m5, 7, irq, 5);
    crate::utils::bits::lemma_with_bit(m, 5, false, 5);
    let s1 = match s.next_instr_addr() {
        Some(a) => s.set_reg(14, a),
        None => s,
    };
    if let Some(a) = s.next_instr_addr() {
        lemma_register_read_after_write(s, 14, 14, a);
    }
    assert(s1.wf_regs());
    assert(s1.cpsr == s.cpsr);
    let t = exception_entry(s, e);
    let mode_bits = field(t.cpsr.0, 0, 0x1F);
    assert(mode_bits == bits);
    assert(t.mode() == e.spec_operating_mode());
    assert(t.bank.get_spsr(t.mode()) == Some(s.cpsr));
    assert(t.pc() == e.spec_vector());
    assert(!t.thumb());
    assert(t.cpsr.has_valid_mode());
    assert(t.bank.wf());
}


/// A register as a factor of a multiplication: signed or unsigned.
pub open spec fn factor(x: u32, is_signed: bool) -> int {
    if is_signed {
        signed(x)
    } else {
        x as int
    }
}

/// The accumulator of a multiply-accumulate as a number: the `lo`
/// register, plus 2^32 times the `hi` register of a long accumulator.
pub open spec fn accumulator<V>(s: CpuView<V>, acc: Option<LongOperand>) -> int {
    match acc {
        None => 0,
        Some(reg) => match reg.hi {
            Some(h) => s.get_reg(h as int) * 0x1_0000_0000 + s.get_reg(reg.lo as int),
            None => s.get_reg(reg.lo as int) as int,
        },
    }
}

proof fn lemma_sign_extend(v: u32)
    by (bit_vector)
    ensures
        v < 0x8000_0000 ==> (v as i32 as i64 as u64) == v as u64,
        v >= 0x8000_0000 ==> (v as i32 as i64 as u64) == (v as u64) + 0xFFFF_FFFF_0000_0000u64,
{
}

proof fn lemma_long_join(h: u32, l: u32)
    by (bit_vector)
    ensures
        ((h as u64) << 32u64) | (l as u64) == (h as u64) * 0x1_0000_0000u64 + (l as u64),
        (h as u64) * 0x1_0000_0000u64 + (l as u64) < 0x1_0000_0000_0000_0000,
{
}

/// The 64-bit result of a multiplication is the product of the two
/// registers, both signed or both unsigned, plus the accumulator, modulo
/// 2^64.
pub proof fn lemma_mul_value<V>(s: CpuView<V>, lhs: u8, rhs: u8, acc: Option<LongOperand>, is_signed: bool)
    ensures
        s.mul_value(lhs, rhs, acc, is_signed) as int == (factor(s.get_reg(lhs as int), is_signed)
            * factor(s.get_reg(rhs as int), is_signed) + accumulator(s, acc))
            % 0x1_0000_0000_0000_0000,
{
    let m: int = 0x1_0000_0000_0000_0000;
    let lv = s.get_reg(lhs as int);
    let rv = s.get_reg(rhs as int);
    let fl = factor(lv, is_signed);
    let fr = factor(rv, is_signed);
    let (l, r): (u64, u64) = if is_signed {
        (lv as i32 as i64 as u64, rv as i32 as i64 as u64)
    } else {
        (lv as u64, rv as u64)
    };
    lemma_sign_extend(lv);
    lemma_sign_extend(rv);
    // the operands are the factors modulo 2^64
    assert(l as int == fl % m) by {
        if fl < 0 {
            lemma_mod_multiples_vanish(1, fl, m);
            lemma_small_mod((fl + m) as nat, m as nat);
        } else {
            lemma_small_mod(fl as nat, m as nat);
        }
    }
    assert(r as int == fr % m) by {
        if fr < 0 {
            lemma_mod_multiples_vanish(1, fr, m);
            lemma_small_mod((fr + m) as nat, m as nat);
        } else {
            lemma_small_mod(fr as nat, m as nat);
        }
    }
    let a = s.acc_value(acc);
    assert(a as int == accumulator(s, acc)) by {
        match acc {
            None => {},
            Some(reg) => {
                match reg.hi {
                    Some(h) => lemma_long_join(s.get_reg(h as int), s.get_reg(reg.lo as int)),
                    None => lemma_long_join(0, s.get_reg(reg.lo as int)),
                }
            },
        }
    }
    let p = l.wrapping_mul(r);
    assert(p as int == (fl * fr) % m) by {
        lemma_mul_mod_noop_general(fl, fr, m);
    }
    lemma_small_mod(a as nat, m as nat);
    lemma_add_mod_noop(fl * fr, a as int, m);
    lemma_small_mod(p as nat, m as nat);
    assert(p.wrapping_add(a) as int == (p as int + a as int) % m) by {
        if p as int + a as int >= m {
            lemma_mod_multiples_vanish(-1, p as int + a as int, m);
            lemma_small_mod((p as int + a as int - m) as nat, m as nat);
        } else {
            lemma_small_mod((p as int + a as int) as nat, m as nat);
        }
    }
}

proof fn lemma_split_long(x: u64)
    by (bit_vector)
    ensures
        ((x >> 32u64) as u32) as u64 * 0x1_0000_0000u64 + ((x as u32) as u64) == x,
        (x as u32) as u64 == x % 0x1_0000_0000u64,
{
}

/// After a multiplication the destination holds the result: a 32-bit
/// multiplication leaves the result modulo 2^32 in `dst.lo`, and a long
/// one leaves `dst.hi` * 2^32 + `dst.lo` equal to the 64-bit result (see
/// `lemma_mul_value`), whichever flags it updates.
pub proof fn lemma_mul_registers<V>(
    s: CpuView<V>,
    dst: LongOperand,
    lhs: u8,
    rhs: u8,
    acc: Option<LongOperand>,
    update: bool,
    is_signed: bool,
)
    requires
        s.wf_regs(),
        dst.lo < 16,
        dst.hi matches Some(h) ==> h < 16 && h != dst.lo,
    ensures
        s.spec_mul(dst, lhs, rhs, acc, update, is_signed).1.get_reg(dst.lo as int) as int == s.mul_value(
            lhs,
            rhs,
            acc,
            is_signed,
        ) as int % 0x1_0000_0000,
        dst.hi matches Some(h) ==> s.spec_mul(dst, lhs, rhs, acc, update, is_signed).1.get_reg(
            h as int,
        ) * 0x1_0000_0000 + s.spec_mul(dst, lhs, rhs, acc, update, is_signed).1.get_reg(
            dst.lo as int,
        ) == s.mul_value(lhs, rhs, acc, is_signed) as int,
{
    let res = s.mul_value(lhs, rhs, acc, is_signed);
    lemma_split_long(res);
    let res_hi = (res >> 32u64) as u32;
    let res_lo = res as u32;
    let s1 = if update {
        s.with_flag(30, res == 0).with_flag(31, bit(res_hi, 31)).with_flag(29, false)
    } else {
        s
    };
    lemma_flag_keeps_mode(s.cpsr.0, 30, res == 0);
    lemma_flag_keeps_mode(s.with_flag(30, res == 0).cpsr.0, 31, bit(res_hi, 31));
    lemma_flag_keeps_mode(
        s.with_flag(30, res == 0).with_flag(31, bit(res_hi, 31)).cpsr.0,
        29,
        false,
    );
    assert(s1.wf_regs() && s1.mode() == s.mode());
    match dst.hi {
        Some(h) => {
            lemma_register_read_after_write(s1, h as int, h as int, res_hi);
            let s2 = s1.set_reg(h as int, res_hi);
            lemma_register_read_after_write(s2, dst.lo as int, dst.lo as int, res_lo);
            lemma_register_read_after_write(s2, dst.lo as int, h as int, res_lo);
        },
        None => {
            lemma_register_read_after_write(s1, dst.lo as int, dst.lo as int, res_lo);
        },
    }
}

proof fn lemma_shl_via_u64(x: u32, n: u32)
    by (bit_vector)
    requires
        n < 32,
    ensures
        x << n == (((x as u64) << (n as u64)) as u32),
{
}

proof fn lemma_u64_to_u32(x: u64)
    by (bit_vector)
    ensures
        (x as u32) as int == x % 0x1_0000_0000,
{
}

/// A left shift by 1-31 is a multiplication by a power of two, modulo 2^32.
proof fn lemma_lsl_value(x: u32, n: u32)
    requires
        1 <= n <= 31,
    ensures
        (x << n) as int == (x * pow2(n as nat)) % 0x1_0000_0000,
{
    lemma_shl_via_u64(x, n);
    lemma_pow2_strictly_increases(n as nat, 32);
    lemma_pow2_pos(n as nat);
    lemma2_to64();
    assert((x as u64) * pow2(n as nat) <= u64::MAX) by (nonlinear_arith)
        requires
            x < 0x1_0000_0000,
            pow2(n as nat) < 0x1_0000_0000,
    ;
    lemma_u64_shl_is_mul(x as u64, n as u64);
    lemma_u64_to_u32((x as u64) << (n as u64));
}

proof fn lemma_asr_bits(x: u32, n: u32)
    by (bit_vector)
    requires
        n < 32,
    ensures
        x < 0x8000_0000 ==> ((x as i32) >> n) as u32 == x >> n,
        x >= 0x8000_0000 ==> ((x as i32) >> n) as u32 == !((!x) >> n),
        !x == 0xFFFF_FFFFu32 - x,
        !((!x) >> n) == 0xFFFF_FFFFu32 - ((!x) >> n),
{
}

/// An arithmetic right shift by 0-31 is the floor of the signed value
/// divided by a power of two, modulo 2^32.
proof fn lemma_asr_value(x: u32, n: u32)
    requires
        n <= 31,
    ensures
        crate::utils::ops::spec_asr(x, n) as int == (signed(x) / (pow2(n as nat) as int)) % 0x1_0000_0000,
{
    let d: int = pow2(n as nat) as int;
    let m: int = 0x1_0000_0000;
    lemma_asr_bits(x, n);
    lemma_pow2_pos(n as nat);
    lemma_u32_shr_is_div(x, n);
    lemma_u32_shr_is_div(!x, n);
    if x < 0x8000_0000 {
        let xi: int = x as int;
        assert(0 <= xi / d <= xi) by (nonlinear_arith)
            requires
                d >= 1,
                xi >= 0,
        ;
        lemma_small_mod((xi / d) as nat, m as nat);
    } else {
        let y: int = (!x) as int;
        let q = y / d;
        let r = y % d;
        assert(y == q * d + r && 0 <= r < d) by (nonlinear_arith)
            requires
                d > 0,
                q == y / d,
                r == y % d,
        ;
        assert(signed(x) == -(y + 1));
        assert(signed(x) == (-(q + 1)) * d + (d - 1 - r)) by (nonlinear_arith)
            requires
                signed(x) == -(y + 1),
                y == q * d + r,
        ;
        lemma_fundamental_div_mod_converse(signed(x), d, -(q + 1), d - 1 - r);
        assert(0 <= q <= y) by (nonlinear_arith)
            requires
                d >= 1,
                q == y / d,
                y >= 0,
        ;
        lemma_mod_multiples_vanish(1, -(q + 1), m);
        lemma_small_mod((m - (q + 1)) as nat, m as nat);
    }
}

proof fn lemma_ror_bits(x: u32, n: u32)
    by (bit_vector)
    requires
        1 <= n <= 31,
    ensures
        (x >> n) | (x << ((32 - n) as u32)) == (x >> n) + ((x & (((1u32 << n) - 1u32) as u32)) << ((32
            - n) as u32)),
        x << ((32 - n) as u32) == (x & (((1u32 << n) - 1u32) as u32)) << ((32 - n) as u32),
        x & (((1u32 << n) - 1u32) as u32) < (1u32 << n),
{
}

proof fn lemma_low_mask_mod(x: u32, n: u32)
    requires
        1 <= n <= 31,
    ensures
        (x & (((1u32 << n) - 1u32) as u32)) as int == x as int % (pow2(n as nat) as int),
{
    lemma_pow2_strictly_increases(n as nat, 32);
    lemma2_to64();
    lemma_u32_shl_is_mul(1, n);
    vstd::bits::lemma_u32_low_bits_mask_is_mod(x, n as nat);
    vstd::bits::lemma_low_bits_mask_unfold(n as nat);
}

/// A rotation right by 1-31 moves the low bits above the others.
proof fn lemma_ror_value(x: u32, n: u32)
    requires
        1 <= n <= 31,
    ensures
        crate::utils::ops::spec_ror(x, n) as int == x as int / (pow2(n as nat) as int) + (x as int
            % (pow2(n as nat) as int)) * (pow2((32 - n) as nat) as int),
{
    let d: int = pow2(n as nat) as int;
    let e: int = pow2((32 - n) as nat) as int;
    let k = (32 - n) as u32;
    let low = x & (((1u32 << n) - 1u32) as u32);
    lemma_ror_bits(x, n);
    lemma_low_mask_mod(x, n);
    lemma_u32_shr_is_div(x, n);
    lemma_pow2_pos(n as nat);
    lemma_pow2_pos((32 - n) as nat);
    lemma_pow2_adds(n as nat, (32 - n) as nat);
    lemma2_to64();
    assert(low as int * e <= u32::MAX) by (nonlinear_arith)
        requires
            0 <= low < d,
            d * e == 0x1_0000_0000,
            e > 0,
    ;
    lemma_u32_shl_is_mul(low, k);
    assert(n % 32 == n);
}

/// The barrel shifter by an amount of 1 to 31, as arithmetic: a left shift
/// multiplies by 2^n modulo 2^32, a logical right shift divides by 2^n, an
/// arithmetic right shift divides the signed value by 2^n rounding down
/// (modulo 2^32), and a rotation moves the low n bits above the others; the
/// carry comes from bit n - 1.
pub proof fn lemma_shift_values(lhs: u32, rhs: u32, kind: ShiftKind, imm: bool, update: bool, c: bool)
    requires
        1 <= rhs <= 31,
    ensures
        spec_shift(lhs, rhs, kind, imm, update, c).1 == CarryUpdate::Bit((rhs - 1) as u32),
        kind is LSL ==> spec_shift(lhs, rhs, kind, imm, update, c).0 as int == (lhs * pow2(
            rhs as nat,
        )) % 0x1_0000_0000,
        kind is LSR ==> spec_shift(lhs, rhs, kind, imm, update, c).0 as int == lhs as int / (pow2(
            rhs as nat,
        ) as int),
        kind is ASR ==> spec_shift(lhs, rhs, kind, imm, update, c).0 as int == (signed(lhs) / (pow2(
            rhs as nat,
        ) as int)) % 0x1_0000_0000,
        kind is ROR ==> spec_shift(lhs, rhs, kind, imm, update, c).0 as int == lhs as int / (pow2(
            rhs as nat,
        ) as int) + (lhs as int % (pow2(rhs as nat) as int)) * (pow2((32 - rhs) as nat) as int),
{
    assert(rhs % 32 == rhs);
    match kind {
        ShiftKind::LSL => lemma_lsl_value(lhs, rhs),
        ShiftKind::LSR => lemma_u32_shr_is_div(lhs, rhs),
        ShiftKind::ASR => lemma_asr_value(lhs, rhs),
        ShiftKind::ROR => lemma_ror_value(lhs, rhs),
    }
}

/// The barrel shifter by 32 or more: a logical shift by exactly 32, or by
/// more when flags are updated, gives 0; an arithmetic right shift fills
/// every bit with the sign.
pub proof fn lemma_shift_by_32_or_more(
    lhs: u32,
    rhs: u32,
    kind: ShiftKind,
    imm: bool,
    update: bool,
    c: bool,
)
    requires
        rhs >= 32,
    ensures
        (kind is LSL || kind is LSR) && (rhs == 32 || update) ==> spec_shift(
            lhs,
            rhs,
            kind,
            imm,
            update,
            c,
        ).0 == 0,
        kind is ASR ==> spec_shift(lhs, rhs, kind, imm, update, c).0 == if signed(lhs) < 0 {
            0xFFFF_FFFFu32
        } else {
            0u32
        },
{
    lemma_asr_value(lhs, 31);
    lemma2_to64();
    let d: int = 0x8000_0000;
    if signed(lhs) < 0 {
        lemma_fundamental_div_mod_converse(signed(lhs), d, -1, signed(lhs) + d);
        lemma_mod_multiples_vanish(1, -1, 0x1_0000_0000);
        lemma_small_mod(0xFFFF_FFFF, 0x1_0000_0000);
    } else {
        lemma_fundamental_div_mod_converse(signed(lhs), d, 0, signed(lhs));
        lemma_small_mod(0, 0x1_0000_0000);
    }
}

/// Changing a condition flag (bits 28-31) or another status bit above the
/// mode bits keeps the register file as seen in the current mode.
pub proof fn lemma_with_flag_keeps_registers<V>(s: CpuView<V>, n: u32, b: bool)
    requires
        s.wf_regs(),
        5 <= n < 32,
    ensures
        s.with_flag(n, b).wf_regs(),
        s.with_flag(n, b).mode() == s.mode(),
        forall|i: int| #[trigger] s.with_flag(n, b).get_reg(i) == s.get_reg(i),
{
    lemma_flag_keeps_mode(s.cpsr.0, n, b);
}

proof fn lemma_operand_state<V>(s: CpuView<V>, op: Operand, update: bool)
    requires
        s.wf_regs(),
    ensures
        s.operand_eval(op, update).1.wf_regs(),
        s.operand_eval(op, update).1.mode() == s.mode(),
        forall|i: int| #[trigger] s.operand_eval(op, update).1.get_reg(i) == s.get_reg(i),
{
    if let Some(sh) = op.shift {
        if update {
            lemma_with_flag_keeps_registers(s, 29, true);
            lemma_with_flag_keeps_registers(s, 29, false);
        }
    }
}

proof fn lemma_zero_results(x: u32, y: u32, p: u32, q: u32)
    by (bit_vector)
    ensures
        (x ^ y == 0) == (x == y),
        bit(with_bit(with_bit(p, 30, q == 0), 31, bit(q, 31)), 30) == (q == 0),
{
}

/// The logical operations of the ALU compute the bitwise and, exclusive or
/// and or of the first register and the operand value into the destination
/// (so an exclusive or of two equal values gives 0); a test without
/// destination sets Z exactly when that result is 0: TEQ when the two values
/// are equal, TST when they share no set bit.
pub proof fn lemma_logical_results<V>(s: CpuView<V>, func: LogicalOp, rd: u8, lhs: u8, op: Operand, update: bool)
    requires
        s.wf_regs(),
        rd < 16,
        lhs < 16,
    ensures
        ({
            let x = s.get_reg(lhs as int);
            let v = s.operand_eval(op, update).0;
            let t = s.spec_logical_op(func, Some(rd), lhs, op, update).1;
            &&& func is Eor ==> t.get_reg(rd as int) == x ^ v
            &&& func is And ==> t.get_reg(rd as int) == x & v
            &&& func is Orr ==> t.get_reg(rd as int) == x | v
            &&& func is Eor && x == v ==> t.get_reg(rd as int) == 0
        }),
        ({
            let x = s.get_reg(lhs as int);
            let v = s.operand_eval(op, true).0;
            let p = s.spec_logical_op(func, None, lhs, op, true).1.cpsr;
            &&& func is Eor ==> (p.flag(30) <==> x == v)
            &&& func is And ==> (p.flag(30) <==> x & v == 0)
        }),
{
    let x = s.get_reg(lhs as int);
    lemma_operand_state(s, op, update);
    lemma_operand_state(s, op, true);
    let (v, s1) = s.operand_eval(op, update);
    let res = crate::arm7tdmi::ops::spec_logical(func, x, v);
    if update {
        lemma_with_flag_keeps_registers(s1, 30, res == 0);
        lemma_with_flag_keeps_registers(s1.with_flag(30, res == 0), 31, bit(res, 31));
    }
    let s2 = if update { s1.update_zn(res) } else { s1 };
    lemma_register_read_after_write(s2, rd as int, rd as int, res);
    assert(x ^ x == 0) by (bit_vector);
    let (w, u1) = s.operand_eval(op, true);
    let r2 = crate::arm7tdmi::ops::spec_logical(func, x, w);
    lemma_zero_results(x, w, u1.cpsr.0, r2);
}

proof fn lemma_mod_wrap(z: int)
    requires
        -0x1_0000_0000 <= z < 0x2_0000_0000,
    ensures
        z % 0x1_0000_0000 == if z < 0 {
            z + 0x1_0000_0000
        } else if z >= 0x1_0000_0000 {
            z - 0x1_0000_0000
        } else {
            z
        },
{
    let m: int = 0x1_0000_0000;
    if z < 0 {
        lemma_fundamental_div_mod_converse(z, m, -1, z + m);
    } else if z >= m {
        lemma_fundamental_div_mod_converse(z, m, 1, z - m);
    } else {
        lemma_fundamental_div_mod_converse(z, m, 0, z);
    }
}

/// The words of a block transfer of n (1 to 16) registers from base b,
/// modulo 2^32: increment-after uses b .. b+4(n-1), increment-before
/// b+4 .. b+4n, decrement-after b-4(n-1) .. b and decrement-before
/// b-4n .. b-4 (never b itself); the registers go up from the lowest
/// address, and write-back moves the base by 4n in the transfer's direction,
/// so that after a decrement-before transfer it points at the lowest word.
pub proof fn lemma_block_addresses<V>(s: CpuView<V>, rb: int, n: u8, amod: AddrMode)
    requires
        1 <= n <= 16,
    ensures
        ({
            let m: int = 0x1_0000_0000;
            let b = s.get_reg(rb) as int;
            let lo = s.lowest_address(rb, n, amod) as int;
            let hi = (lo + 4 * (n - 1)) % m;
            let after = s.base_after(rb, n, amod) as int;
            &&& amod is IA ==> lo == b && hi == (b + 4 * (n - 1)) % m && after == (b + 4 * n) % m
            &&& amod is IB ==> lo == (b + 4) % m && hi == (b + 4 * n) % m && after == hi
            &&& amod is DA ==> lo == (b - 4 * (n - 1)) % m && hi == b && after == (b - 4 * n) % m
            &&& amod is DB ==> lo == (b - 4 * n) % m && hi == (b - 4) % m && after == lo
        }),
{
    let m: int = 0x1_0000_0000;
    let b = s.get_reg(rb) as int;
    let lo = s.lowest_address(rb, n, amod) as int;
    lemma_mod_wrap(b + 4);
    lemma_mod_wrap(b - 4);
    lemma_mod_wrap(b + 4 * n);
    lemma_mod_wrap(b - 4 * n);
    lemma_mod_wrap(b + 4 * (n - 1));
    lemma_mod_wrap(b - 4 * (n - 1));
    lemma_mod_wrap(lo + 4 * (n - 1));
}

proof fn lemma_extend_bits(b: u8, h: u16, a: u32)
    by (bit_vector)
    ensures
        b < 0x80 ==> (b as i8 as i32 as u32) == b as u32,
        b >= 0x80 ==> (b as i8 as i32 as u32) == (b as u32) + 0xFFFF_FF00u32,
        a & 1 == 0 && h < 0x8000 ==> (((h as i16) >> (((a & 1) * 8) as u32)) as i32) as u32 == h as u32,
        a & 1 == 0 && h >= 0x8000 ==> (((h as i16) >> (((a & 1) * 8) as u32)) as i32) as u32 == (h as u32) + 0xFFFF_0000u32,
        a & 1 == 0 ==> ((a & 1) * 8) as u32 == 0,
        a & 1 == 0 ==> a & !1u32 == a,
        a & 3 == 0 ==> ((a & 3) * 8) as u32 == 0,
        a & 3 == 0 ==> a & !3u32 == a,
{
}

/// The value of a single load: an unsigned byte or half-word is the value
/// read, zero-extended; a signed one is the value read sign-extended, so
/// its upper bits are all set exactly when its top bit is (and then it
/// differs from the unsigned load); an aligned word is the word read.
pub proof fn lemma_load_values<B: Bus>(bus: B::V, addr: u32)
    ensures
        ({
            let byte = B::spec_read_byte(bus, addr);
            &&& spec_load_value::<B>(bus, DataType::Byte, false, addr) == byte as u32
            &&& spec_load_value::<B>(bus, DataType::Byte, true, addr) as int == if byte < 0x80 {
                byte as int
            } else {
                byte as int + 0xFFFF_FF00
            }
        }),
        addr & 1 == 0 ==> ({
            let h = spec_read_hword::<B>(bus, addr);
            &&& spec_load_value::<B>(bus, DataType::HWord, false, addr) == h as u32
            &&& spec_load_value::<B>(bus, DataType::HWord, true, addr) as int == if h < 0x8000 {
                h as int
            } else {
                h as int + 0xFFFF_0000
            }
        }),
        addr & 3 == 0 ==> spec_load_value::<B>(bus, DataType::Word, false, addr) == spec_read_word::<B>(bus, addr),
{
    lemma_extend_bits(B::spec_read_byte(bus, addr), spec_read_hword::<B>(bus, addr & !1u32), addr);
}

/// A THUMB conditional branch with condition field `c` branches exactly
/// when ARM condition `c` holds on the flags: then it takes 2S + 1N cycles
/// and (for a non-zero offset) moves PC by the offset; otherwise it takes
/// one sequential cycle and changes nothing. Field by field, in terms of
/// the flags: 0 (EQ) branches iff Z is set, 1 (NE) iff Z is clear, and so on
/// through 13 (LE).
pub proof fn lemma_thumb_branch_condition<B: Bus>(v: u32, s: CpuView<B::V>)
    requires
        Format16::decodable(v),
    ensures
        ({
            let c = field(v, 8, 0xF);
            let i = Format16::spec_from(v);
            let (cy, t) = i.spec_exec::<B>(s);
            let taken = s.cpsr.spec_matches(Condition::spec_new(c as u8));
            &&& taken ==> cy.s == 2 && cy.n == 1
            &&& taken && i.of != 0 ==> t == s.set_pc(s.pc().wrapping_add_signed(i.of as i32))
            &&& !taken ==> cy.s == 1 && cy.n == 0 && t == s
            &&& c == 0 ==> (taken <==> s.cpsr.flag(30))
            &&& c == 1 ==> (taken <==> !s.cpsr.flag(30))
            &&& c == 2 ==> (taken <==> s.cpsr.flag(29))
            &&& c == 3 ==> (taken <==> !s.cpsr.flag(29))
            &&& c == 4 ==> (taken <==> s.cpsr.flag(31))
            &&& c == 5 ==> (taken <==> !s.cpsr.flag(31))
            &&& c == 6 ==> (taken <==> s.cpsr.flag(28))
            &&& c == 7 ==> (taken <==> !s.cpsr.flag(28))
            &&& c == 8 ==> (taken <==> s.cpsr.flag(29) && !s.cpsr.flag(30))
            &&& c == 9 ==> (taken <==> !s.cpsr.flag(29) || s.cpsr.flag(30))
            &&& c == 10 ==> (taken <==> s.cpsr.flag(31) == s.cpsr.flag(28))
            &&& c == 11 ==> (taken <==> s.cpsr.flag(31) != s.cpsr.flag(28))
            &&& c == 12 ==> (taken <==> !s.cpsr.flag(30) && s.cpsr.flag(31) == s.cpsr.flag(28))
            &&& c == 13 ==> (taken <==> s.cpsr.flag(30) || s.cpsr.flag(31) != s.cpsr.flag(28))
        }),
{
}

proof fn lemma_add_state<V>(s: CpuView<V>, res: u32, cout: bool, ov: bool, update: bool, rd: u8)
    requires
        s.wf_regs(),
        rd < 16,
    ensures
        (if update {
            s.update_zn(res).with_flag(29, cout).with_flag(28, ov)
        } else {
            s
        }).write_opt(Some(rd), res).get_reg(rd as int) == res,
{
    let s2 = if update {
        lemma_with_flag_keeps_registers(s, 30, res == 0);
        let a = s.with_flag(30, res == 0);
        lemma_with_flag_keeps_registers(a, 31, bit(res, 31));
        let b = a.with_flag(31, bit(res, 31));
        lemma_with_flag_keeps_registers(b, 29, cout);
        let c = b.with_flag(29, cout);
        lemma_with_flag_keeps_registers(c, 28, ov);
        c.with_flag(28, ov)
    } else {
        s
    };
    lemma_register_read_after_write(s2, rd as int, rd as int, res);
}

/// The adding instructions compute, modulo 2^32, with `x` in register `rn`
/// and `w` the operand value: ADD gives x + w, ADC gives x + w + C (the carry
/// flag as 0 or 1), and SUB (the operand negated, carry in 1) gives x - w
/// (for an operand that is not itself negated).
pub proof fn lemma_add_sub_results<V>(s: CpuView<V>, rd: u8, rn: u8, op: Operand, update: bool)
    requires
        s.wf_regs(),
        rd < 16,
        rn < 15,
        !op.negate,
    ensures
        ({
            let m: int = 0x1_0000_0000;
            let x = s.get_reg(rn as int) as int;
            let w = s.operand_eval(op, false).0 as int;
            let c: int = if s.carry() { 1 } else { 0 };
            &&& s.spec_add_sub(Some(rd), spec_reg(rn), op, Carry::Zero, update).1.get_reg(rd as int)
                as int == (x + w) % m
            &&& s.spec_add_sub(Some(rd), spec_reg(rn), op, Carry::Flag, update).1.get_reg(rd as int)
                as int == (x + w + c) % m
            &&& s.spec_add_sub(Some(rd), spec_reg(rn), Operand { negate: true, ..op }, Carry::One, update).1.get_reg(
                rd as int,
            ) as int == (x - w) % m
        }),
{
    let x = s.get_reg(rn as int);
    let w = s.operand_eval(op, false).0;
    let nw = s.operand_eval(Operand { negate: true, ..op }, false).0;
    assert(nw == !w);
    lemma_not_value(w);
    let c: u32 = if s.carry() { 1 } else { 0 };
    lemma_mod_wrap(x + w);
    lemma_mod_wrap(x + w + c);
    lemma_mod_wrap(x - w);
    let (r0, c0, v0) = crate::arm7tdmi::ops::spec_add_with_carry(x, w, 0);
    let (r1, c1, v1) = crate::arm7tdmi::ops::spec_add_with_carry(x, w, c);
    let (r2, c2, v2) = crate::arm7tdmi::ops::spec_add_with_carry(x, nw, 1);
    lemma_add_state(s, r0, c0, v0, update, rd);
    lemma_add_state(s, r1, c1, v1, update, rd);
    lemma_add_state(s, r2, c2, v2, update, rd);
}

/// MOV puts the operand value into the destination, and MVN (the operand
/// negated) its bitwise complement: no bit set in both, every bit set in
/// one of them. With flags updated, Z is set exactly when the value moved
/// is 0.
pub proof fn lemma_move_results<V>(s: CpuView<V>, rd: u8, op: Operand, update: bool)
    requires
        s.wf_regs(),
        rd < 16,
        !op.negate,
    ensures
        ({
            let w = s.operand_eval(op, update).0;
            let t = s.spec_mov(rd, op, update).1;
            let u = s.spec_mov(rd, Operand { negate: true, ..op }, update).1;
            &&& t.get_reg(rd as int) == w
            &&& u.get_reg(rd as int) & w == 0
            &&& u.get_reg(rd as int) | w == 0xFFFF_FFFF
            &&& update && rd != 15 ==> (t.cpsr.flag(30) <==> w == 0)
        }),
{
    let w = s.operand_eval(op, update).0;
    lemma_operand_state(s, op, update);
    lemma_operand_state(s, Operand { negate: true, ..op }, update);
    let s1 = s.operand_eval(op, update).1;
    let u1 = s.operand_eval(Operand { negate: true, ..op }, update).1;
    let nw = s.operand_eval(Operand { negate: true, ..op }, update).0;
    assert(nw == !w);
    if update {
        lemma_with_flag_keeps_registers(s1, 30, w == 0);
        lemma_with_flag_keeps_registers(s1.with_flag(30, w == 0), 31, bit(w, 31));
        lemma_with_flag_keeps_registers(u1, 30, nw == 0);
        lemma_with_flag_keeps_registers(u1.with_flag(30, nw == 0), 31, bit(nw, 31));
        lemma_zero_results(w, w, s1.cpsr.0, w);
    }
    let s2 = if update { s1.update_zn(w) } else { s1 };
    let u2 = if update { u1.update_zn(nw) } else { u1 };
    lemma_register_read_after_write(s2, rd as int, rd as int, w);
    lemma_register_read_after_write(u2, rd as int, rd as int, nw);
    let u = s.spec_mov(rd, Operand { negate: true, ..op }, update).1;
    assert(u == u2.set_reg(rd as int, nw));
    assert(u.get_reg(rd as int) == nw);
    assert(nw & w == 0 && nw | w == 0xFFFF_FFFF) by (bit_vector)
        requires
            nw == !w,
    ;
}

} // verus!
