use vstd::prelude::*;

use crate::bus::{GbaBus, GbaBusView};
use crate::bus::memory::{Bus, Ram, le16, le32, lemma_hword_register_read_write, spec_read_hword, spec_read_word, spec_write_hword, spec_write_word};
use crate::bus::registers::interrupt::InterruptFlag;
use crate::bus::registers::timer::Timer;
use crate::utils::collections::FifoBuffer;

verus! {

/// The four little-endian bytes of a word make up the word again.
pub proof fn lemma_le32_bytes(v: u32)
    by (bit_vector)
    ensures
        le32(
            (v & 0xFF) as u8,
            ((v >> 8u32) & 0xFF) as u8,
            ((v >> 16u32) & 0xFF) as u8,
            ((v >> 24u32) & 0xFF) as u8,
        ) == v,
{
}

/// On flat memory, reading back a word just written at an address whose
/// four bytes lie in the memory gives the word written, and every byte
/// outside those four is unchanged.
pub proof fn lemma_ram_word_read_after_write(m: Seq<u8>, a: u32, v: u32, b: u32)
    requires
        a as int + 3 < m.len(),
        a <= u32::MAX - 3,
    ensures
        spec_read_word::<Ram>(spec_write_word::<Ram>(m, a, v), a) == v,
        !(a <= b <= a + 3) ==> <Ram as Bus>::spec_read_byte(spec_write_word::<Ram>(m, a, v), b)
            == <Ram as Bus>::spec_read_byte(m, b),
{
    lemma_le32_bytes(v);
    assert(a.wrapping_add(1) == a + 1 && a.wrapping_add(2) == a + 2 && a.wrapping_add(3) == a + 3);
}

/// Whether `address` is in on-board work RAM, on-chip work RAM or SRAM,
/// any of their mirrors.
pub open spec fn is_work_ram(address: u32) -> bool {
    (0x0200_0000 <= address <= 0x03FF_FFFF) || (0x0E00_0000 <= address <= 0x0FFF_FFFF)
}

/// On the GBA bus, a byte written to work RAM or SRAM reads back, at the
/// same address or at any of its mirrors.
pub proof fn lemma_work_ram_read_after_write(v: GbaBusView, a: u32, b: u32, x: u8)
    requires
        v.wf(),
        is_work_ram(a),
        is_work_ram(b),
        (0x0200_0000 <= a <= 0x02FF_FFFF && 0x0200_0000 <= b <= 0x02FF_FFFF && a & 0x3FFFF == b
            & 0x3FFFF) || (0x0300_0000 <= a <= 0x03FF_FFFF && 0x0300_0000 <= b <= 0x03FF_FFFF && a
            & 0x7FFF == b & 0x7FFF) || (0x0E00_0000 <= a <= 0x0FFF_FFFF && 0x0E00_0000 <= b
            <= 0x0FFF_FFFF && a & 0xFFFF == b & 0xFFFF),
    ensures
        <GbaBus as Bus>::spec_read_byte(<GbaBus as Bus>::spec_write_byte(v, a, x), b) == x,
{
    crate::utils::bits::lemma_and_le(a, 0x3FFFF);
    crate::utils::bits::lemma_and_le(a, 0x7FFF);
    crate::utils::bits::lemma_and_le(a, 0xFFFF);
}

proof fn lemma_iwram_offsets(a: u32, b: u32)
    by (bit_vector)
    requires
        0x0300_0000 <= a <= 0x03FF_FFFC,
        0x0300_0000 <= b <= 0x03FF_FFFC,
        a & 0x7FFF == b & 0x7FFF,
    ensures
        ((a + 1) as u32) & 0x7FFF == ((b + 1) as u32) & 0x7FFF,
        ((a + 2) as u32) & 0x7FFF == ((b + 2) as u32) & 0x7FFF,
        ((a + 3) as u32) & 0x7FFF == ((b + 3) as u32) & 0x7FFF,
        a & 0x7FFF != ((a + 1) as u32) & 0x7FFF,
        a & 0x7FFF != ((a + 2) as u32) & 0x7FFF,
        a & 0x7FFF != ((a + 3) as u32) & 0x7FFF,
        ((a + 1) as u32) & 0x7FFF != ((a + 2) as u32) & 0x7FFF,
        ((a + 1) as u32) & 0x7FFF != ((a + 3) as u32) & 0x7FFF,
        ((a + 2) as u32) & 0x7FFF != ((a + 3) as u32) & 0x7FFF,
        a & 0x7FFF < 0x8000,
        ((a + 1) as u32) & 0x7FFF < 0x8000,
        ((a + 2) as u32) & 0x7FFF < 0x8000,
        ((a + 3) as u32) & 0x7FFF < 0x8000,
{
}

proof fn lemma_word_parts(x: u32)
    by (bit_vector)
    ensures
        ((x & 0xFF) as u8) == x as u8,
        (((x >> 24u32) & 0xFF) as u8) == (x >> 24u32) as u8,
        ((((x & 0xFF) as u8) as u16) | ((((x >> 8u32) & 0xFF) as u8) as u16) << 8u16) as u16
            == x as u16,
{
}

/// A word written to on-chip work RAM reads back, at the same address or
/// at any of its mirrors (every 32 KiB), as the word, as its low half-word,
/// and byte by byte in little-endian order.
pub proof fn lemma_iwram_word_read_after_write(v: GbaBusView, a: u32, b: u32, x: u32)
    requires
        v.wf(),
        0x0300_0000 <= a <= 0x03FF_FFFC,
        0x0300_0000 <= b <= 0x03FF_FFFC,
        a & 0x7FFF == b & 0x7FFF,
    ensures
        spec_read_word::<GbaBus>(spec_write_word::<GbaBus>(v, a, x), b) == x,
        spec_read_hword::<GbaBus>(spec_write_word::<GbaBus>(v, a, x), b) == x as u16,
        <GbaBus as Bus>::spec_read_byte(spec_write_word::<GbaBus>(v, a, x), b) == x as u8,
        <GbaBus as Bus>::spec_read_byte(spec_write_word::<GbaBus>(v, a, x), (b + 3) as u32) == (x
            >> 24u32) as u8,
{
    lemma_iwram_offsets(a, b);
    lemma_le32_bytes(x);
    lemma_word_parts(x);
    let o0 = (a & 0x7FFF) as int;
    let o1 = (((a + 1) as u32) & 0x7FFF) as int;
    let o2 = (((a + 2) as u32) & 0x7FFF) as int;
    let o3 = (((a + 3) as u32) & 0x7FFF) as int;
    let b0 = (x & 0xFF) as u8;
    let b1 = ((x >> 8u32) & 0xFF) as u8;
    let b2 = ((x >> 16u32) & 0xFF) as u8;
    let b3 = ((x >> 24u32) & 0xFF) as u8;
    let w = spec_write_word::<GbaBus>(v, a, x);
    let m = v.iwram.update(o0, b0).update(o1, b1).update(o2, b2).update(o3, b3);
    assert(w.iwram == m);
    assert(m[o0] == b0 && m[o1] == b1 && m[o2] == b2 && m[o3] == b3);
}

/// Signalling an interrupt sets its request flag exactly when interrupts
/// are enabled at all and that interrupt is enabled; the other request
/// flags are unchanged.
pub proof fn lemma_send_interrupt(v: GbaBusView, irq: InterruptFlag, other: InterruptFlag)
    ensures
        v.spec_send_interrupt(irq).io.spec_has_irq(irq) == (v.io.spec_has_irq(irq) || (
        v.io.spec_irq_master_enable() && v.io.spec_is_irq_enabled(irq))),
        other != irq ==> v.spec_send_interrupt(irq).io.spec_has_irq(other) == v.io.spec_has_irq(
            other,
        ),
{
    crate::utils::bits::lemma_update16_fits(v.io.irf, irq.spec_bit(), true);
    crate::utils::bits::lemma_with_bit(v.io.irf as u32, irq.spec_bit(), true, irq.spec_bit());
    crate::utils::bits::lemma_with_bit(v.io.irf as u32, irq.spec_bit(), true, other.spec_bit());
}

/// A timer counts one up per count as long as it does not pass 0xFFFF, and
/// then neither overflows nor raises its interrupt.
pub proof fn lemma_timer_counts(t: Timer, n: nat)
    requires
        t.counter + n <= 0xFFFF,
    ensures
        t.spec_increments(n).counter == t.counter + n,
        t.spec_increments(n).overflow == t.overflow,
        t.spec_increments(n).pending_irq == t.pending_irq,
    decreases n,
{
    if n > 0 {
        lemma_timer_counts(t.spec_increment(), (n - 1) as nat);
    }
}

proof fn lemma_prescaler_bits(h: u16)
    by (bit_vector)
    ensures
        ((h as u32) >> 0u32) & 0x3 == (h & 3) as u32,
{
}

/// A running timer that does not count up from the previous timer counts
/// once per 1, 64, 256 or 1024 cycles for prescaler bits 0, 1, 2 or 3: with
/// `d` cycles left over from before, a tick of `cycles` that does not pass
/// 0xFFFF raises the counter by (d + cycles) / P and leaves
/// (d + cycles) % P cycles over, leaving the overflow flag and the pending
/// interrupt as they were.
pub proof fn lemma_timer_prescaler(t: Timer, cycles: u32, prev: bool)
    requires
        t.spec_is_operating(),
        !t.spec_countup_timing(),
    ensures
        ({
            let d = t.divider + cycles;
            let r = t.spec_tick(cycles, prev).1;
            let o = t.spec_tick(cycles, prev).0;
            &&& t.cnt_h & 3 == 0 && t.counter + d <= 0xFFFF ==> r.counter == t.counter + d && r.divider
                == 0 && o == t.overflow && r.pending_irq == t.pending_irq
            &&& t.cnt_h & 3 == 1 && t.counter + d / 64 <= 0xFFFF ==> r.counter == t.counter + d / 64
                && r.divider == d % 64 && o == t.overflow && r.pending_irq == t.pending_irq
            &&& t.cnt_h & 3 == 2 && t.counter + d / 256 <= 0xFFFF ==> r.counter == t.counter + d / 256
                && r.divider == d % 256 && o == t.overflow && r.pending_irq == t.pending_irq
            &&& t.cnt_h & 3 == 3 && t.counter + d / 1024 <= 0xFFFF ==> r.counter == t.counter + d
                / 1024 && r.divider == d % 1024 && o == t.overflow && r.pending_irq == t.pending_irq
        }),
{
    lemma_prescaler_bits(t.cnt_h);
    let step = t.spec_clock_step();
    let d = t.divider + cycles;
    assert(step == 1 || step == 64 || step == 256 || step == 1024);
    if t.counter + d / (step as int) <= 0xFFFF {
        lemma_timer_counts(t, (d / (step as int)) as nat);
    }
}

/// A running count-up timer ignores the cycles: it counts one when the
/// previous timer overflowed, reloading and reporting an overflow when it
/// passes 0xFFFF, and stays as it is otherwise; a stopped timer never changes.
pub proof fn lemma_timer_count_up(t: Timer, cycles: u32, prev: bool)
    ensures
        !t.spec_is_operating() ==> t.spec_tick(cycles, prev) == (false, t),
        t.spec_is_operating() && t.spec_countup_timing() && !prev ==> t.spec_tick(cycles, prev)
            == (t.overflow, Timer { overflow: false, ..t }),
        t.spec_is_operating() && t.spec_countup_timing() && prev && t.counter < 0xFFFF ==> t.spec_tick(
            cycles,
            prev,
        ).1.counter == t.counter + 1,
        t.spec_is_operating() && t.spec_countup_timing() && prev && t.counter == 0xFFFF ==> t.spec_tick(
            cycles,
            prev,
        ).1.counter == t.cnt_l && t.spec_tick(cycles, prev).0,
        t.spec_is_operating() && t.spec_countup_timing() ==> t.spec_tick(cycles, prev).1.divider
            == t.divider,
{
}

proof fn lemma_push_byte(data: u64, len: u64, v: u8, i: u64)
    by (bit_vector)
    requires
        len < 8,
        i <= len,
        data >> (8 * len) == 0,
    ensures
        ((data | ((v as u64) << (8 * len))) >> (8 * i)) as u8 == if i == len {
            v
        } else {
            (data >> (8 * i)) as u8
        },
        len + 1 < 8 ==> (data | ((v as u64) << (8 * len))) >> (8 * (len + 1)) == 0,
{
}

proof fn lemma_pop_byte(data: u64, len: u64, m: u64, i: u64)
    by (bit_vector)
    requires
        1 <= len <= 8,
        m + 1 == len,
        i < m,
        len < 8 ==> data >> (8 * len) == 0,
    ensures
        ((data >> 8) >> (8 * i)) as u8 == (data >> (8 * (i + 1))) as u8,
        m < 8 ==> (data >> 8) >> (8 * m) == 0,
{
}

proof fn lemma_pop_last(data: u64)
    by (bit_vector)
    ensures
        (data >> 8) >> 0 == data >> 8,
        ((data >> 8) >> 56) == 0,
        (data >> 0) as u8 == data as u8,
{
}

/// A push onto a queue with room appends the byte after the queued ones; a
/// push onto a full queue leaves it as it was. Either way the queue stays
/// well formed.
pub proof fn lemma_fifo_push(b: FifoBuffer, v: u8)
    requires
        b.wf(),
    ensures
        b.spec_push(v).wf(),
        b.spec_push(v).contents() == if b.len < 8 {
            b.contents().push(v)
        } else {
            b.contents()
        },
{
    if b.len < 8 {
        let p = b.spec_push(v);
        assert forall|i: int| 0 <= i < p.len implies #[trigger] p.contents()[i] == b.contents().push(v)[i] by {
            lemma_push_byte(b.data, b.len as u64, v, i as u64);
        }
        if b.len + 1 < 8 {
            lemma_push_byte(b.data, b.len as u64, v, 0);
        }
        assert(p.contents() =~= b.contents().push(v));
    }
}

/// A pop from a non-empty queue returns its oldest byte and leaves the
/// others in order; a pop from an empty queue returns nothing.
pub proof fn lemma_fifo_pop(b: FifoBuffer)
    requires
        b.wf(),
    ensures
        b.spec_pop().1.wf(),
        b.len == 0 ==> b.spec_pop().0 is None,
        b.len > 0 ==> b.spec_pop().0 == Some(b.contents()[0]) && b.spec_pop().1.contents()
            == b.contents().drop_first(),
{
    if b.len > 0 {
        let p = b.spec_pop().1;
        let m = (b.len - 1) as u64;
        lemma_pop_last(b.data);
        assert forall|i: int| 0 <= i < p.len implies #[trigger] p.contents()[i] == b.contents().drop_first()[i] by {
            lemma_pop_byte(b.data, b.len as u64, m, i as u64);
        }
        assert(p.wf()) by {
            if b.len >= 2 {
                lemma_pop_byte(b.data, b.len as u64, m, 0);
            } else {
                lemma_pop_last(b.data);
            }
        }
        assert(p.contents() =~= b.contents().drop_first());
    }
}

/// Whether `address` is the first byte of IE, IF, WAITCNT or IME.
pub open spec fn is_system_register(address: u32) -> bool {
    address == 0x0400_0200 || address == 0x0400_0202 || address == 0x0400_0204 || address
        == 0x0400_0208
}

/// The interrupt and wait state control registers read back, as a
/// half-word over the bus, the half-word last written to them.
pub proof fn lemma_system_register_read_after_write(v: GbaBusView, a: u32, x: u16)
    requires
        is_system_register(a),
    ensures
        spec_read_hword::<GbaBus>(spec_write_hword::<GbaBus>(v, a, x), a) == x,
{
    let lo = (x & 0xFF) as u8;
    let hi = (x >> 8u16) as u8;
    lemma_le16_bytes(x);
    let b = a.wrapping_add(1);
    assert(b == a + 1);
    let v1 = <GbaBus as Bus>::spec_write_byte(v, a, lo);
    let v2 = <GbaBus as Bus>::spec_write_byte(v1, b, hi);
    let r0 = if a == 0x0400_0200 {
        v.io.ie
    } else if a == 0x0400_0202 {
        v.io.irf
    } else if a == 0x0400_0204 {
        v.io.waitcnt.value
    } else {
        v.io.ime
    };
    let r1 = <u16 as Bus>::spec_write_byte(r0, a, lo);
    lemma_hword_register_read_write(r1, b, a, hi);
    lemma_hword_register_read_write(r0, a, a, lo);
    lemma_hword_register_read_write(r1, b, b, hi);
}

proof fn lemma_le16_bytes(x: u16)
    by (bit_vector)
    ensures
        le16((x & 0xFF) as u8, (x >> 8u16) as u8) == x,
{
}

} // verus!
