use vstd::prelude::*;

verus! {

/// Whether bit `n` of `v` is set.
pub open spec fn bit(v: u32, n: u32) -> bool {
    (v >> n) & 1 == 1
}

/// The field of `v` that starts at bit `lo`, selected by `mask`.
pub open spec fn field(v: u32, lo: u32, mask: u32) -> u32 {
    (v >> lo) & mask
}

/// `v` with the bits of `mask << lo` replaced by `value & mask`.
pub open spec fn with_field(v: u32, lo: u32, mask: u32, value: u32) -> u32 {
    (v & !(mask << lo)) | ((value & mask) << lo)
}

/// `v` with bit `n` set to `b`.
pub open spec fn with_bit(v: u32, n: u32, b: bool) -> u32 {
    if b {
        v | (1u32 << n)
    } else {
        v & !(1u32 << n)
    }
}

pub proof fn lemma_and_le(x: u32, m: u32)
    by (bit_vector)
    ensures
        x & m <= m,
{
}

/// A field is no larger than its mask.
pub broadcast proof fn lemma_field_le(v: u32, lo: u32, mask: u32)
    ensures
        #[trigger] field(v, lo, mask) <= mask,
{
    lemma_and_le(v >> lo, mask);
}

/// Setting or clearing one bit leaves every other bit as it was.
pub proof fn lemma_with_bit(v: u32, n: u32, b: bool, m: u32)
    by (bit_vector)
    requires
        n < 32,
        m < 32,
    ensures
        bit(with_bit(v, n, b), m) == (if m == n { b } else { bit(v, m) }),
{
}

/// Writing a field leaves the bits outside it as they were.
pub proof fn lemma_with_low_field(v: u32, value: u32)
    by (bit_vector)
    ensures
        field(with_field(v, 0, 0x1F, value), 0, 0x1F) == value & 0x1F,
        forall|m: u32| 5 <= m < 32 ==> #[trigger] bit(with_field(v, 0, 0x1F, value), m) == bit(v, m),
{
}

/// Whether bit `n` of `v` is set.
pub fn is_set(v: u32, n: u32) -> (r: bool)
    requires
        n < 32,
    ensures
        r == bit(v, n),
{
    (v >> n) & 1 == 1
}

/// Bit `n` of `v`, as 0 or 1.
pub fn get(v: u32, n: u32) -> (r: u32)
    requires
        n < 32,
    ensures
        r == (v >> n) & 1,
        r <= 1,
        r == 1 <==> bit(v, n),
{
    proof {
        lemma_and_le(v >> n, 1);
    }
    (v >> n) & 1
}

/// The field of `v` that starts at bit `lo`, selected by `mask`.
pub fn get_bits(v: u32, lo: u32, mask: u32) -> (r: u32)
    requires
        lo < 32,
    ensures
        r == field(v, lo, mask),
        r <= mask,
{
    proof {
        lemma_and_le(v >> lo, mask);
    }
    (v >> lo) & mask
}

/// The field of `v` that starts at bit `lo`, selected by a mask below 256.
pub fn get_bits_u8(v: u32, lo: u32, mask: u32) -> (r: u8)
    requires
        lo < 32,
        mask < 256,
    ensures
        r == field(v, lo, mask),
        r <= mask,
{
    get_bits(v, lo, mask) as u8
}

/// `v` with bit `n` set to `b`.
pub fn update(v: u32, n: u32, b: bool) -> (r: u32)
    requires
        n < 32,
    ensures
        r == with_bit(v, n, b),
        bit(r, n) == b,
        forall|m: u32| m < 32 && m != n ==> #[trigger] bit(r, m) == bit(v, m),
{
    proof {
        lemma_with_bit(v, n, b, n);
        assert forall|m: u32| m < 32 && m != n implies #[trigger] bit(with_bit(v, n, b), m) == bit(
            v,
            m,
        ) by {
            lemma_with_bit(v, n, b, m);
        }
    }
    if b {
        v | (1u32 << n)
    } else {
        v & !(1u32 << n)
    }
}

/// `v` with the bits of `mask << lo` replaced by `value & mask`.
pub fn set_bits(v: u32, lo: u32, mask: u32, value: u32) -> (r: u32)
    requires
        lo < 32,
    ensures
        r == with_field(v, lo, mask, value),
{
    (v & !(mask << lo)) | ((value & mask) << lo)
}

/// Bit `n` of a 16-bit register.
pub fn is_set16(v: u16, n: u32) -> (r: bool)
    requires
        n < 16,
    ensures
        r == bit(v as u32, n),
{
    is_set(v as u32, n)
}

/// The field of a 16-bit register that starts at bit `lo`, selected by `mask`.
pub fn get_bits16(v: u16, lo: u32, mask: u32) -> (r: u32)
    requires
        lo < 16,
    ensures
        r == field(v as u32, lo, mask),
        r <= mask,
{
    get_bits(v as u32, lo, mask)
}

/// A 16-bit register with bit `n` set to `b`.
pub fn update16(v: u16, n: u32, b: bool) -> (r: u16)
    requires
        n < 16,
    ensures
        r as u32 == with_bit(v as u32, n, b),
        bit(r as u32, n) == b,
        forall|m: u32| m < 32 && m != n ==> #[trigger] bit(r as u32, m) == bit(v as u32, m),
{
    let r32 = update(v as u32, n, b);
    proof {
        lemma_update16_fits(v, n, b);
    }
    r32 as u16
}

pub proof fn lemma_update16_fits(v: u16, n: u32, b: bool)
    by (bit_vector)
    requires
        n < 16,
    ensures
        with_bit(v as u32, n, b) < 0x10000,
{
}

} // verus!
