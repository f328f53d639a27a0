use vstd::prelude::*;

verus! {

/// Arithmetic shift right of `lhs`, read as a signed 32-bit value, by `rhs` bits.
pub open spec fn spec_asr(lhs: u32, rhs: u32) -> u32 {
    ((lhs as i32) >> rhs) as u32
}

/// Arithmetic shift right that fills with the sign bit for every shift of 32 or more.
pub open spec fn spec_extended_asr(lhs: u32, rhs: u32) -> u32 {
    if rhs >= 32 {
        spec_asr(lhs, 31)
    } else {
        spec_asr(lhs, rhs)
    }
}

/// Rotation of `x` to the right by `n` bits.
pub open spec fn spec_ror(x: u32, n: u32) -> u32 {
    if n % 32 == 0 {
        x
    } else {
        (x >> (n % 32)) | (x << ((32 - n % 32) as u32))
    }
}

pub fn asr_u32(lhs: u32, rhs: u32) -> (r: u32)
    requires
        rhs < 32,
    ensures
        r == spec_asr(lhs, rhs),
{
    ((lhs as i32) >> rhs) as u32
}

/// Arithmetic shift right that fills with the sign bit for every shift of 32 or more.
pub fn extended_asr(lhs: u32, rhs: u32) -> (r: u32)
    ensures
        r == spec_extended_asr(lhs, rhs),
{
    if rhs >= 32 {
        asr_u32(lhs, 31)
    } else {
        asr_u32(lhs, rhs)
    }
}

/// Rotation of `x` to the right by `n` bits.
pub fn rotate_right(x: u32, n: u32) -> (r: u32)
    ensures
        r == spec_ror(x, n),
{
    let k = n % 32;
    if k == 0 {
        x
    } else {
        (x >> k) | (x << (32 - k))
    }
}

} // verus!
