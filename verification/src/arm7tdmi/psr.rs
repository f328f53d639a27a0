use vstd::prelude::*;
use vstd::string::*;

use crate::arm7tdmi::common::{Condition, OperatingMode};
use crate::utils::bits::{bit, field, get, get_bits, is_set, set_bits, update, with_bit, with_field};

verus! {

/// Program status register.
///
/// | N(31) | Z(30) | C(29) | V(28) | reserved(27-8) | I(7) | F(6) | T(5) | M(4-0) |
#[derive(Debug, Clone, Copy, PartialEq, Eq, Structural)]
pub struct Psr(pub u32);

/// Which status register an instruction reads or writes.
#[derive(Debug, Clone, Copy, PartialEq, Eq, Structural)]
pub enum PsrKind {
    CPSR,
    SPSR,
}

impl PsrKind {
    /// The name of the variant, as instruction listings write it.
    pub open spec fn spec_name(self) -> Seq<char> {
        match self {
            PsrKind::CPSR => "CPSR"@,
            PsrKind::SPSR => "SPSR"@,
        }
    }

    /// The name of the variant (see `spec_name`).
    pub fn name(&self) -> (r: &'static str)
        ensures
            r@ == self.spec_name(),
    {
        match self {
            PsrKind::CPSR => "CPSR",
            PsrKind::SPSR => "SPSR",
        }
    }
}

/// The byte fields of a status register that an MSR instruction writes.
#[derive(Debug, Clone, Copy, PartialEq, Eq, Structural)]
pub struct PsrField {
    pub mask: u32,
}

impl PsrField {
    pub open spec fn spec_mask(fields: u8) -> u32 {
        (if fields & 0x8 != 0 { 0xFF00_0000u32 } else { 0u32 }) | (if fields & 0x4 != 0 {
            0x00FF_0000u32
        } else {
            0u32
        }) | (if fields & 0x2 != 0 { 0x0000_FF00u32 } else { 0u32 }) | (if fields & 0x1 != 0 {
            0x0000_00FFu32
        } else {
            0u32
        })
    }

    /// The write mask of the field bits f, s, x, c (bits 3 to 0 of `fields`).
    pub fn new(fields: u8) -> (r: PsrField)
        ensures
            r.mask == PsrField::spec_mask(fields),
    {
        let f = if fields & 0x8 != 0 { 0xFF00_0000u32 } else { 0u32 };
        let s = if fields & 0x4 != 0 { 0x00FF_0000u32 } else { 0u32 };
        let x = if fields & 0x2 != 0 { 0x0000_FF00u32 } else { 0u32 };
        let c = if fields & 0x1 != 0 { 0x0000_00FFu32 } else { 0u32 };
        PsrField { mask: f | s | x | c }
    }
}

/// Writing a flag bit above the mode bits keeps the mode bits.
pub proof fn lemma_flag_keeps_mode(v: u32, n: u32, b: bool)
    by (bit_vector)
    requires
        5 <= n < 32,
    ensures
        field(with_bit(v, n, b), 0, 0x1F) == field(v, 0, 0x1F),
{
}

impl PsrField {
    /// The fields of the mask as an MSR instruction names them, in the
    /// order `f`, `s`, `x`, `c`.
    pub open spec fn spec_text(self) -> Seq<char> {
        (if self.mask & 0xFF00_0000 != 0 { "f"@ } else { ""@ }) + (if self.mask & 0x00FF_0000 != 0 {
            "s"@
        } else {
            ""@
        }) + (if self.mask & 0x0000_FF00 != 0 { "x"@ } else { ""@ }) + (if self.mask & 0x0000_00FF
            != 0 {
            "c"@
        } else {
            ""@
        })
    }

    /// The fields as text (see `spec_text`).
    pub fn text(&self) -> (r: String)
        ensures
            r@ == self.spec_text(),
    {
        let mut r = String::from_str(if self.mask & 0xFF00_0000 != 0 { "f" } else { "" });
        r.append(if self.mask & 0x00FF_0000 != 0 { "s" } else { "" });
        r.append(if self.mask & 0x0000_FF00 != 0 { "x" } else { "" });
        r.append(if self.mask & 0x0000_00FF != 0 { "c" } else { "" });
        r
    }
}

impl Psr {
    /// N - sign flag
    pub const N: u32 = 31;
    /// Z - zero flag
    pub const Z: u32 = 30;
    /// C - carry flag
    pub const C: u32 = 29;
    /// V - overflow flag
    pub const V: u32 = 28;
    /// I - IRQ disable
    pub const I: u32 = 7;
    /// F - FIQ disable
    pub const F: u32 = 6;
    /// T - state bit (0: ARM, 1: THUMB)
    pub const T: u32 = 5;

    pub open spec fn flag(self, n: u32) -> bool {
        bit(self.0, n)
    }

    pub open spec fn spec_mode_bits(self) -> u32 {
        field(self.0, 0, 0x1F)
    }

    /// Whether the mode bits name an operating mode.
    pub open spec fn has_valid_mode(self) -> bool {
        OperatingMode::is_valid_bits(self.spec_mode_bits())
    }

    pub open spec fn spec_operating_mode(self) -> OperatingMode {
        OperatingMode::spec_from_bits(self.spec_mode_bits())
    }

    pub open spec fn spec_thumb(self) -> bool {
        bit(self.0, 5)
    }

    /// Whether the condition holds for the flags N, Z, C and V.
    pub open spec fn spec_matches(self, cond: Condition) -> bool {
        let n = bit(self.0, 31);
        let z = bit(self.0, 30);
        let c = bit(self.0, 29);
        let v = bit(self.0, 28);
        match cond {
            Condition::EQ => z,
            Condition::NE => !z,
            Condition::CS => c,
            Condition::CC => !c,
            Condition::MI => n,
            Condition::PL => !n,
            Condition::VS => v,
            Condition::VC => !v,
            Condition::HI => c && !z,
            Condition::LS => !c || z,
            Condition::GE => n == v,
            Condition::LT => n != v,
            Condition::GT => !z && n == v,
            Condition::LE => z || n != v,
            Condition::AL => true,
        }
    }

    /// Whether the flag names a status bit with a name.
    pub open spec fn is_named_flag(n: u32) -> bool {
        n == 31 || n == 30 || n == 29 || n == 28 || n == 7 || n == 6 || n == 5
    }

    pub fn from(value: u32) -> (r: Psr)
        ensures
            r.0 == value,
    {
        Psr(value)
    }

    pub fn value(self) -> (r: u32)
        ensures
            r == self.0,
    {
        self.0
    }

    /// Bit `n` as 0 or 1.
    pub fn get(self, n: u32) -> (r: u32)
        requires
            n < 32,
        ensures
            r <= 1,
            r == 1 <==> self.flag(n),
    {
        get(self.0, n)
    }

    /// Whether bit `n` is set.
    pub fn has(self, n: u32) -> (r: bool)
        requires
            n < 32,
        ensures
            r == self.flag(n),
    {
        is_set(self.0, n)
    }

    pub fn z(self) -> (r: bool)
        ensures
            r == self.flag(30),
    {
        is_set(self.0, 30)
    }

    pub fn c(self) -> (r: bool)
        ensures
            r == self.flag(29),
    {
        is_set(self.0, 29)
    }

    /// The sign flag N.
    pub fn s(self) -> (r: bool)
        ensures
            r == self.flag(31),
    {
        is_set(self.0, 31)
    }

    pub fn v(self) -> (r: bool)
        ensures
            r == self.flag(28),
    {
        is_set(self.0, 28)
    }

    /// Whether the processor is in THUMB state.
    pub fn thumb(self) -> (r: bool)
        ensures
            r == self.spec_thumb(),
    {
        is_set(self.0, 5)
    }

    /// Sets bit `n` to `value`.
    pub fn update(&mut self, n: u32, value: bool)
        requires
            n < 32,
        ensures
            final(self).0 == with_bit(old(self).0, n, value),
            final(self).flag(n) == value,
            forall|m: u32| m < 32 && m != n ==> #[trigger] final(self).flag(m) == old(self).flag(m),
            5 <= n ==> final(self).spec_mode_bits() == old(self).spec_mode_bits(),
    {
        self.0 = update(self.0, n, value);
        proof {
            if 5 <= n {
                lemma_flag_keeps_mode(old(self).0, n, value);
            }
        }
    }

    /// Sets Z when `value` is zero and N to bit 31 of `value`.
    pub fn update_zn(&mut self, value: u32)
        ensures
            final(self).0 == with_bit(with_bit(old(self).0, 30, value == 0), 31, bit(value, 31)),
            final(self).flag(30) == (value == 0),
            final(self).flag(31) == bit(value, 31),
            forall|m: u32| m < 30 ==> #[trigger] final(self).flag(m) == old(self).flag(m),
            final(self).spec_mode_bits() == old(self).spec_mode_bits(),
    {
        self.update(30, value == 0);
        let n = is_set(value, 31);
        self.update(31, n);
    }

    /// Sets the mode bits to those of `mode`.
    pub fn set_operating_mode(&mut self, mode: OperatingMode)
        ensures
            final(self).0 == with_field(old(self).0, 0, 0x1F, mode.spec_bits()),
            final(self).has_valid_mode(),
            final(self).spec_operating_mode() == mode,
            forall|m: u32| 5 <= m < 32 ==> #[trigger] final(self).flag(m) == old(self).flag(m),
    {
        let bits = mode.bits();
        self.0 = set_bits(self.0, 0, 0x1F, bits);
        proof {
            crate::utils::bits::lemma_with_low_field(old(self).0, bits);
            assert(bits & 0x1F == bits) by (bit_vector)
                requires
                    bits < 32,
            ;
        }
    }

    /// Clears the T bit (ARM state).
    pub fn set_arm_mode(&mut self)
        ensures
            final(self).0 == with_bit(old(self).0, 5, false),
            !final(self).spec_thumb(),
            final(self).spec_mode_bits() == old(self).spec_mode_bits(),
    {
        self.update(5, false);
    }

    /// Sets the T bit (THUMB state).
    pub fn set_thumb_mode(&mut self)
        ensures
            final(self).0 == with_bit(old(self).0, 5, true),
            final(self).spec_thumb(),
            final(self).spec_mode_bits() == old(self).spec_mode_bits(),
    {
        self.update(5, true);
    }

    /// The operating mode of the mode bits.
    pub fn operating_mode(self) -> (r: OperatingMode)
        requires
            self.has_valid_mode(),
        ensures
            r == self.spec_operating_mode(),
    {
        let bits = get_bits(self.0, 0, 0x1F);
        if bits == 0b10000 {
            OperatingMode::USR
        } else if bits == 0b10001 {
            OperatingMode::FIQ
        } else if bits == 0b10010 {
            OperatingMode::IRQ
        } else if bits == 0b10011 {
            OperatingMode::SVC
        } else if bits == 0b10111 {
            OperatingMode::ABT
        } else if bits == 0b11011 {
            OperatingMode::UND
        } else {
            OperatingMode::SYS
        }
    }

    /// Whether the condition holds for the current flags.
    pub fn matches(self, cond: Condition) -> (r: bool)
        ensures
            r == self.spec_matches(cond),
    {
        let n = is_set(self.0, 31);
        let z = is_set(self.0, 30);
        let c = is_set(self.0, 29);
        let v = is_set(self.0, 28);
        match cond {
            Condition::EQ => z,
            Condition::NE => !z,
            Condition::CS => c,
            Condition::CC => !c,
            Condition::MI => n,
            Condition::PL => !n,
            Condition::VS => v,
            Condition::VC => !v,
            Condition::HI => c && !z,
            Condition::LS => !c || z,
            Condition::GE => n == v,
            Condition::LT => n != v,
            Condition::GT => !z && n == v,
            Condition::LE => z || n != v,
            Condition::AL => true,
        }
    }

    /// The letter of a named status bit.
    pub fn format_flag(n: u32) -> (r: &'static str)
        requires
            Psr::is_named_flag(n),
        ensures
            n == 31 ==> r@ == "N"@,
            n == 30 ==> r@ == "Z"@,
            n == 29 ==> r@ == "C"@,
            n == 28 ==> r@ == "V"@,
            n == 7 ==> r@ == "I"@,
            n == 6 ==> r@ == "F"@,
            n == 5 ==> r@ == "T"@,
    {
        if n == 31 {
            "N"
        } else if n == 30 {
            "Z"
        } else if n == 29 {
            "C"
        } else if n == 28 {
            "V"
        } else if n == 7 {
            "I"
        } else if n == 6 {
            "F"
        } else {
            "T"
        }
    }
}

impl Psr {
    /// `1` when bit `n` is set, else `0`.
    pub open spec fn spec_bit_text(self, n: u32) -> Seq<char> {
        if self.flag(n) {
            "1"@
        } else {
            "0"@
        }
    }

    /// The flags and the mode as text:
    /// `N: n, Z: z, C: c, V: v, I: i, F: f, T: t, M: MODE`.
    pub open spec fn spec_text(self) -> Seq<char> {
        "N: "@ + self.spec_bit_text(31) + ", Z: "@ + self.spec_bit_text(30) + ", C: "@
            + self.spec_bit_text(29) + ", V: "@ + self.spec_bit_text(28) + ", I: "@
            + self.spec_bit_text(7) + ", F: "@ + self.spec_bit_text(6) + ", T: "@
            + self.spec_bit_text(5) + ", M: "@ + self.spec_operating_mode().spec_name()
    }

    fn bit_str(self, n: u32) -> (r: &'static str)
        requires
            n < 32,
        ensures
            r@ == self.spec_bit_text(n),
    {
        if self.has(n) {
            "1"
        } else {
            "0"
        }
    }

    /// The flags and the mode as text (see `spec_text`).
    pub fn text(self) -> (r: String)
        requires
            self.has_valid_mode(),
        ensures
            r@ == self.spec_text(),
    {
        let mut r = String::from_str("N: ");
        r.append(self.bit_str(31));
        r.append(", Z: ");
        r.append(self.bit_str(30));
        r.append(", C: ");
        r.append(self.bit_str(29));
        r.append(", V: ");
        r.append(self.bit_str(28));
        r.append(", I: ");
        r.append(self.bit_str(7));
        r.append(", F: ");
        r.append(self.bit_str(6));
        r.append(", T: ");
        r.append(self.bit_str(5));
        r.append(", M: ");
        r.append(self.operating_mode().name());
        r
    }
}

impl Default for Psr {
    fn default() -> (r: Psr)
        ensures
            r.0 == 0,
    {
        Psr(0)
    }
}

} // verus!
