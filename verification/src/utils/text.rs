use vstd::prelude::*;

verus! {

/// The digit of value `d` (below sixteen; lower-case letters above nine).
pub open spec fn digit_text(d: nat) -> Seq<char> {
    if d == 0 {
        "0"@
    } else if d == 1 {
        "1"@
    } else if d == 2 {
        "2"@
    } else if d == 3 {
        "3"@
    } else if d == 4 {
        "4"@
    } else if d == 5 {
        "5"@
    } else if d == 6 {
        "6"@
    } else if d == 7 {
        "7"@
    } else if d == 8 {
        "8"@
    } else if d == 9 {
        "9"@
    } else if d == 10 {
        "a"@
    } else if d == 11 {
        "b"@
    } else if d == 12 {
        "c"@
    } else if d == 13 {
        "d"@
    } else if d == 14 {
        "e"@
    } else {
        "f"@
    }
}

/// `n` in decimal, without leading zeros.
pub open spec fn dec_text(n: nat) -> Seq<char>
    decreases n,
{
    if n < 10 {
        digit_text(n)
    } else {
        dec_text(n / 10) + digit_text(n % 10)
    }
}

/// `n` in lower-case hexadecimal, without leading zeros.
pub open spec fn hex_text(n: nat) -> Seq<char>
    decreases n,
{
    if n < 16 {
        digit_text(n)
    } else {
        hex_text(n / 16) + digit_text(n % 16)
    }
}

/// `n` in decimal, with a minus sign when negative.
pub open spec fn signed_text(n: int) -> Seq<char> {
    if n < 0 {
        "-"@ + dec_text((-n) as nat)
    } else {
        dec_text(n as nat)
    }
}

/// The digit of value `d`.
pub fn digit_str(d: u32) -> (r: &'static str)
    requires
        d < 16,
    ensures
        r@ == digit_text(d as nat),
{
    match d {
        0 => "0",
        1 => "1",
        2 => "2",
        3 => "3",
        4 => "4",
        5 => "5",
        6 => "6",
        7 => "7",
        8 => "8",
        9 => "9",
        10 => "a",
        11 => "b",
        12 => "c",
        13 => "d",
        14 => "e",
        _ => "f",
    }
}

/// Appends `n` in decimal to `s`.
pub fn write_dec(s: &mut String, n: u32)
    ensures
        final(s)@ == old(s)@ + dec_text(n as nat),
    decreases n,
{
    if n >= 10 {
        write_dec(s, n / 10);
        s.append(digit_str(n % 10));
        assert(s@ =~= old(s)@ + (dec_text((n / 10) as nat) + digit_text((n % 10) as nat)));
    } else {
        s.append(digit_str(n));
    }
}

/// Appends `n` in lower-case hexadecimal to `s`.
pub fn write_hex(s: &mut String, n: u32)
    ensures
        final(s)@ == old(s)@ + hex_text(n as nat),
    decreases n,
{
    if n >= 16 {
        write_hex(s, n / 16);
        s.append(digit_str(n % 16));
        assert(s@ =~= old(s)@ + (hex_text((n / 16) as nat) + digit_text((n % 16) as nat)));
    } else {
        s.append(digit_str(n));
    }
}

/// Appends `n` in decimal, with a minus sign when negative, to `s`.
pub fn write_signed(s: &mut String, n: i32)
    ensures
        final(s)@ == old(s)@ + signed_text(n as int),
{
    if n < 0 {
        s.append("-");
        let m: u32 = if n == i32::MIN {
            0x8000_0000u32
        } else {
            (-n) as u32
        };
        write_dec(s, m);
        assert(s@ =~= old(s)@ + ("-"@ + dec_text((-n) as nat)));
    } else {
        write_dec(s, n as u32);
    }
}

} // verus!
