//! Rendering numbers as the disassembler prints them: upper-case
//! hexadecimal with a fixed number of digits, and signed decimal.
use vstd::prelude::*;

verus! {

/// The hexadecimal digit of `d` (upper case), for `d` below 16.
pub open spec fn hex_digit(d: u8) -> Seq<char> {
    if d == 0 {
        "0"@
    } else if d == 1 {
        "1"@
    } else if d == 2 {
        "2"@
    } else if d == 3 {
        "3"@
    } else if d == 4 {
        "4"@
    } else if d == 5 {
        "5"@
    } else if d == 6 {
        "6"@
    } else if d == 7 {
        "7"@
    } else if d == 8 {
        "8"@
    } else if d == 9 {
        "9"@
    } else if d == 10 {
        "A"@
    } else if d == 11 {
        "B"@
    } else if d == 12 {
        "C"@
    } else if d == 13 {
        "D"@
    } else if d == 14 {
        "E"@
    } else {
        "F"@
    }
}

/// Two hexadecimal digits, like `{:02X}`.
pub open spec fn hex2(v: u8) -> Seq<char> {
    hex_digit(v / 16) + hex_digit(v % 16)
}

/// Four hexadecimal digits, like `{:04X}`.
pub open spec fn hex4(v: u16) -> Seq<char> {
    hex2((v / 256) as u8) + hex2((v % 256) as u8)
}

/// A number below 1000 in decimal, without leading zeros, like `{}`.
pub open spec fn dec(n: nat) -> Seq<char>
    recommends
        n < 1000,
{
    if n < 10 {
        hex_digit(n as u8)
    } else if n < 100 {
        hex_digit((n / 10) as u8) + hex_digit((n % 10) as u8)
    } else {
        hex_digit((n / 100) as u8) + hex_digit(((n / 10) % 10) as u8) + hex_digit((n % 10) as u8)
    }
}

/// A signed byte in decimal, like `{}` on an `i8`.
pub open spec fn dec_i8(v: i8) -> Seq<char> {
    if v < 0 {
        "-"@ + dec((-v) as nat)
    } else {
        dec(v as nat)
    }
}

/// The hexadecimal digit of `d` (upper case) as a string.
pub fn hex_digit_str(d: u8) -> (r: &'static str)
    requires
        d < 16,
    ensures
        r@ == hex_digit(d),
{
    if d == 0 {
        "0"
    } else if d == 1 {
        "1"
    } else if d == 2 {
        "2"
    } else if d == 3 {
        "3"
    } else if d == 4 {
        "4"
    } else if d == 5 {
        "5"
    } else if d == 6 {
        "6"
    } else if d == 7 {
        "7"
    } else if d == 8 {
        "8"
    } else if d == 9 {
        "9"
    } else if d == 10 {
        "A"
    } else if d == 11 {
        "B"
    } else if d == 12 {
        "C"
    } else if d == 13 {
        "D"
    } else if d == 14 {
        "E"
    } else {
        "F"
    }
}

/// Appends two hexadecimal digits of `v`.
pub fn push_hex2(s: &mut String, v: u8)
    ensures
        final(s)@ == old(s)@ + hex2(v),
{
    s.append(hex_digit_str(v / 16));
    s.append(hex_digit_str(v % 16));
}

/// Appends four hexadecimal digits of `v`.
pub fn push_hex4(s: &mut String, v: u16)
    ensures
        final(s)@ == old(s)@ + hex4(v),
{
    push_hex2(s, (v / 256) as u8);
    push_hex2(s, (v % 256) as u8);
}

/// Appends a number below 1000 in decimal.
pub fn push_dec(s: &mut String, n: u16)
    requires
        n < 1000,
    ensures
        final(s)@ == old(s)@ + dec(n as nat),
{
    if n < 10 {
        s.append(hex_digit_str(n as u8));
    } else if n < 100 {
        s.append(hex_digit_str((n / 10) as u8));
        s.append(hex_digit_str((n % 10) as u8));
    } else {
        s.append(hex_digit_str((n / 100) as u8));
        s.append(hex_digit_str(((n / 10) % 10) as u8));
        s.append(hex_digit_str((n % 10) as u8));
    }
}

/// Appends a signed byte in decimal.
pub fn push_dec_i8(s: &mut String, v: i8)
    ensures
        final(s)@ == old(s)@ + dec_i8(v),
{
    if v < 0 {
        s.append("-");
        let magnitude: u16 = (0i16 - (v as i16)) as u16;
        push_dec(s, magnitude);
    } else {
        push_dec(s, v as u16);
    }
}

} // verus!
