//! Rendering of small numbers as text: fixed-width upper-case hexadecimal and
//! plain decimal.

use vstd::prelude::*;
use vstd::string::*;

verus! {

/// The character that stands for the digit `d`, for digits up to fifteen:
/// `0` to `9`, then `A` to `F`.
pub open spec fn digit_char(d: int) -> char {
    if d == 0 {
        '0'
    } else if d == 1 {
        '1'
    } else if d == 2 {
        '2'
    } else if d == 3 {
        '3'
    } else if d == 4 {
        '4'
    } else if d == 5 {
        '5'
    } else if d == 6 {
        '6'
    } else if d == 7 {
        '7'
    } else if d == 8 {
        '8'
    } else if d == 9 {
        '9'
    } else if d == 10 {
        'A'
    } else if d == 11 {
        'B'
    } else if d == 12 {
        'C'
    } else if d == 13 {
        'D'
    } else if d == 14 {
        'E'
    } else {
        'F'
    }
}

/// A single bit as text: `0` or `1`.
pub open spec fn bit_text(bit: u8) -> Seq<char> {
    seq![digit_char(bit as int)]
}

/// A byte as two hexadecimal digits, high digit first.
pub open spec fn hex2_text(v: u8) -> Seq<char> {
    seq![digit_char(v as int / 16), digit_char(v as int % 16)]
}

/// A sixteen-bit word as four hexadecimal digits, high digit first.
pub open spec fn hex4_text(v: u16) -> Seq<char> {
    seq![
        digit_char(v as int / 4096),
        digit_char((v as int / 256) % 16),
        digit_char((v as int / 16) % 16),
        digit_char(v as int % 16),
    ]
}

/// The decimal digits of `n`, without leading zeros (`0` for zero).
pub open spec fn decimal_text(n: nat) -> Seq<char>
    decreases n,
{
    if n < 10 {
        seq![digit_char(n as int)]
    } else {
        decimal_text(n / 10) + seq![digit_char((n % 10) as int)]
    }
}

/// One digit as a string slice.
pub(crate) fn hex_digit(d: u8) -> (s: &'static str)
    requires
        d < 16,
    ensures
        s@ == seq![digit_char(d as int)],
{
    proof {
        reveal_strlit("0");
        reveal_strlit("1");
        reveal_strlit("2");
        reveal_strlit("3");
        reveal_strlit("4");
        reveal_strlit("5");
        reveal_strlit("6");
        reveal_strlit("7");
        reveal_strlit("8");
        reveal_strlit("9");
        reveal_strlit("A");
        reveal_strlit("B");
        reveal_strlit("C");
        reveal_strlit("D");
        reveal_strlit("E");
        reveal_strlit("F");
    }
    let s = match d {
        0 => "0",
        1 => "1",
        2 => "2",
        3 => "3",
        4 => "4",
        5 => "5",
        6 => "6",
        7 => "7",
        8 => "8",
        9 => "9",
        10 => "A",
        11 => "B",
        12 => "C",
        13 => "D",
        14 => "E",
        _ => "F",
    };
    assert(s@ =~= seq![digit_char(d as int)]);
    s
}

/// Renders a bit, 0 or 1, as a one-character string.
pub(crate) fn bit_string(bit: u8) -> (s: String)
    requires
        bit <= 1,
    ensures
        s@ == bit_text(bit),
{
    let mut s = String::new();
    s.append(hex_digit(bit));
    assert(s@ =~= bit_text(bit));
    s
}

/// Renders a byte as exactly two upper-case hexadecimal digits.
pub fn hex2_string(v: u8) -> (s: String)
    ensures
        s@ == hex2_text(v),
{
    let mut s = String::new();
    s.append(hex_digit(v / 16));
    s.append(hex_digit(v % 16));
    assert(s@ =~= hex2_text(v));
    s
}

/// Renders a word as exactly four upper-case hexadecimal digits.
pub fn hex4_string(v: u16) -> (s: String)
    ensures
        s@ == hex4_text(v),
{
    let d3: u8 = (v / 4096) as u8;
    let d2: u8 = ((v / 256) % 16) as u8;
    let d1: u8 = ((v / 16) % 16) as u8;
    let d0: u8 = (v % 16) as u8;
    let mut s = String::new();
    s.append(hex_digit(d3));
    s.append(hex_digit(d2));
    s.append(hex_digit(d1));
    s.append(hex_digit(d0));
    assert(s@ =~= hex4_text(v));
    s
}

/// Appends the decimal digits of `v` to `out`.
pub fn push_decimal(out: &mut String, v: u16)
    ensures
        final(out)@ == old(out)@ + decimal_text(v as nat),
    decreases v,
{
    if v >= 10 {
        push_decimal(out, v / 10);
    }
    out.append(hex_digit((v % 10) as u8));
    assert(out@ =~= old(out)@ + decimal_text(v as nat));
}

} // verus!
