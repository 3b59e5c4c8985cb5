//! Decimal and hexadecimal text for the numbers a document holds.

use vstd::prelude::*;
use vstd::string::StrSliceExecFns;
use vstd::string::StringExecFns;
use crate::fixed::{Fixed, SCALE};

verus! {

/// The decimal digit character for `d` in `0..10`.
pub open spec fn spec_digit(d: int) -> char {
    if d == 0 {
        '0'
    } else if d == 1 {
        '1'
    } else if d == 2 {
        '2'
    } else if d == 3 {
        '3'
    } else if d == 4 {
        '4'
    } else if d == 5 {
        '5'
    } else if d == 6 {
        '6'
    } else if d == 7 {
        '7'
    } else if d == 8 {
        '8'
    } else {
        '9'
    }
}

/// The upper-case hexadecimal digit character for `d` in `0..16`.
pub open spec fn spec_hex_digit(d: int) -> char {
    if d < 10 {
        spec_digit(d)
    } else if d == 10 {
        'A'
    } else if d == 11 {
        'B'
    } else if d == 12 {
        'C'
    } else if d == 13 {
        'D'
    } else if d == 14 {
        'E'
    } else {
        'F'
    }
}

/// The decimal digits of a non-negative number, most significant first.
pub open spec fn spec_dec(n: int) -> Seq<char>
    decreases n,
{
    if n < 10 {
        seq![spec_digit(n)]
    } else {
        spec_dec(n / 10).push(spec_digit(n % 10))
    }
}

/// Two hexadecimal digits for one byte.
pub open spec fn spec_hex2(b: int) -> Seq<char> {
    seq![spec_hex_digit(b / 16), spec_hex_digit(b % 16)]
}

/// Fractional digits of `f / (10 * p)` scaled so that `f < 10 * p`,
/// with trailing zeros dropped.
pub open spec fn spec_frac_digits(f: int, p: int) -> Seq<char>
    decreases p,
{
    if f <= 0 || p <= 0 {
        Seq::<char>::empty()
    } else {
        seq![spec_digit(f / p)] + spec_frac_digits(f % p, p / 10)
    }
}

/// The decimal text of a fixed-point value: a sign, the whole pixels,
/// and a fractional part only when it is non-zero.
pub open spec fn spec_fixed_str(raw: int) -> Seq<char> {
    if raw < 0 {
        seq!['-'] + spec_fixed_nonneg(-raw)
    } else {
        spec_fixed_nonneg(raw)
    }
}

pub open spec fn spec_fixed_nonneg(raw: int) -> Seq<char>
    recommends
        raw >= 0,
{
    if raw % (SCALE as int) == 0 {
        spec_dec(raw / (SCALE as int))
    } else {
        spec_dec(raw / (SCALE as int)) + seq!['.'] + spec_frac_digits(
            raw % (SCALE as int),
            (SCALE as int) / 10,
        )
    }
}

/// One decimal digit as a string slice.
fn digit_str(d: u64) -> (r: &'static str)
    requires
        d < 10,
    ensures
        r@ == seq![spec_digit(d as int)],
        r.is_ascii(),
{
    proof {
        reveal_strlit("0");
        reveal_strlit("1");
        reveal_strlit("2");
        reveal_strlit("3");
        reveal_strlit("4");
        reveal_strlit("5");
        reveal_strlit("6");
        reveal_strlit("7");
        reveal_strlit("8");
        reveal_strlit("9");
    }
    match d {
        0 => "0",
        1 => "1",
        2 => "2",
        3 => "3",
        4 => "4",
        5 => "5",
        6 => "6",
        7 => "7",
        8 => "8",
        _ => "9",
    }
}

/// One upper-case hexadecimal digit as a string slice.
fn hex_digit_str(d: u8) -> (r: &'static str)
    requires
        d < 16,
    ensures
        r@ == seq![spec_hex_digit(d as int)],
        r.is_ascii(),
{
    proof {
        reveal_strlit("A");
        reveal_strlit("B");
        reveal_strlit("C");
        reveal_strlit("D");
        reveal_strlit("E");
        reveal_strlit("F");
    }
    if d < 10 {
        digit_str(d as u64)
    } else {
        match d {
            10 => "A",
            11 => "B",
            12 => "C",
            13 => "D",
            14 => "E",
            _ => "F",
        }
    }
}

/// The decimal text of a number.
pub fn dec_u64(n: u64) -> (s: String)
    ensures
        s@ == spec_dec(n as int),
    decreases n,
{
    if n < 10 {
        digit_str(n).to_owned()
    } else {
        let mut s = dec_u64(n / 10);
        s.append(digit_str(n % 10));
        s
    }
}

/// The decimal text of a canvas dimension.
pub fn dec_u32(n: u32) -> (s: String)
    ensures
        s@ == spec_dec(n as int),
{
    dec_u64(n as u64)
}


/// The decimal text of a signed number: a minus sign before the digits.
pub open spec fn spec_dec_i(n: int) -> Seq<char> {
    if n < 0 {
        seq!['-'] + spec_dec(-n)
    } else {
        spec_dec(n)
    }
}

/// The decimal text of a signed number.
pub fn dec_i64(n: i64) -> (s: String)
    ensures
        s@ == spec_dec_i(n as int),
{
    proof {
        reveal_strlit("-");
    }
    if n < 0 {
        let mag: u64 = (-(n as i128)) as u64;
        let mut s: String = "-".to_owned();
        let rest = dec_u64(mag);
        s.append(rest.as_str());
        s
    } else {
        dec_u64(n as u64)
    }
}

/// Two upper-case hexadecimal digits for one byte.
pub fn hex2(b: u8) -> (s: String)
    ensures
        s@ == spec_hex2(b as int),
{
    let mut s = hex_digit_str(b / 16).to_owned();
    s.append(hex_digit_str(b % 16));
    s
}

/// Whether `p` is a power of ten.
pub open spec fn is_pow10(p: int) -> bool
    decreases p,
{
    if p <= 0 {
        false
    } else if p == 1 {
        true
    } else {
        p % 10 == 0 && is_pow10(p / 10)
    }
}

fn frac_digits(f: u64, p: u64) -> (s: String)
    requires
        f == 0 || (f < 10 * p && is_pow10(p as int)),
    ensures
        s@ == spec_frac_digits(f as int, p as int),
    decreases p,
{
    if f == 0 || p == 0 {
        String::new()
    } else {
        proof {
            assert((f as int) / (p as int) < 10) by (nonlinear_arith)
                requires
                    0 < f < 10 * p,
            ;
            if (f as int) % (p as int) != 0 {
                assert(p > 1);
                assert(p as int % 10 == 0);
                assert((f as int) % (p as int) < p);
                assert(10 * (p as int / 10) == p);
            }
        }
        let mut s = digit_str(f / p).to_owned();
        let rest = frac_digits(f % p, p / 10);
        s.append(rest.as_str());
        s
    }
}

/// The decimal text of a fixed-point value.
pub fn fixed_str(v: Fixed) -> (s: String)
    ensures
        s@ == spec_fixed_str(v.raw as int),
{
    proof {
        reveal_strlit("-");
        reveal_strlit(".");
    }
    if v.raw < 0 {
        let mag: u64 = (-(v.raw as i128)) as u64;
        let mut s: String = "-".to_owned();
        let rest = fixed_nonneg_str(mag);
        s.append(rest.as_str());
        s
    } else {
        fixed_nonneg_str(v.raw as u64)
    }
}

fn fixed_nonneg_str(raw: u64) -> (s: String)
    ensures
        s@ == spec_fixed_nonneg(raw as int),
{
    proof {
        reveal_strlit(".");
    }
    let scale: u64 = SCALE as u64;
    let whole: u64 = raw / scale;
    let frac: u64 = raw % scale;
    let mut s = dec_u64(whole);
    if frac != 0 {
        proof {
            reveal_with_fuel(is_pow10, 8);
            assert(is_pow10((SCALE as int) / 10));
        }
        s.append(".");
        let rest = frac_digits(frac, scale / 10);
        s.append(rest.as_str());
    }
    s
}

} // verus!
