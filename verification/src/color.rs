//! Four-channel colors, parsed from and printed as hexadecimal strings.

use vstd::prelude::*;
use vstd::string::StrSliceExecFns;
use vstd::string::StringExecFns;
use crate::error::{QRError, QRResult};
use crate::num_fmt::{dec_u64, hex2, spec_dec, spec_digit, spec_hex2, spec_hex_digit};

verus! {

/// An RGBA color with channels in `0..=255`.
#[derive(Clone, Copy, PartialEq, Eq, Structural, Debug)]
pub struct Color {
    /// Red component.
    pub r: u8,
    /// Green component.
    pub g: u8,
    /// Blue component.
    pub b: u8,
    /// Alpha component.
    pub a: u8,
}

/// Whether a character is a hexadecimal digit.
pub open spec fn is_hex_char(c: char) -> bool {
    (48 <= c as int && c as int <= 57) || (65 <= c as int && c as int <= 70) || (97 <= c as int
        && c as int <= 102)
}

/// The value of a hexadecimal digit character.
pub open spec fn hex_char_val(c: char) -> int {
    if 48 <= c as int && c as int <= 57 {
        c as int - 48
    } else if 65 <= c as int && c as int <= 70 {
        c as int - 55
    } else {
        c as int - 87
    }
}

/// A hexadecimal digit character folded to upper case.
pub open spec fn spec_hex_upper(c: char) -> char {
    if c == 'a' {
        'A'
    } else if c == 'b' {
        'B'
    } else if c == 'c' {
        'C'
    } else if c == 'd' {
        'D'
    } else if c == 'e' {
        'E'
    } else if c == 'f' {
        'F'
    } else {
        c
    }
}

/// The input with every leading `#` removed.
pub open spec fn spec_trim_hash(s: Seq<char>) -> Seq<char>
    decreases s.len(),
{
    if s.len() > 0 && s[0] == '#' {
        spec_trim_hash(s.drop_first())
    } else {
        s
    }
}

/// Whether every character of the input is a hexadecimal digit.
pub open spec fn all_hex(t: Seq<char>) -> bool {
    forall|i: int| 0 <= i < t.len() ==> is_hex_char(#[trigger] t[i])
}

/// The color encoded by a trimmed hexadecimal string, when it parses:
/// three digits replicate each nibble, six give the channels, eight add alpha.
pub open spec fn spec_parse_hex(t: Seq<char>) -> Option<Color> {
    if !all_hex(t) {
        Option::None
    } else if t.len() == 3 {
        Option::Some(
            Color {
                r: (hex_char_val(t[0]) * 17) as u8,
                g: (hex_char_val(t[1]) * 17) as u8,
                b: (hex_char_val(t[2]) * 17) as u8,
                a: 255,
            },
        )
    } else if t.len() == 6 {
        Option::Some(
            Color {
                r: (hex_char_val(t[0]) * 16 + hex_char_val(t[1])) as u8,
                g: (hex_char_val(t[2]) * 16 + hex_char_val(t[3])) as u8,
                b: (hex_char_val(t[4]) * 16 + hex_char_val(t[5])) as u8,
                a: 255,
            },
        )
    } else if t.len() == 8 {
        Option::Some(
            Color {
                r: (hex_char_val(t[0]) * 16 + hex_char_val(t[1])) as u8,
                g: (hex_char_val(t[2]) * 16 + hex_char_val(t[3])) as u8,
                b: (hex_char_val(t[4]) * 16 + hex_char_val(t[5])) as u8,
                a: (hex_char_val(t[6]) * 16 + hex_char_val(t[7])) as u8,
            },
        )
    } else {
        Option::None
    }
}

/// The hexadecimal text of a color: `#RRGGBB`, with `AA` appended only
/// when the color is not fully opaque.
pub open spec fn spec_to_hex(c: Color) -> Seq<char> {
    let base = seq!['#'] + spec_hex2(c.r as int) + spec_hex2(c.g as int) + spec_hex2(c.b as int);
    if c.a == 255 {
        base
    } else {
        base + spec_hex2(c.a as int)
    }
}

/// The thousandths of the alpha channel over 255, rounded to nearest.
pub open spec fn spec_alpha_milli(a: int) -> int {
    (a * 1000 + 127) / 255
}

/// The CSS text of a color: `rgb(r, g, b)` when opaque, otherwise
/// `rgba(r, g, b, 0.xxx)` with the alpha fraction to three places.
pub open spec fn spec_to_rgba(c: Color) -> Seq<char> {
    if c.a == 255 {
        "rgb("@ + spec_dec(c.r as int) + ", "@ + spec_dec(c.g as int) + ", "@ + spec_dec(
            c.b as int,
        ) + ")"@
    } else {
        let m = spec_alpha_milli(c.a as int);
        "rgba("@ + spec_dec(c.r as int) + ", "@ + spec_dec(c.g as int) + ", "@ + spec_dec(
            c.b as int,
        ) + ", 0."@ + seq![
            spec_digit(m / 100),
            spec_digit((m / 10) % 10),
            spec_digit(m % 10),
        ] + ")"@
    }
}

/// The value of a hexadecimal digit character, or nothing for any other.
fn hex_val(c: char) -> (r: Option<u8>)
    ensures
        r matches Some(v) ==> is_hex_char(c) && v == hex_char_val(c),
        r is None ==> !is_hex_char(c),
{
    let u = c as u32;
    if 48 <= u && u <= 57 {
        Some((u - 48) as u8)
    } else if 65 <= u && u <= 70 {
        Some((u - 55) as u8)
    } else if 97 <= u && u <= 102 {
        Some((u - 87) as u8)
    } else {
        None
    }
}

impl Color {
    /// A fully opaque color.
    pub fn rgb(r: u8, g: u8, b: u8) -> (c: Color)
        ensures
            c == (Color { r, g, b, a: 255 }),
    {
        Color { r, g, b, a: 255 }
    }

    /// A color with an explicit alpha channel.
    pub fn rgba(r: u8, g: u8, b: u8, a: u8) -> (c: Color)
        ensures
            c == (Color { r, g, b, a }),
    {
        Color { r, g, b, a }
    }

    /// Opaque black.
    pub fn black() -> (c: Color)
        ensures
            c == (Color { r: 0, g: 0, b: 0, a: 255 }),
    {
        Color { r: 0, g: 0, b: 0, a: 255 }
    }

    /// Opaque white.
    pub fn white() -> (c: Color)
        ensures
            c == (Color { r: 255, g: 255, b: 255, a: 255 }),
    {
        Color { r: 255, g: 255, b: 255, a: 255 }
    }

    /// Fully transparent black.
    pub fn transparent() -> (c: Color)
        ensures
            c == (Color { r: 0, g: 0, b: 0, a: 0 }),
    {
        Color { r: 0, g: 0, b: 0, a: 0 }
    }

    /// Parses a hexadecimal color string, ignoring any leading `#`.
    ///
    /// Three digits replicate each nibble (`F` becomes `FF`), six digits give
    /// the channels, eight add alpha; anything else is rejected with the
    /// trimmed input in the error.
    pub fn from_hex(hex: &str) -> (res: QRResult<Color>)
        ensures
            res matches Ok(c) ==> spec_parse_hex(spec_trim_hash(hex@)) == Some(c),
            res matches Err(e) ==> spec_parse_hex(spec_trim_hash(hex@)) is None && (e matches
                QRError::InvalidColor(m) && m@ == spec_trim_hash(hex@)),
    {
        let ghost s = hex@;
        let n = hex.unicode_len();
        let mut i: usize = 0;
        proof {
            assert(s.subrange(0, n as int) =~= s);
        }
        while i < n && hex.get_char(i) == '#'
            invariant
                n == s.len(),
                s == hex@,
                0 <= i <= n,
                spec_trim_hash(s) == spec_trim_hash(s.subrange(i as int, n as int)),
            decreases n - i,
        {
            proof {
                let suf = s.subrange(i as int, n as int);
                assert(suf[0] == '#');
                assert(suf.drop_first() =~= s.subrange(i as int + 1, n as int));
            }
            i += 1;
        }
        let t = hex.substring_char(i, n);
        proof {
            let suf = s.subrange(i as int, n as int);
            if suf.len() > 0 {
                assert(suf[0] != '#');
            }
            assert(spec_trim_hash(s) == suf);
            assert(t@ == spec_trim_hash(s));
        }
        let tl = n - i;
        if tl == 3 {
            let v0 = hex_val(t.get_char(0));
            let v1 = hex_val(t.get_char(1));
            let v2 = hex_val(t.get_char(2));
            match (v0, v1, v2) {
                (Some(h0), Some(h1), Some(h2)) => Ok(
                    Color { r: h0 * 17, g: h1 * 17, b: h2 * 17, a: 255 },
                ),
                _ => Err(QRError::InvalidColor(t.to_owned())),
            }
        } else if tl == 6 {
            let v0 = hex_val(t.get_char(0));
            let v1 = hex_val(t.get_char(1));
            let v2 = hex_val(t.get_char(2));
            let v3 = hex_val(t.get_char(3));
            let v4 = hex_val(t.get_char(4));
            let v5 = hex_val(t.get_char(5));
            match (v0, v1, v2, v3, v4, v5) {
                (Some(h0), Some(h1), Some(h2), Some(h3), Some(h4), Some(h5)) => Ok(
                    Color { r: h0 * 16 + h1, g: h2 * 16 + h3, b: h4 * 16 + h5, a: 255 },
                ),
                _ => Err(QRError::InvalidColor(t.to_owned())),
            }
        } else if tl == 8 {
            let v0 = hex_val(t.get_char(0));
            let v1 = hex_val(t.get_char(1));
            let v2 = hex_val(t.get_char(2));
            let v3 = hex_val(t.get_char(3));
            let v4 = hex_val(t.get_char(4));
            let v5 = hex_val(t.get_char(5));
            let v6 = hex_val(t.get_char(6));
            let v7 = hex_val(t.get_char(7));
            match (v0, v1, v2, v3, v4, v5, v6, v7) {
                (Some(h0), Some(h1), Some(h2), Some(h3), Some(h4), Some(h5), Some(h6), Some(h7)) => Ok(
                    Color {
                        r: h0 * 16 + h1,
                        g: h2 * 16 + h3,
                        b: h4 * 16 + h5,
                        a: h6 * 16 + h7,
                    },
                ),
                _ => Err(QRError::InvalidColor(t.to_owned())),
            }
        } else {
            Err(QRError::InvalidColor(t.to_owned()))
        }
    }

    /// The `#RRGGBB` text of the color, with `AA` appended when translucent.
    pub fn to_hex(&self) -> (s: String)
        ensures
            s@ == spec_to_hex(*self),
    {
        proof {
            reveal_strlit("#");
        }
        let mut s = "#".to_owned();
        let hr = hex2(self.r);
        s.append(hr.as_str());
        let hg = hex2(self.g);
        s.append(hg.as_str());
        let hb = hex2(self.b);
        s.append(hb.as_str());
        if self.a != 255 {
            let ha = hex2(self.a);
            s.append(ha.as_str());
        }
        s
    }

    /// The CSS `rgb(...)` or `rgba(...)` text of the color.
    pub fn to_rgba_string(&self) -> (s: String)
        ensures
            s@ == spec_to_rgba(*self),
    {
        if self.a == 255 {
            let mut s = "rgb(".to_owned();
            let dr = dec_u64(self.r as u64);
            s.append(dr.as_str());
            s.append(", ");
            let dg = dec_u64(self.g as u64);
            s.append(dg.as_str());
            s.append(", ");
            let db = dec_u64(self.b as u64);
            s.append(db.as_str());
            s.append(")");
            s
        } else {
            let mut s = "rgba(".to_owned();
            let dr = dec_u64(self.r as u64);
            s.append(dr.as_str());
            s.append(", ");
            let dg = dec_u64(self.g as u64);
            s.append(dg.as_str());
            s.append(", ");
            let db = dec_u64(self.b as u64);
            s.append(db.as_str());
            s.append(", 0.");
            let m: u32 = ((self.a as u32) * 1000 + 127) / 255;
            let d0 = dec_u64((m / 100) as u64);
            s.append(d0.as_str());
            let d1 = dec_u64(((m / 10) % 10) as u64);
            s.append(d1.as_str());
            let d2 = dec_u64((m % 10) as u64);
            s.append(d2.as_str());
            s.append(")");
            proof {
                assert(m / 100 < 10);
                assert(s@ == spec_to_rgba(*self));
            }
            s
        }
    }
}

/// One hexadecimal digit printed from its value is that digit folded to
/// upper case.
proof fn lemma_hex_digit_upper(c: char)
    requires
        is_hex_char(c),
    ensures
        spec_hex_digit(hex_char_val(c)) == spec_hex_upper(c),
{
}

/// Hex color round trip: a six-digit string parses to a color whose
/// printed form is `#` followed by the same six digits in upper case.
pub proof fn lemma_hex_round_trip_6(t: Seq<char>)
    requires
        t.len() == 6,
        all_hex(t),
    ensures
        spec_parse_hex(t) is Some,
        spec_to_hex(spec_parse_hex(t)->Some_0) == seq!['#'] + Seq::new(
            6,
            |i: int| spec_hex_upper(t[i]),
        ),
{
    let c = spec_parse_hex(t)->Some_0;
    assert forall|i: int| 0 <= i < 6 implies 0 <= #[trigger] hex_char_val(t[i]) < 16 by {
        assert(is_hex_char(t[i]));
    }
    assert(c.r == hex_char_val(t[0]) * 16 + hex_char_val(t[1]));
    assert(spec_hex2(c.r as int) == seq![
        spec_hex_digit(hex_char_val(t[0])),
        spec_hex_digit(hex_char_val(t[1])),
    ]) by {
        lemma_pair_div_mod(hex_char_val(t[0]), hex_char_val(t[1]));
    }
    assert(spec_hex2(c.g as int) == seq![
        spec_hex_digit(hex_char_val(t[2])),
        spec_hex_digit(hex_char_val(t[3])),
    ]) by {
        lemma_pair_div_mod(hex_char_val(t[2]), hex_char_val(t[3]));
    }
    assert(spec_hex2(c.b as int) == seq![
        spec_hex_digit(hex_char_val(t[4])),
        spec_hex_digit(hex_char_val(t[5])),
    ]) by {
        lemma_pair_div_mod(hex_char_val(t[4]), hex_char_val(t[5]));
    }
    assert forall|i: int| 0 <= i < 6 implies spec_hex_digit(#[trigger] hex_char_val(t[i]))
        == spec_hex_upper(t[i]) by {
        lemma_hex_digit_upper(t[i]);
    }
    assert(spec_to_hex(c) =~= seq!['#'] + Seq::new(6, |i: int| spec_hex_upper(t[i])));
}

/// Hex color round trip for the three-digit form: each nibble expands by
/// exactly seventeen, replicating the digit.
pub proof fn lemma_hex_expand_3(t: Seq<char>)
    requires
        t.len() == 3,
        all_hex(t),
    ensures
        spec_parse_hex(t) is Some,
        spec_parse_hex(t)->Some_0.r == 17 * hex_char_val(t[0]),
        spec_parse_hex(t)->Some_0.g == 17 * hex_char_val(t[1]),
        spec_parse_hex(t)->Some_0.b == 17 * hex_char_val(t[2]),
        spec_hex2(spec_parse_hex(t)->Some_0.r as int) == seq![
            spec_hex_upper(t[0]),
            spec_hex_upper(t[0]),
        ],
{
    assert(is_hex_char(t[0]) && is_hex_char(t[1]) && is_hex_char(t[2]));
    let h = hex_char_val(t[0]);
    assert(0 <= h < 16);
    assert((h * 17) / 16 == h && (h * 17) % 16 == h) by {
        lemma_pair_div_mod(h, h);
    }
    lemma_hex_digit_upper(t[0]);
}

proof fn lemma_pair_div_mod(h0: int, h1: int)
    requires
        0 <= h0 < 16,
        0 <= h1 < 16,
    ensures
        (h0 * 16 + h1) / 16 == h0,
        (h0 * 16 + h1) % 16 == h1,
{
    assert((h0 * 16 + h1) / 16 == h0 && (h0 * 16 + h1) % 16 == h1) by (nonlinear_arith)
        requires
            0 <= h0 < 16,
            0 <= h1 < 16,
    ;
}

} // verus!
