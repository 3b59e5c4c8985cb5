//! Fixed-point lengths: every coordinate is held in millionths of a pixel.

use vstd::prelude::*;

verus! {

/// Raw units per pixel.
pub const SCALE: i64 = 1_000_000;

/// Truncating division: rounds toward zero, like hardware signed division.
pub open spec fn div_trunc(a: int, b: int) -> int
    recommends
        b > 0,
{
    if a >= 0 {
        a / b
    } else {
        -((-a) / b)
    }
}

/// The product of two fixed-point values, as a raw quantity.
pub open spec fn fmul(a: int, b: int) -> int {
    div_trunc(a * b, SCALE as int)
}

/// A coordinate or length in millionths of a pixel.
#[derive(Clone, Copy, PartialEq, Eq, Structural, Debug)]
pub struct Fixed {
    pub raw: i64,
}

impl Fixed {
    /// The value `v` pixels.
    pub fn from_px(v: i64) -> (r: Fixed)
        requires
            i64::MIN <= v * (SCALE as int),
            v * (SCALE as int) <= i64::MAX,
        ensures
            r.raw == v * (SCALE as int),
    {
        Fixed { raw: v * SCALE }
    }

    /// A non-negative length scaled by a whole number.
    pub fn mul_usize(self, k: usize) -> (r: Fixed)
        requires
            self.raw >= 0,
            k <= i64::MAX,
            self.raw * k <= i64::MAX,
        ensures
            r.raw == self.raw * k,
    {
        proof {
            assert(self.raw * (k as int) >= 0) by (nonlinear_arith)
                requires
                    self.raw >= 0,
                    k >= 0,
            ;
        }
        Fixed { raw: self.raw * (k as i64) }
    }

    /// The general signed product; rounds toward zero as the raw quotient.
    pub fn mul(self, o: Fixed) -> (r: Fixed)
        requires
            i64::MIN <= fmul(self.raw as int, o.raw as int) <= i64::MAX,
        ensures
            r.raw == fmul(self.raw as int, o.raw as int),
    {
        let negative: bool = (self.raw < 0) != (o.raw < 0);
        let a: u128 = abs_u128(self.raw);
        let b: u128 = abs_u128(o.raw);
        proof {
            assert(a * b <= u128::MAX) by (nonlinear_arith)
                requires
                    a <= 0x8000_0000_0000_0000,
                    b <= 0x8000_0000_0000_0000,
            ;
        }
        let p: u128 = a * b;
        let q: u128 = p / (SCALE as u128);
        proof {
            lemma_abs_mul(self.raw as int, o.raw as int);
            assert(p == abs_int(self.raw as int * o.raw as int));
            lemma_div_trunc_abs(self.raw as int * o.raw as int, SCALE as int);
            if negative {
                assert(self.raw as int * o.raw as int <= 0) by (nonlinear_arith)
                    requires
                        (self.raw < 0) != (o.raw < 0),
                ;
            } else {
                assert(self.raw as int * o.raw as int >= 0) by (nonlinear_arith)
                    requires
                        (self.raw < 0) == (o.raw < 0),
                ;
            }
        }
        if negative {
            Fixed { raw: (-(q as i128)) as i64 }
        } else {
            Fixed { raw: q as i64 }
        }
    }
}

/// The absolute value of an integer.
pub open spec fn abs_int(a: int) -> int {
    if a >= 0 {
        a
    } else {
        -a
    }
}

fn abs_u128(a: i64) -> (r: u128)
    ensures
        r == abs_int(a as int),
{
    if a >= 0 {
        a as u128
    } else {
        (-(a as i128)) as u128
    }
}

proof fn lemma_abs_mul(a: int, b: int)
    ensures
        abs_int(a) * abs_int(b) == abs_int(a * b),
{
    assert(abs_int(a) * abs_int(b) == abs_int(a * b)) by (nonlinear_arith);
}

proof fn lemma_div_trunc_abs(a: int, b: int)
    requires
        b > 0,
    ensures
        abs_int(div_trunc(a, b)) == abs_int(a) / b,
        a >= 0 ==> div_trunc(a, b) >= 0,
        a <= 0 ==> div_trunc(a, b) <= 0,
{
    if a >= 0 {
        assert(a / b >= 0) by (nonlinear_arith)
            requires
                a >= 0,
                b > 0,
        ;
    } else {
        assert((-a) / b >= 0) by (nonlinear_arith)
            requires
                -a >= 0,
                b > 0,
        ;
    }
}

/// Whether `r` is the integer square root of `n`.
pub open spec fn is_isqrt(n: int, r: int) -> bool {
    0 <= r && r * r <= n && n < (r + 1) * (r + 1)
}

/// The integer square root: the largest `r` with `r * r <= n`.
pub open spec fn spec_isqrt(n: int) -> int {
    choose|r: int| is_isqrt(n, r)
}

/// Integer square roots are unique.
pub proof fn lemma_isqrt_unique(n: int, a: int, b: int)
    requires
        is_isqrt(n, a),
        is_isqrt(n, b),
    ensures
        a == b,
{
    if a < b {
        assert((a + 1) * (a + 1) <= b * b) by (nonlinear_arith)
            requires
                0 <= a,
                a + 1 <= b,
        ;
    }
    if b < a {
        assert((b + 1) * (b + 1) <= a * a) by (nonlinear_arith)
            requires
                0 <= b,
                b + 1 <= a,
        ;
    }
}

/// The integer square root: the largest `r` with `r * r <= n`.
pub fn isqrt_u128(n: u128) -> (r: u64)
    ensures
        (r as int) * (r as int) <= n,
        n < (r as int + 1) * (r as int + 1),
        r == spec_isqrt(n as int),
{
    let mut lo: u128 = 0;
    let mut hi: u128 = 0x1_0000_0000_0000_0000;
    proof {
        assert(n < hi * hi) by (nonlinear_arith)
            requires
                hi == 0x1_0000_0000_0000_0000,
                n <= u128::MAX,
        ;
    }
    while hi - lo > 1
        invariant
            0 <= lo < hi <= 0x1_0000_0000_0000_0000,
            lo * lo <= n,
            n < hi * hi,
        decreases hi - lo,
    {
        let mid: u128 = lo + (hi - lo) / 2;
        proof {
            assert(mid * mid <= u128::MAX) by (nonlinear_arith)
                requires
                    mid < 0x1_0000_0000_0000_0000,
            ;
        }
        if mid * mid <= n {
            lo = mid;
        } else {
            hi = mid;
        }
    }
    proof {
        assert(lo < 0x1_0000_0000_0000_0000);
        assert(is_isqrt(n as int, lo as int));
        let w = choose|r: int| is_isqrt(n as int, r);
        lemma_isqrt_unique(n as int, lo as int, w);
    }
    lo as u64
}

} // verus!
