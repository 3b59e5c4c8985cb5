//! Sizing of the logo occlusion region: how many modules to hide on each
//! axis for a logo of a given aspect ratio and hidden-module budget.

use vstd::prelude::*;
use crate::fixed::{isqrt_u128, spec_isqrt, Fixed};
use crate::svg::COORD_MAX;

verus! {

/// The horizontal count before budget shrinking: the square root of the
/// budget scaled by the aspect ratio, forced positive and odd, clamped.
pub open spec fn spec_initial_hide_x(budget: int, w: int, h: int, maxa: int) -> int {
    let r0 = spec_isqrt(budget * w / h);
    let r1 = if r0 == 0 {
        1
    } else {
        r0
    };
    let r2 = if r1 % 2 == 0 {
        r1 - 1
    } else {
        r1
    };
    if r2 > maxa {
        maxa
    } else {
        r2
    }
}

/// The horizontal count after shrinking by twos while the occluded pair
/// exceeds the budget, down to three.
pub open spec fn spec_final_hide_x(x: int, w: int, h: int, budget: int) -> int
    decreases x,
    when x >= 0
{
    if x > 3 && spec_hide_y(x, w, h) * x > budget {
        spec_final_hide_x(x - 2, w, h, budget)
    } else {
        x
    }
}

/// The pair of hidden-module counts the solver settles on.
pub open spec fn spec_hide_counts(budget: int, w: int, h: int, maxa: int) -> (int, int) {
    let x = spec_final_hide_x(spec_initial_hide_x(budget, w, h, maxa), w, h, budget);
    let y0 = spec_hide_y(x, w, h);
    (
        x,
        if y0 > maxa {
            maxa
        } else {
            y0
        },
    )
}

/// The sizes chosen for an embedded logo.
#[derive(Clone, Copy, PartialEq, Eq, Structural, Debug)]
pub struct ImageSizeResult {
    /// Width of the occlusion in pixels.
    pub width: Fixed,
    /// Height of the occlusion in pixels.
    pub height: Fixed,
    /// Modules hidden along the horizontal axis.
    pub hide_x_dots: usize,
    /// Modules hidden along the vertical axis.
    pub hide_y_dots: usize,
}

/// The non-negative ceiling of `a / b`: zero when `a` is not positive.
pub open spec fn spec_ceil_nonneg(a: int, b: int) -> int
    recommends
        b > 0,
{
    if a <= 0 {
        0
    } else {
        (a + b - 1) / b
    }
}

/// The vertical hidden-module count derived from the horizontal one by the
/// logo's aspect ratio `h / w`: one plus twice a non-negative ceiling, so
/// always odd.
pub open spec fn spec_hide_y(x: int, w: int, h: int) -> int
    recommends
        w > 0,
{
    1 + 2 * spec_ceil_nonneg(x * h - w, 2 * w)
}

proof fn lemma_div_le(a: int, b: int, m: int)
    requires
        b > 0,
        0 <= a,
        a < (m + 1) * b,
        0 <= m,
    ensures
        a / b <= m,
{
    assert(a / b <= m) by (nonlinear_arith)
        requires
            b > 0,
            0 <= a,
            a < (m + 1) * b,
            0 <= m,
    ;
}

proof fn lemma_div_ge(a: int, b: int, m: int)
    requires
        b > 0,
        a >= m * b,
        m >= 0,
    ensures
        a / b >= m,
{
    assert(a / b >= m) by (nonlinear_arith)
        requires
            b > 0,
            a >= m * b,
            m >= 0,
    ;
}

/// For a logo no taller than wide, the derived vertical count never
/// exceeds the horizontal one; no wider than tall, never falls below it.
proof fn lemma_hide_y_aspect(x: int, w: int, h: int)
    requires
        w > 0,
        h > 0,
        x >= 1,
        x % 2 == 1,
    ensures
        h <= w ==> spec_hide_y(x, w, h) <= x,
        w <= h ==> spec_hide_y(x, w, h) >= x,
{
    let m = (x - 1) / 2;
    assert(x == 2 * m + 1);
    let a = x * h - w;
    if h <= w {
        assert(x * h <= x * w) by (nonlinear_arith)
            requires
                h <= w,
                x >= 1,
        ;
        if a > 0 {
            assert(a + 2 * w - 1 < (m + 1) * (2 * w)) by (nonlinear_arith)
                requires
                    a == x * h - w,
                    x * h <= x * w,
                    x == 2 * m + 1,
                    w > 0,
            ;
            lemma_div_le(a + 2 * w - 1, 2 * w, m);
        }
    }
    if w <= h {
        assert(x * h >= x * w) by (nonlinear_arith)
            requires
                w <= h,
                x >= 1,
        ;
        if m > 0 {
            assert(a + 2 * w - 1 >= m * (2 * w)) by (nonlinear_arith)
                requires
                    a == x * h - w,
                    x * h >= x * w,
                    x == 2 * m + 1,
                    w > 0,
            ;
            assert(a > 0) by (nonlinear_arith)
                requires
                    a == x * h - w,
                    x * h >= x * w,
                    x == 2 * m + 1,
                    m > 0,
                    w > 0,
            ;
            lemma_div_ge(a + 2 * w - 1, 2 * w, m);
        }
    }
}

fn hide_y_for(x: u64, w: u32, h: u32) -> (y: u64)
    requires
        w >= 1,
        x <= 0xFFFF,
        h <= 0xFFFF_FFFF,
    ensures
        y == spec_hide_y(x as int, w as int, h as int),
        y % 2 == 1,
        y >= 1,
        y <= 0x4_0000_0000_0000,
{
    proof {
        assert((x as int) * (h as int) < 0x1_0000_0000_0000) by (nonlinear_arith)
            requires
                x <= 0xFFFF,
                h <= 0xFFFF_FFFF,
        ;
    }
    let xh: u128 = (x as u128) * (h as u128);
    let w128: u128 = w as u128;
    if xh <= w128 {
        1
    } else {
        let num: u128 = xh - w128 + 2 * w128 - 1;
        proof {
            assert(num < (xh as int + 1) * (2 * (w128 as int))) by (nonlinear_arith)
                requires
                    num == xh - w128 + 2 * w128 - 1,
                    w128 >= 1,
                    xh >= 0,
            ;
            lemma_div_le(num as int, 2 * (w128 as int), xh as int);
        }
        let c: u128 = num / (2 * w128);
        (1 + 2 * c) as u64
    }
}

fn exceeds_budget(y: u64, x: u64, budget: usize) -> (b: bool)
    requires
        y <= 0x4_0000_0000_0000,
        x <= 0xFFFF,
    ensures
        b == ((y as int) * (x as int) > budget),
{
    proof {
        assert((y as int) * (x as int) <= 0x4_0000_0000_0000 * 0xFFFF) by (nonlinear_arith)
            requires
                y <= 0x4_0000_0000_0000,
                x <= 0xFFFF,
        ;
    }
    (y as u128) * (x as u128) > budget as u128
}

/// Chooses how many modules to hide for a logo, from its pixel aspect
/// ratio, the hidden-module budget, and the per-axis maximum.
///
/// The horizontal count starts near the square root of the budget scaled
/// by the aspect ratio, is forced odd (so the occlusion is centered) and
/// at least one, and is clamped to the axis maximum; the vertical count
/// follows from the aspect ratio and is always odd; the horizontal count
/// then shrinks by twos while the pair exceeds the budget, down to three.
pub fn calculate_image_size(
    original_width: u32,
    original_height: u32,
    max_hidden_dots: usize,
    max_hidden_axis_dots: usize,
    dot_size: Fixed,
) -> (r: ImageSizeResult)
    requires
        original_width >= 1,
        original_height >= 1,
        dot_size.raw >= 0,
        dot_size.raw * max_hidden_axis_dots <= COORD_MAX,
        max_hidden_axis_dots <= 0xFFFF,
    ensures
        r.hide_x_dots <= max_hidden_axis_dots,
        r.hide_y_dots <= max_hidden_axis_dots,
        max_hidden_axis_dots >= 1 ==> r.hide_x_dots >= 1 && r.hide_y_dots >= 1,
        max_hidden_axis_dots % 2 == 1 ==> r.hide_x_dots % 2 == 1 && r.hide_y_dots % 2 == 1,
        r.hide_x_dots * r.hide_y_dots <= max_hidden_dots || r.hide_x_dots <= 3,
        max_hidden_axis_dots % 2 == 1 && original_height <= original_width
            ==> r.hide_y_dots <= r.hide_x_dots,
        max_hidden_axis_dots % 2 == 1 && original_width <= original_height
            ==> r.hide_x_dots <= r.hide_y_dots,
        r.width.raw == dot_size.raw * r.hide_x_dots,
        r.height.raw == dot_size.raw * r.hide_y_dots,
        (r.hide_x_dots as int, r.hide_y_dots as int) == spec_hide_counts(
            max_hidden_dots as int,
            original_width as int,
            original_height as int,
            max_hidden_axis_dots as int,
        ),
{
    let w = original_width;
    let h = original_height;
    let max_axis: u64 = max_hidden_axis_dots as u64;

    proof {
        assert((max_hidden_dots as int) * (w as int) <= 0xFFFF_FFFF_FFFF_FFFF * 0x1_0000_0000)
            by (nonlinear_arith)
            requires
                max_hidden_dots <= 0xFFFF_FFFF_FFFF_FFFF,
                w <= 0xFFFF_FFFF,
        ;
    }
    let scaled: u128 = ((max_hidden_dots as u128) * (w as u128)) / (h as u128);
    let root: u64 = isqrt_u128(scaled);
    let mut hide_x: u64 = if root == 0 {
        1
    } else {
        root
    };
    if hide_x % 2 == 0 {
        hide_x = hide_x - 1;
    }
    if hide_x > max_axis {
        hide_x = max_axis;
    }

    let mut hide_y: u64 = hide_y_for(hide_x, w, h);

    let ghost init_x = spec_initial_hide_x(
        max_hidden_dots as int,
        w as int,
        h as int,
        max_axis as int,
    );
    proof {
        assert(hide_x == init_x);
    }
    loop
        invariant
            w >= 1,
            h <= 0xFFFF_FFFF,
            hide_x <= max_axis,
            max_axis <= 0xFFFF,
            max_axis >= 1 ==> hide_x >= 1,
            max_axis % 2 == 1 ==> hide_x % 2 == 1,
            hide_y == spec_hide_y(hide_x as int, w as int, h as int),
            hide_y % 2 == 1,
            hide_y >= 1,
            hide_y <= 0x4_0000_0000_0000,
            spec_final_hide_x(hide_x as int, w as int, h as int, max_hidden_dots as int)
                == spec_final_hide_x(init_x, w as int, h as int, max_hidden_dots as int),
        ensures
            (hide_y as int) * (hide_x as int) <= max_hidden_dots || hide_x <= 3,
            hide_x as int == spec_final_hide_x(init_x, w as int, h as int, max_hidden_dots as int),
            hide_y == spec_hide_y(hide_x as int, w as int, h as int),
            hide_x <= max_axis,
            max_axis >= 1 ==> hide_x >= 1,
            max_axis % 2 == 1 ==> hide_x % 2 == 1,
            hide_y % 2 == 1,
            hide_y >= 1,
            hide_y <= 0x4_0000_0000_0000,
        decreases hide_x,
    {
        let over = exceeds_budget(hide_y, hide_x, max_hidden_dots);
        if !(over && hide_x > 3) {
            break;
        }
        hide_x = hide_x - 2;
        hide_y = hide_y_for(hide_x, w, h);
    }

    proof {
        if max_axis % 2 == 1 {
            lemma_hide_y_aspect(hide_x as int, w as int, h as int);
        }
    }

    let hide_y_clamped: u64 = if hide_y > max_axis {
        max_axis
    } else {
        hide_y
    };
    proof {
        assert((hide_x as int) * (hide_y_clamped as int) <= (hide_x as int) * (hide_y as int))
            by (nonlinear_arith)
            requires
                hide_y_clamped <= hide_y,
                hide_x >= 0,
        ;
        if max_axis % 2 == 1 && h <= w {
            assert(hide_y_clamped <= hide_x);
        }
        if max_axis % 2 == 1 && w <= h {
            assert(hide_x <= hide_y_clamped);
        }
    }

    let hx: usize = hide_x as usize;
    let hy: usize = hide_y_clamped as usize;
    proof {
        assert(dot_size.raw * (hx as int) <= dot_size.raw * (max_hidden_axis_dots as int)
            && dot_size.raw * (hy as int) <= dot_size.raw * (max_hidden_axis_dots as int))
            by (nonlinear_arith)
            requires
                hx <= max_hidden_axis_dots,
                hy <= max_hidden_axis_dots,
                dot_size.raw >= 0,
        ;
        assert((hx as int) * (hy as int) == (hide_x as int) * (hide_y_clamped as int))
            by (nonlinear_arith)
            requires
                hx == hide_x,
                hy == hide_y_clamped,
        ;
    }
    let width = dot_size.mul_usize(hx);
    let height = dot_size.mul_usize(hy);
    ImageSizeResult { width, height, hide_x_dots: hx, hide_y_dots: hy }
}

} // verus!
