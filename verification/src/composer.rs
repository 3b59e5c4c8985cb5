//! The composer: turns options and a matrix into a complete vector
//! document, layer by layer.

use vstd::prelude::*;
use vstd::string::StrSliceExecFns;
use vstd::string::StringExecFns;
use crate::color::{spec_to_hex, Color};
use crate::fixed::{abs_int, div_trunc, fmul, Fixed, SCALE};
use crate::gradient::{ColorStop, Gradient};
use crate::num_fmt::dec_u64;
use crate::svg::{coord_ok, size_ok, Def, COORD_MAX, COORD_SAFE};
use crate::types::GradientType;

verus! {

/// The tangent of a non-negative angle in degrees, scaled by a million
/// and rounded to nearest, for angles up to the half-right angle.
pub open spec fn spec_tan_micro_nonneg(d: int) -> int {
    if d <= 0 {
        0
    } else if d == 1 {
        17455
    } else if d == 2 {
        34921
    } else if d == 3 {
        52408
    } else if d == 4 {
        69927
    } else if d == 5 {
        87489
    } else if d == 6 {
        105104
    } else if d == 7 {
        122785
    } else if d == 8 {
        140541
    } else if d == 9 {
        158384
    } else if d == 10 {
        176327
    } else if d == 11 {
        194380
    } else if d == 12 {
        212557
    } else if d == 13 {
        230868
    } else if d == 14 {
        249328
    } else if d == 15 {
        267949
    } else if d == 16 {
        286745
    } else if d == 17 {
        305731
    } else if d == 18 {
        324920
    } else if d == 19 {
        344328
    } else if d == 20 {
        363970
    } else if d == 21 {
        383864
    } else if d == 22 {
        404026
    } else if d == 23 {
        424475
    } else if d == 24 {
        445229
    } else if d == 25 {
        466308
    } else if d == 26 {
        487733
    } else if d == 27 {
        509525
    } else if d == 28 {
        531709
    } else if d == 29 {
        554309
    } else if d == 30 {
        577350
    } else if d == 31 {
        600861
    } else if d == 32 {
        624869
    } else if d == 33 {
        649408
    } else if d == 34 {
        674509
    } else if d == 35 {
        700208
    } else if d == 36 {
        726543
    } else if d == 37 {
        753554
    } else if d == 38 {
        781286
    } else if d == 39 {
        809784
    } else if d == 40 {
        839100
    } else if d == 41 {
        869287
    } else if d == 42 {
        900404
    } else if d == 43 {
        932515
    } else if d == 44 {
        965689
    } else {
        1000000
    }
}

/// The tangent of an angle in degrees between minus and plus half a right
/// angle, scaled by a million.
pub open spec fn spec_tan_micro(d: int) -> int {
    if d < 0 {
        -spec_tan_micro_nonneg(-d)
    } else {
        spec_tan_micro_nonneg(d)
    }
}

fn tan_micro_nonneg(d: i64) -> (r: i64)
    requires
        0 <= d <= 45,
    ensures
        r == spec_tan_micro_nonneg(d as int),
{
    let table: [i64; 46] = [
        0,
        17455,
        34921,
        52408,
        69927,
        87489,
        105104,
        122785,
        140541,
        158384,
        176327,
        194380,
        212557,
        230868,
        249328,
        267949,
        286745,
        305731,
        324920,
        344328,
        363970,
        383864,
        404026,
        424475,
        445229,
        466308,
        487733,
        509525,
        531709,
        554309,
        577350,
        600861,
        624869,
        649408,
        674509,
        700208,
        726543,
        753554,
        781286,
        809784,
        839100,
        869287,
        900404,
        932515,
        965689,
        1000000,
    ];
    table[d as usize]
}

/// The tangent of a small angle in degrees, scaled by a million.
pub fn tan_micro(d: i64) -> (r: i64)
    requires
        -45 <= d <= 45,
    ensures
        r == spec_tan_micro(d as int),
        -SCALE <= r <= SCALE,
{
    if d < 0 {
        -tan_micro_nonneg(-d)
    } else {
        tan_micro_nonneg(d)
    }
}

/// Scaling by a factor of at most one in magnitude cannot grow a value.
proof fn lemma_fmul_small(a: int, b: int)
    requires
        -(SCALE as int) <= b <= SCALE as int,
    ensures
        -abs_int(a) <= fmul(a, b) <= abs_int(a),
{
    let p = a * b;
    assert(abs_int(p) <= abs_int(a) * (SCALE as int)) by (nonlinear_arith)
        requires
            p == a * b,
            -(SCALE as int) <= b <= SCALE as int,
    ;
    assert(abs_int(p) / (SCALE as int) <= abs_int(a)) by (nonlinear_arith)
        requires
            abs_int(p) <= abs_int(a) * (SCALE as int),
            abs_int(a) >= 0,
            abs_int(p) >= 0,
    ;
    if p >= 0 {
        assert(div_trunc(p, SCALE as int) == p / (SCALE as int));
        assert(p / (SCALE as int) >= 0) by (nonlinear_arith)
            requires
                p >= 0,
        ;
    } else {
        assert(div_trunc(p, SCALE as int) == -((-p) / (SCALE as int)));
        assert((-p) / (SCALE as int) >= 0) by (nonlinear_arith)
            requires
                -p >= 0,
        ;
    }
}

/// The rotation folded into one whole turn, in degrees.
pub open spec fn spec_pos_rotation(rot: int) -> int {
    ((rot % 360) + 360) % 360
}

/// Adding a turn to a hardware remainder and folding once more yields the
/// mathematical remainder.
proof fn lemma_pos_rotation(rot: int, m: int)
    requires
        m == (if rot >= 0 {
            rot % 360
        } else {
            -((-rot) % 360)
        }),
    ensures
        (if m < 0 {
            m + 360
        } else {
            m
        }) == spec_pos_rotation(rot),
        0 <= spec_pos_rotation(rot) < 360,
{
    vstd::arithmetic::div_mod::lemma_fundamental_div_mod(rot, 360);
    vstd::arithmetic::div_mod::lemma_mod_division_less_than_divisor(rot, 360);
    let e = rot % 360;
    vstd::arithmetic::div_mod::lemma_fundamental_div_mod_converse(e + 360, 360, 1, e);
    assert(((rot % 360) + 360) % 360 == e);
    if rot >= 0 {
        assert(m == e);
    } else {
        vstd::arithmetic::div_mod::lemma_fundamental_div_mod(-rot, 360);
        vstd::arithmetic::div_mod::lemma_mod_division_less_than_divisor(-rot, 360);
        let q = (-rot) / 360;
        let r = (-rot) % 360;
        assert(m == -r);
        if r == 0 {
            vstd::arithmetic::div_mod::lemma_fundamental_div_mod_converse(rot, 360, -q, 0);
        } else {
            assert(rot == (-q - 1) * 360 + (360 - r)) by (nonlinear_arith)
                requires
                    -rot == q * 360 + r,
            ;
            vstd::arithmetic::div_mod::lemma_fundamental_div_mod_converse(
                rot,
                360,
                -q - 1,
                360 - r,
            );
        }
    }
}

/// The endpoints of a linear gradient spanning a box at a rotation:
/// `(x0, y0, x1, y1)` about the box center, chosen per angular band so the
/// ramp spans the box fully. Values are raw fixed-point quantities.
pub open spec fn spec_linear_endpoints(pos: int, xr: int, yr: int, hr: int, wr: int) -> (
    int,
    int,
    int,
    int,
) {
    let cx = xr + wr / 2;
    let cy = yr + hr / 2;
    let half_w = wr / 2;
    let half_h = hr / 2;
    if pos <= 45 || pos > 315 {
        let t = spec_tan_micro(if pos > 315 {
            pos - 360
        } else {
            pos
        });
        (cx - half_w, cy - fmul(half_h, t), cx + half_w, cy + fmul(half_h, t))
    } else if pos <= 135 {
        let t = spec_tan_micro(90 - pos);
        (cx - fmul(half_w, t), cy - half_h, cx + fmul(half_w, t), cy + half_h)
    } else if pos <= 225 {
        let t = spec_tan_micro(pos - 180);
        (cx + half_w, cy + fmul(half_h, t), cx - half_w, cy - fmul(half_h, t))
    } else {
        let t = spec_tan_micro(270 - pos);
        (cx + fmul(half_w, t), cy + half_h, cx - fmul(half_w, t), cy - half_h)
    }
}

/// Linear gradient endpoints are point-symmetric about the box center,
/// for every rotation: each endpoint pair sums to twice the center.
pub proof fn lemma_linear_endpoints_symmetric(pos: int, xr: int, yr: int, hr: int, wr: int)
    ensures
        spec_linear_endpoints(pos, xr, yr, hr, wr).0 + spec_linear_endpoints(
            pos,
            xr,
            yr,
            hr,
            wr,
        ).2 == 2 * (xr + wr / 2),
        spec_linear_endpoints(pos, xr, yr, hr, wr).1 + spec_linear_endpoints(
            pos,
            xr,
            yr,
            hr,
            wr,
        ).3 == 2 * (yr + hr / 2),
{
}

/// A raw quantity rounded to whole pixels, half away from zero.
pub open spec fn spec_round_px(raw: int) -> int {
    if raw >= 0 {
        (raw + (SCALE as int) / 2) / (SCALE as int)
    } else {
        -((-raw + (SCALE as int) / 2) / (SCALE as int))
    }
}

fn round_px_fixed(raw: i64) -> (r: Fixed)
    requires
        -4 * COORD_SAFE <= raw <= 4 * COORD_SAFE,
    ensures
        r.raw == spec_round_px(raw as int) * (SCALE as int),
        coord_ok(r),
{
    if raw >= 0 {
        let px = (raw + SCALE / 2) / SCALE;
        proof {
            assert(0 <= px * (SCALE as int) <= raw + (SCALE as int) / 2) by (nonlinear_arith)
                requires
                    px == (raw + (SCALE as int) / 2) / (SCALE as int),
                    raw >= 0,
            ;
        }
        Fixed { raw: px * SCALE }
    } else {
        let px = (-raw + SCALE / 2) / SCALE;
        proof {
            assert(0 <= px * (SCALE as int) <= -raw + (SCALE as int) / 2) by (nonlinear_arith)
                requires
                    px == ((-raw) + (SCALE as int) / 2) / (SCALE as int),
                    raw < 0,
            ;
        }
        Fixed { raw: -(px * SCALE) }
    }
}


/// Whether a definition is the radial gradient a box and stops call for:
/// centered on the box, with half its larger side as radius.
pub open spec fn spec_radial_def_ok(
    d: Def,
    g: Gradient,
    x: Fixed,
    y: Fixed,
    height: Fixed,
    width: Fixed,
    name: Seq<char>,
) -> bool {
    d matches Def::RadialGradient { id, cx, cy, r, stops } && id@ == name && cx.raw == x.raw
        + width.raw as int / 2 && cy.raw == y.raw + height.raw as int / 2 && r.raw == (
    if width.raw >= height.raw {
        width.raw as int
    } else {
        height.raw as int
    }) / 2 && stops@ == g.color_stops@
}

/// Whether a definition is the linear gradient a box, rotation and stops
/// call for: endpoints from the angular-band rule, rounded to whole pixels.
pub open spec fn spec_linear_def_ok(
    d: Def,
    g: Gradient,
    additional_degrees: int,
    x: Fixed,
    y: Fixed,
    height: Fixed,
    width: Fixed,
    name: Seq<char>,
) -> bool {
    let e = spec_linear_endpoints(
        spec_pos_rotation(g.rotation + additional_degrees),
        x.raw as int,
        y.raw as int,
        height.raw as int,
        width.raw as int,
    );
    d matches Def::LinearGradient { id, x1, y1, x2, y2, stops } && id@ == name && x1.raw
        == spec_round_px(e.0) * (SCALE as int) && y1.raw == spec_round_px(e.1) * (SCALE as int)
        && x2.raw == spec_round_px(e.2) * (SCALE as int) && y2.raw == spec_round_px(e.3) * (
    SCALE as int) && stops@ == g.color_stops@
}

/// The fill named by a solid color or gradient, with the gradient's
/// definition when one is needed.
///
/// A solid color yields its hexadecimal text and no definition. A radial
/// gradient centers on the box with half its larger side as radius; a
/// linear gradient spans the box at its rotation plus the extra turn.
pub fn create_color(
    gradient: Option<&Gradient>,
    color: &Color,
    additional_degrees: i64,
    x: Fixed,
    y: Fixed,
    height: Fixed,
    width: Fixed,
    name: &str,
) -> (res: (Option<Def>, String))
    requires
        -2 * COORD_SAFE <= x.raw <= 2 * COORD_SAFE,
        -2 * COORD_SAFE <= y.raw <= 2 * COORD_SAFE,
        0 <= height.raw <= 2 * COORD_SAFE,
        0 <= width.raw <= 2 * COORD_SAFE,
        -0x1_0000_0000_0000 <= additional_degrees <= 0x1_0000_0000_0000,
        gradient matches Some(g) ==> -0x1_0000_0000_0000 <= g.rotation <= 0x1_0000_0000_0000,
    ensures
        gradient is None ==> res.0 is None && res.1@ == spec_to_hex(*color),
        gradient is Some && gradient->Some_0.gradient_type == GradientType::Radial ==> res.0
            is Some && spec_radial_def_ok(
            res.0->Some_0,
            *gradient->Some_0,
            x,
            y,
            height,
            width,
            name@,
        ) && res.1@ == "url(#"@ + name@ + ")"@,
        gradient is Some && gradient->Some_0.gradient_type == GradientType::Linear ==> res.0
            is Some && spec_linear_def_ok(
            res.0->Some_0,
            *gradient->Some_0,
            additional_degrees as int,
            x,
            y,
            height,
            width,
            name@,
        ) && res.1@ == "url(#"@ + name@ + ")"@,
        res.0 matches Some(d) ==> crate::svg::def_wf(d),
{
    match gradient {
        None => (None, color.to_hex()),
        Some(g) => {
            let stops = clone_stops(&g.color_stops);
            let id: String = name.to_owned();
            let mut fill = "url(#".to_owned();
            fill.append(name);
            fill.append(")");
            match g.gradient_type {
                GradientType::Radial => {
                    let cx = Fixed { raw: x.raw + width.raw / 2 };
                    let cy = Fixed { raw: y.raw + height.raw / 2 };
                    let size = if width.raw >= height.raw {
                        width.raw
                    } else {
                        height.raw
                    };
                    let r = Fixed { raw: size / 2 };
                    (Some(Def::RadialGradient { id, cx, cy, r, stops }), fill)
                },
                GradientType::Linear => {
                    let rot: i64 = g.rotation + additional_degrees;
                    let m: i64 = rot % 360;
                    let pos: i64 = if m < 0 {
                        m + 360
                    } else {
                        m
                    };
                    proof {
                        lemma_pos_rotation(rot as int, m as int);
                    }
                    let (e0, e1, e2, e3) = linear_endpoints(pos, x, y, height, width);
                    let x1 = round_px_fixed(e0);
                    let y1 = round_px_fixed(e1);
                    let x2 = round_px_fixed(e2);
                    let y2 = round_px_fixed(e3);
                    (Some(Def::LinearGradient { id, x1, y1, x2, y2, stops }), fill)
                },
            }
        },
    }
}

fn clone_stops(stops: &Vec<ColorStop>) -> (r: Vec<ColorStop>)
    ensures
        r@ == stops@,
{
    let mut out: Vec<ColorStop> = Vec::new();
    let n = stops.len();
    let mut i: usize = 0;
    while i < n
        invariant
            n == stops@.len(),
            0 <= i <= n,
            out@ == stops@.subrange(0, i as int),
        decreases n - i,
    {
        out.push(stops[i]);
        proof {
            assert(out@ =~= stops@.subrange(0, i as int + 1));
        }
        i += 1;
    }
    proof {
        assert(stops@.subrange(0, n as int) =~= stops@);
    }
    out
}

fn linear_endpoints(pos: i64, x: Fixed, y: Fixed, height: Fixed, width: Fixed) -> (e: (
    i64,
    i64,
    i64,
    i64,
))
    requires
        0 <= pos < 360,
        -2 * COORD_SAFE <= x.raw <= 2 * COORD_SAFE,
        -2 * COORD_SAFE <= y.raw <= 2 * COORD_SAFE,
        0 <= height.raw <= 2 * COORD_SAFE,
        0 <= width.raw <= 2 * COORD_SAFE,
    ensures
        ({
            let s = spec_linear_endpoints(
                pos as int,
                x.raw as int,
                y.raw as int,
                height.raw as int,
                width.raw as int,
            );
            e.0 == s.0 && e.1 == s.1 && e.2 == s.2 && e.3 == s.3
        }),
        -4 * COORD_SAFE <= e.0 <= 4 * COORD_SAFE,
        -4 * COORD_SAFE <= e.1 <= 4 * COORD_SAFE,
        -4 * COORD_SAFE <= e.2 <= 4 * COORD_SAFE,
        -4 * COORD_SAFE <= e.3 <= 4 * COORD_SAFE,
{
    let cx: i64 = x.raw + width.raw / 2;
    let cy: i64 = y.raw + height.raw / 2;
    let half_w: i64 = width.raw / 2;
    let half_h: i64 = height.raw / 2;
    if pos <= 45 || pos > 315 {
        let d = if pos > 315 {
            pos - 360
        } else {
            pos
        };
        let t = tan_micro(d);
        proof {
            lemma_fmul_small(half_h as int, t as int);
        }
        let off = Fixed { raw: half_h }.mul(Fixed { raw: t });
        (cx - half_w, cy - off.raw, cx + half_w, cy + off.raw)
    } else if pos <= 135 {
        let t = tan_micro(90 - pos);
        proof {
            lemma_fmul_small(half_w as int, t as int);
        }
        let off = Fixed { raw: half_w }.mul(Fixed { raw: t });
        (cx - off.raw, cy - half_h, cx + off.raw, cy + half_h)
    } else if pos <= 225 {
        let t = tan_micro(pos - 180);
        proof {
            lemma_fmul_small(half_h as int, t as int);
        }
        let off = Fixed { raw: half_h }.mul(Fixed { raw: t });
        (cx + half_w, cy + off.raw, cx - half_w, cy - off.raw)
    } else {
        let t = tan_micro(270 - pos);
        proof {
            lemma_fmul_small(half_w as int, t as int);
        }
        let off = Fixed { raw: half_w }.mul(Fixed { raw: t });
        (cx + off.raw, cy + half_h, cx - off.raw, cy - half_h)
    }
}

// ---------------------------------------------------------------------------
// The dot layer: which cells draw, their neighbors, and their primitives.

/// Whether `(row, col)` lies in the centered occlusion rectangle.
pub open spec fn spec_in_hide_rect(count: int, hx: int, hy: int, row: int, col: int) -> bool {
    (count - hy) / 2 <= row < (count + hy) / 2 && (count - hx) / 2 <= col < (count + hx) / 2
}

/// Whether an ordinary module at `(row, col)` is drawn: not hidden behind
/// the logo, and not under a finder ornament's ring or center.
pub open spec fn spec_should_draw(count: int, hiding: bool, hx: int, hy: int, row: int, col: int)
    -> bool {
    !(hiding && spec_in_hide_rect(count, hx, hy, row, col)) && !crate::matrix::spec_is_finder_outer(
        count,
        row,
        col,
    ) && !crate::matrix::spec_is_finder_inner(count, row, col)
}

/// Whether the cell is in range, drawn, and dark.
pub open spec fn spec_cell_drawn(
    m: crate::matrix::QRMatrix,
    hiding: bool,
    hx: int,
    hy: int,
    row: int,
    col: int,
) -> bool {
    let count = m.spec_size();
    0 <= row < count && 0 <= col < count && spec_should_draw(count, hiding, hx, hy, row, col)
        && m.spec_is_dark(row, col)
}

/// The four-neighbor occupancy of a cell, over drawn dark cells.
pub open spec fn spec_neighbors(
    m: crate::matrix::QRMatrix,
    hiding: bool,
    hx: int,
    hy: int,
    row: int,
    col: int,
) -> crate::shapes::Neighbors {
    crate::shapes::Neighbors {
        left: spec_cell_drawn(m, hiding, hx, hy, row, col - 1),
        right: spec_cell_drawn(m, hiding, hx, hy, row, col + 1),
        top: spec_cell_drawn(m, hiding, hx, hy, row - 1, col),
        bottom: spec_cell_drawn(m, hiding, hx, hy, row + 1, col),
    }
}

/// The primitive drawn for the module at `(row, col)`.
pub open spec fn spec_dot_at(
    m: crate::matrix::QRMatrix,
    dt: crate::types::DotType,
    hiding: bool,
    hx: int,
    hy: int,
    dot: int,
    xb: int,
    yb: int,
    row: int,
    col: int,
) -> crate::shapes::Placed {
    crate::shapes::spec_draw_dot(
        dt,
        Fixed { raw: (xb + col * dot) as i64 },
        Fixed { raw: (yb + row * dot) as i64 },
        Fixed { raw: dot as i64 },
        spec_neighbors(m, hiding, hx, hy, row, col),
    )
}

/// The primitives of the first `k` cells in row-major order, one per
/// drawn dark module.
pub open spec fn spec_dots_upto(
    m: crate::matrix::QRMatrix,
    dt: crate::types::DotType,
    hiding: bool,
    hx: int,
    hy: int,
    dot: int,
    xb: int,
    yb: int,
    k: int,
) -> Seq<crate::shapes::Placed>
    decreases k,
{
    if k <= 0 {
        Seq::<crate::shapes::Placed>::empty()
    } else {
        let count = m.spec_size();
        let prev = spec_dots_upto(m, dt, hiding, hx, hy, dot, xb, yb, k - 1);
        let row = (k - 1) / count;
        let col = (k - 1) % count;
        if spec_cell_drawn(m, hiding, hx, hy, row, col) {
            prev.push(spec_dot_at(m, dt, hiding, hx, hy, dot, xb, yb, row, col))
        } else {
            prev
        }
    }
}

fn cell_drawn(
    m: &crate::matrix::QRMatrix,
    hiding: bool,
    hx: usize,
    hy: usize,
    row: usize,
    col: usize,
) -> (b: bool)
    requires
        hx <= m.spec_size(),
        hy <= m.spec_size(),
    ensures
        b == spec_cell_drawn(*m, hiding, hx as int, hy as int, row as int, col as int),
{
    let count = m.size();
    if row >= count || col >= count {
        return false;
    }
    if hiding {
        let y_start = (count - hy) / 2;
        let y_end = (count + hy) / 2;
        let x_start = (count - hx) / 2;
        let x_end = (count + hx) / 2;
        if row >= y_start && row < y_end && col >= x_start && col < x_end {
            return false;
        }
    }
    if m.is_finder_pattern_outer(row, col) || m.is_finder_pattern_inner(row, col) {
        return false;
    }
    m.is_dark(row, col)
}

fn neighbors_at(
    m: &crate::matrix::QRMatrix,
    hiding: bool,
    hx: usize,
    hy: usize,
    row: usize,
    col: usize,
) -> (n: crate::shapes::Neighbors)
    requires
        hx <= m.spec_size(),
        hy <= m.spec_size(),
        row < m.spec_size(),
        col < m.spec_size(),
    ensures
        n == spec_neighbors(*m, hiding, hx as int, hy as int, row as int, col as int),
{
    let count = m.size();
    let left = if col > 0 {
        cell_drawn(m, hiding, hx, hy, row, col - 1)
    } else {
        false
    };
    let right = cell_drawn(m, hiding, hx, hy, row, col + 1);
    let top = if row > 0 {
        cell_drawn(m, hiding, hx, hy, row - 1, col)
    } else {
        false
    };
    let bottom = cell_drawn(m, hiding, hx, hy, row + 1, col);
    crate::shapes::Neighbors { left, right, top, bottom }
}

/// The primitives of every drawn dark module, in row-major order.
pub fn render_dots(
    m: &crate::matrix::QRMatrix,
    drawer: &crate::shapes::QRDot,
    hiding: bool,
    hx: usize,
    hy: usize,
    dot: Fixed,
    xb: Fixed,
    yb: Fixed,
) -> (shapes: Vec<crate::shapes::Placed>)
    requires
        hx <= m.spec_size(),
        hy <= m.spec_size(),
        0 <= dot.raw,
        m.spec_size() * dot.raw <= COORD_SAFE,
        -COORD_SAFE <= xb.raw <= COORD_SAFE,
        -COORD_SAFE <= yb.raw <= COORD_SAFE,
    ensures
        shapes@ == spec_dots_upto(
            *m,
            drawer.dot_type,
            hiding,
            hx as int,
            hy as int,
            dot.raw as int,
            xb.raw as int,
            yb.raw as int,
            m.spec_size() * m.spec_size(),
        ),
        forall|i: int| 0 <= i < shapes@.len() ==> crate::svg::placed_wf(#[trigger] shapes@[i]),
{
    let count = m.size();
    let mut shapes: Vec<crate::shapes::Placed> = Vec::new();
    let mut row: usize = 0;
    let mut y = yb;
    proof {
        assert(count * dot.raw as int <= COORD_SAFE);
    }
    while row < count
        invariant
            count == m.spec_size(),
            0 <= row <= count,
            0 <= dot.raw,
            count * dot.raw <= COORD_SAFE,
            -COORD_SAFE <= xb.raw <= COORD_SAFE,
            -COORD_SAFE <= yb.raw <= COORD_SAFE,
            hx <= count,
            hy <= count,
            y.raw == yb.raw + row * dot.raw,
            shapes@ == spec_dots_upto(
                *m,
                drawer.dot_type,
                hiding,
                hx as int,
                hy as int,
                dot.raw as int,
                xb.raw as int,
                yb.raw as int,
                row as int * count as int,
            ),
            forall|i: int| 0 <= i < shapes@.len() ==> crate::svg::placed_wf(#[trigger] shapes@[i]),
        decreases count - row,
    {
        let mut col: usize = 0;
        let mut x = xb;
        proof {
            lemma_row_bound(row as int, count as int, dot.raw as int);
        }
        while col < count
            invariant
                count == m.spec_size(),
                0 <= row < count,
                0 <= col <= count,
                0 <= dot.raw,
                count * dot.raw <= COORD_SAFE,
                -COORD_SAFE <= xb.raw <= COORD_SAFE,
                -COORD_SAFE <= yb.raw <= COORD_SAFE,
                hx <= count,
                hy <= count,
                x.raw == xb.raw + col * dot.raw,
                y.raw == yb.raw + row * dot.raw,
                shapes@ == spec_dots_upto(
                    *m,
                    drawer.dot_type,
                    hiding,
                    hx as int,
                    hy as int,
                    dot.raw as int,
                    xb.raw as int,
                    yb.raw as int,
                    row as int * count as int + col as int,
                ),
                forall|i: int|
                    0 <= i < shapes@.len() ==> crate::svg::placed_wf(#[trigger] shapes@[i]),
            decreases count - col,
        {
            let ghost k = row as int * count as int + col as int;
            proof {
                vstd::arithmetic::div_mod::lemma_fundamental_div_mod_converse(
                    k,
                    count as int,
                    row as int,
                    col as int,
                );
                lemma_row_bound(row as int, count as int, dot.raw as int);
                lemma_row_bound(col as int, count as int, dot.raw as int);
            }
            if cell_drawn(m, hiding, hx, hy, row, col) {
                let n = neighbors_at(m, hiding, hx, hy, row, col);
                let p = drawer.draw(x, y, dot, Some(&n));
                shapes.push(p);
            }
            proof {
                assert((col as int + 1) * dot.raw == col as int * dot.raw + dot.raw)
                    by (nonlinear_arith);
                lemma_row_bound(col as int + 1, count as int, dot.raw as int);
            }
            x = Fixed { raw: x.raw + dot.raw };
            col += 1;
        }
        proof {
            assert((row as int + 1) * dot.raw == row as int * dot.raw + dot.raw)
                by (nonlinear_arith);
            lemma_row_bound(row as int + 1, count as int, dot.raw as int);
            assert((row as int + 1) * count as int == row as int * count as int + count as int)
                by (nonlinear_arith);
        }
        y = Fixed { raw: y.raw + dot.raw };
        row += 1;
    }
    shapes
}

/// Scaling preserves order for non-negative factors.
proof fn lemma_mul_le(i: int, n: int, d: int)
    requires
        0 <= i <= n,
        0 <= d,
    ensures
        0 <= i * d <= n * d,
{
    assert(0 <= i * d <= n * d) by (nonlinear_arith)
        requires
            0 <= i <= n,
            0 <= d,
    ;
}

/// A cell index scaled by the module size stays within the grid span.
proof fn lemma_row_bound(i: int, count: int, dot: int)
    requires
        0 <= i <= count,
        0 <= dot,
        count * dot <= COORD_SAFE,
    ensures
        0 <= i * dot <= COORD_SAFE,
{
    assert(0 <= i * dot <= count * dot) by (nonlinear_arith)
        requires
            0 <= i <= count,
            0 <= dot,
    ;
}

// ---------------------------------------------------------------------------
// Circular-shape edge synthesis: a larger virtual grid whose border rings
// mirror the real matrix's edges, kept only inside the circle.

/// The real cell a virtual cell borrows its color from, per axis: the
/// leading band keeps its index, the trailing band shifts back by both
/// rings, and the middle shifts back by one.
pub open spec fn spec_fake_source(count: int, ad: int, v: int) -> int {
    if v < 2 * ad {
        v
    } else if v >= count {
        v - 2 * ad
    } else {
        v - ad
    }
}

/// Whether a virtual cell is dark: inside the virtual grid but outside
/// its untouched middle, within the circle, and borrowing a dark module.
pub open spec fn spec_fake_dark(
    m: crate::matrix::QRMatrix,
    ad: int,
    fc: int,
    row: int,
    col: int,
) -> bool {
    let count = m.spec_size();
    let lo = if ad >= 1 {
        ad - 1
    } else {
        0
    };
    let sr = spec_fake_source(count, ad, row);
    let sc = spec_fake_source(count, ad, col);
    &&& 0 <= row < fc
    &&& 0 <= col < fc
    &&& !(lo <= row <= fc - ad && lo <= col <= fc - ad)
    &&& (2 * row - fc) * (2 * row - fc) + (2 * col - fc) * (2 * col - fc) <= fc * fc
    &&& sr < count
    &&& sc < count
    &&& m.spec_is_dark(sr, sc)
}

/// The four-neighbor occupancy of a virtual cell over dark virtual cells.
pub open spec fn spec_fake_neighbors(
    m: crate::matrix::QRMatrix,
    ad: int,
    fc: int,
    row: int,
    col: int,
) -> crate::shapes::Neighbors {
    crate::shapes::Neighbors {
        left: spec_fake_dark(m, ad, fc, row, col - 1),
        right: spec_fake_dark(m, ad, fc, row, col + 1),
        top: spec_fake_dark(m, ad, fc, row - 1, col),
        bottom: spec_fake_dark(m, ad, fc, row + 1, col),
    }
}

/// The primitive drawn for the virtual cell at `(row, col)`.
pub open spec fn spec_fake_dot_at(
    m: crate::matrix::QRMatrix,
    dt: crate::types::DotType,
    ad: int,
    fc: int,
    dot: int,
    xb: int,
    yb: int,
    row: int,
    col: int,
) -> crate::shapes::Placed {
    crate::shapes::spec_draw_dot(
        dt,
        Fixed { raw: (xb - ad * dot + col * dot) as i64 },
        Fixed { raw: (yb - ad * dot + row * dot) as i64 },
        Fixed { raw: dot as i64 },
        spec_fake_neighbors(m, ad, fc, row, col),
    )
}

/// The primitives of the first `k` virtual cells in row-major order, one
/// per dark virtual cell.
pub open spec fn spec_fake_dots_upto(
    m: crate::matrix::QRMatrix,
    dt: crate::types::DotType,
    ad: int,
    fc: int,
    dot: int,
    xb: int,
    yb: int,
    k: int,
) -> Seq<crate::shapes::Placed>
    decreases k,
{
    if k <= 0 || fc <= 0 {
        Seq::<crate::shapes::Placed>::empty()
    } else {
        let prev = spec_fake_dots_upto(m, dt, ad, fc, dot, xb, yb, k - 1);
        let row = (k - 1) / fc;
        let col = (k - 1) % fc;
        if spec_fake_dark(m, ad, fc, row, col) {
            prev.push(spec_fake_dot_at(m, dt, ad, fc, dot, xb, yb, row, col))
        } else {
            prev
        }
    }
}

fn fake_dark_at(
    m: &crate::matrix::QRMatrix,
    ad: usize,
    fc: usize,
    row: usize,
    col: usize,
) -> (b: bool)
    requires
        fc == m.spec_size() + 2 * ad,
        ad <= m.spec_size(),
    ensures
        b == spec_fake_dark(*m, ad as int, fc as int, row as int, col as int),
{
    let count = m.size();
    if row >= fc || col >= fc {
        return false;
    }
    let lo = if ad >= 1 {
        ad - 1
    } else {
        0
    };
    if row >= lo && row <= fc - ad && col >= lo && col <= fc - ad {
        return false;
    }
    let dr: i64 = 2 * (row as i64) - (fc as i64);
    let dc: i64 = 2 * (col as i64) - (fc as i64);
    proof {
        assert(0 <= dr * dr <= 1200 * 1200 && 0 <= dc * dc <= 1200 * 1200 && 0 <= (fc as int) * (
        fc as int) <= 600 * 600) by (nonlinear_arith)
            requires
                -1200 <= dr <= 1200,
                -1200 <= dc <= 1200,
                0 <= fc <= 600,
        ;
    }
    if dr * dr + dc * dc > (fc as i64) * (fc as i64) {
        return false;
    }
    let sr = if row < 2 * ad {
        row
    } else if row >= count {
        row - 2 * ad
    } else {
        row - ad
    };
    let sc = if col < 2 * ad {
        col
    } else if col >= count {
        col - 2 * ad
    } else {
        col - ad
    };
    if sr < count && sc < count {
        m.is_dark(sr, sc)
    } else {
        false
    }
}

/// The primitives of every dark virtual cell, in row-major order.
pub fn render_circle_edge_dots(
    m: &crate::matrix::QRMatrix,
    drawer: &crate::shapes::QRDot,
    ad: usize,
    dot: Fixed,
    xb: Fixed,
    yb: Fixed,
) -> (shapes: Vec<crate::shapes::Placed>)
    requires
        ad <= m.spec_size(),
        0 <= dot.raw,
        m.spec_size() * dot.raw <= COORD_SAFE,
        -COORD_SAFE <= xb.raw <= COORD_SAFE,
        -COORD_SAFE <= yb.raw <= COORD_SAFE,
    ensures
        ({
            let fc = m.spec_size() + 2 * ad;
            shapes@ == spec_fake_dots_upto(
                *m,
                drawer.dot_type,
                ad as int,
                fc,
                dot.raw as int,
                xb.raw as int,
                yb.raw as int,
                fc * fc,
            )
        }),
        forall|i: int| 0 <= i < shapes@.len() ==> crate::svg::placed_wf(#[trigger] shapes@[i]),
{
    let count = m.size();
    let fc = count + 2 * ad;
    proof {
        assert(fc as int * dot.raw <= 3 * (count as int * dot.raw)) by (nonlinear_arith)
            requires
                fc <= 3 * count,
                dot.raw >= 0,
        ;
        lemma_mul_le(ad as int, count as int, dot.raw as int);
    }
    let mut shapes: Vec<crate::shapes::Placed> = Vec::new();
    let adr = dot.mul_usize(ad);
    let x0 = Fixed { raw: xb.raw - adr.raw };
    let y0 = Fixed { raw: yb.raw - adr.raw };
    let mut row: usize = 0;
    let mut y = y0;
    while row < fc
        invariant
            count == m.spec_size(),
            fc == count + 2 * ad,
            ad <= count,
            0 <= row <= fc,
            0 <= dot.raw,
            fc * dot.raw <= 3 * COORD_SAFE,
            -2 * COORD_SAFE <= x0.raw <= COORD_SAFE,
            -2 * COORD_SAFE <= y0.raw <= COORD_SAFE,
            x0.raw == xb.raw - ad * dot.raw,
            y0.raw == yb.raw - ad * dot.raw,
            y.raw == y0.raw + row * dot.raw,
            shapes@ == spec_fake_dots_upto(
                *m,
                drawer.dot_type,
                ad as int,
                fc as int,
                dot.raw as int,
                xb.raw as int,
                yb.raw as int,
                row as int * fc as int,
            ),
            forall|i: int| 0 <= i < shapes@.len() ==> crate::svg::placed_wf(#[trigger] shapes@[i]),
        decreases fc - row,
    {
        let mut col: usize = 0;
        let mut x = x0;
        proof {
            lemma_mul_le(row as int, fc as int, dot.raw as int);
        }
        while col < fc
            invariant
                count == m.spec_size(),
                fc == count + 2 * ad,
                ad <= count,
                0 <= row < fc,
                0 <= col <= fc,
                0 <= dot.raw,
                fc * dot.raw <= 3 * COORD_SAFE,
                -2 * COORD_SAFE <= x0.raw <= COORD_SAFE,
                -2 * COORD_SAFE <= y0.raw <= COORD_SAFE,
                x0.raw == xb.raw - ad * dot.raw,
                y0.raw == yb.raw - ad * dot.raw,
                x.raw == x0.raw + col * dot.raw,
                y.raw == y0.raw + row * dot.raw,
                -2 * COORD_SAFE <= y.raw <= COORD_MAX,
                shapes@ == spec_fake_dots_upto(
                    *m,
                    drawer.dot_type,
                    ad as int,
                    fc as int,
                    dot.raw as int,
                    xb.raw as int,
                    yb.raw as int,
                    row as int * fc as int + col as int,
                ),
                forall|i: int|
                    0 <= i < shapes@.len() ==> crate::svg::placed_wf(#[trigger] shapes@[i]),
            decreases fc - col,
        {
            let ghost k = row as int * fc as int + col as int;
            proof {
                vstd::arithmetic::div_mod::lemma_fundamental_div_mod_converse(
                    k,
                    fc as int,
                    row as int,
                    col as int,
                );
                lemma_mul_le(col as int, fc as int, dot.raw as int);
            }
            if fake_dark_at(m, ad, fc, row, col) {
                let n = fake_neighbors_at(m, ad, fc, row, col);
                let p = drawer.draw(x, y, dot, Some(&n));
                proof {
                    assert(x.raw == xb.raw - ad * dot.raw + col * dot.raw);
                    assert(dot.raw <= fc as int * dot.raw) by (nonlinear_arith)
                        requires
                            fc >= 1,
                            dot.raw >= 0,
                    ;
                    assert(coord_ok(x));
                    assert(coord_ok(y));
                    assert(size_ok(dot));
                    assert(crate::svg::placed_wf(p));
                }
                shapes.push(p);
            }
            proof {
                assert((col as int + 1) * dot.raw == col as int * dot.raw + dot.raw)
                    by (nonlinear_arith);
                lemma_mul_le(col as int + 1, fc as int, dot.raw as int);
            }
            x = Fixed { raw: x.raw + dot.raw };
            col += 1;
        }
        proof {
            assert((row as int + 1) * dot.raw == row as int * dot.raw + dot.raw)
                by (nonlinear_arith);
            lemma_mul_le(row as int + 1, fc as int, dot.raw as int);
            assert((row as int + 1) * fc as int == row as int * fc as int + fc as int)
                by (nonlinear_arith);
        }
        y = Fixed { raw: y.raw + dot.raw };
        row += 1;
    }
    shapes
}

fn fake_neighbors_at(
    m: &crate::matrix::QRMatrix,
    ad: usize,
    fc: usize,
    row: usize,
    col: usize,
) -> (n: crate::shapes::Neighbors)
    requires
        fc == m.spec_size() + 2 * ad,
        ad <= m.spec_size(),
        row < fc,
        col < fc,
    ensures
        n == spec_fake_neighbors(*m, ad as int, fc as int, row as int, col as int),
{
    let left = if col > 0 {
        fake_dark_at(m, ad, fc, row, col - 1)
    } else {
        false
    };
    let right = fake_dark_at(m, ad, fc, row, col + 1);
    let top = if row > 0 {
        fake_dark_at(m, ad, fc, row - 1, col)
    } else {
        false
    };
    let bottom = fake_dark_at(m, ad, fc, row + 1, col);
    crate::shapes::Neighbors { left, right, top, bottom }
}

// ---------------------------------------------------------------------------
// Layout: module size and grid origin from the canvas and module count.

/// The usable square side in pixels: the smaller canvas dimension less
/// both margins.
pub open spec fn spec_min_size(o: crate::options::QRCodeStylingOptions) -> int {
    (if o.width <= o.height {
        o.width as int
    } else {
        o.height as int
    }) - 2 * o.margin
}

/// The side of the dot grid in raw units: for a circular outline the
/// usable square shrinks to the largest square inscribed in the circle.
pub open spec fn spec_real_raw(o: crate::options::QRCodeStylingOptions) -> int {
    let mr = spec_min_size(o) * SCALE;
    if o.shape == crate::types::ShapeType::Circle {
        crate::fixed::spec_isqrt(mr * mr / 2)
    } else {
        mr
    }
}

/// A raw quantity rounded down to whole pixels when pixel rounding is on.
pub open spec fn spec_rnd(o: crate::options::QRCodeStylingOptions, v: int) -> int {
    if o.dots_options.round_size {
        (v / (SCALE as int)) * SCALE
    } else {
        v
    }
}

/// The raw module size: the grid side over the module count.
pub open spec fn spec_dot_raw(o: crate::options::QRCodeStylingOptions, count: int) -> int {
    spec_rnd(o, spec_real_raw(o) / count)
}

/// The raw left edge of the grid, centering it on the canvas.
pub open spec fn spec_xb_raw(o: crate::options::QRCodeStylingOptions, count: int) -> int {
    spec_rnd(o, (o.width * (SCALE as int) - count * spec_dot_raw(o, count)) / 2)
}

/// The raw top edge of the grid, centering it on the canvas.
pub open spec fn spec_yb_raw(o: crate::options::QRCodeStylingOptions, count: int) -> int {
    spec_rnd(o, (o.height * (SCALE as int) - count * spec_dot_raw(o, count)) / 2)
}

proof fn lemma_div_mul_le(a: int, b: int)
    requires
        a >= 0,
        b > 0,
    ensures
        0 <= (a / b) * b <= a,
{
    assert(0 <= (a / b) * b <= a) by (nonlinear_arith)
        requires
            a >= 0,
            b > 0,
    ;
}

fn rnd(round_size: bool, v: i64) -> (r: i64)
    requires
        v >= 0,
    ensures
        r == (if round_size {
            ((v as int) / (SCALE as int)) * SCALE
        } else {
            v as int
        }),
        0 <= r <= v,
{
    if round_size {
        proof {
            lemma_div_mul_le(v as int, SCALE as int);
        }
        (v / SCALE) * SCALE
    } else {
        v
    }
}

/// The module size and grid origin for a canvas and module count.
fn layout(o: &crate::options::QRCodeStylingOptions, count: usize) -> (r: (Fixed, Fixed, Fixed))
    requires
        21 <= count <= 177,
        2 * o.margin <= (if o.width <= o.height {
            o.width as int
        } else {
            o.height as int
        }),
    ensures
        r.0.raw == spec_dot_raw(*o, count as int),
        r.1.raw == spec_xb_raw(*o, count as int),
        r.2.raw == spec_yb_raw(*o, count as int),
        0 <= r.0.raw,
        count as int * r.0.raw <= spec_min_size(*o) * SCALE,
        spec_min_size(*o) * SCALE <= COORD_SAFE,
        0 <= r.1.raw <= COORD_SAFE,
        0 <= r.2.raw <= COORD_SAFE,
{
    let smaller: u32 = if o.width <= o.height {
        o.width
    } else {
        o.height
    };
    let min_px: u32 = smaller - 2 * o.margin;
    let mr: i64 = (min_px as i64) * SCALE;
    let is_circle: bool = o.shape == crate::types::ShapeType::Circle;
    let side: i64 = if is_circle {
        proof {
            assert((mr as int) * (mr as int) / 2 <= 0x1000_0000_0000_0000 * 0x1000_0000_0000_0000)
                by (nonlinear_arith)
                requires
                    0 <= mr <= 0x1000_0000_0000_0000,
            ;
        }
        let sq: u128 = ((mr as u128) * (mr as u128)) / 2;
        let root: u64 = crate::fixed::isqrt_u128(sq);
        proof {
            assert((root as int) * (root as int) <= (mr as int) * (mr as int)) by (nonlinear_arith)
                requires
                    (root as int) * (root as int) <= (mr as int) * (mr as int) / 2,
            ;
            assert(root <= mr) by (nonlinear_arith)
                requires
                    (root as int) * (root as int) <= (mr as int) * (mr as int),
                    root >= 0,
                    mr >= 0,
            ;
        }
        root as i64
    } else {
        mr
    };
    let d0: i64 = side / count as i64;
    let dot: i64 = rnd(o.dots_options.round_size, d0);
    proof {
        lemma_div_mul_le(side as int, count as int);
        assert(count as int * dot <= count as int * ((side as int) / (count as int)))
            by (nonlinear_arith)
            requires
                0 <= dot <= (side as int) / (count as int),
                count >= 1,
        ;
        assert(count as int * ((side as int) / (count as int)) == ((side as int) / (count as int))
            * (count as int)) by (nonlinear_arith);
    }
    let xb: i64 = rnd(
        o.dots_options.round_size,
        ((o.width as i64) * SCALE - (count as i64) * dot) / 2,
    );
    let yb: i64 = rnd(
        o.dots_options.round_size,
        ((o.height as i64) * SCALE - (count as i64) * dot) / 2,
    );
    (Fixed { raw: dot }, Fixed { raw: xb }, Fixed { raw: yb })
}

// ---------------------------------------------------------------------------
// Logo embedding: occlusion counts, byte sniffing, and the image element.

/// The hidden-module budget: the logo-size share of the error-correction
/// share of all modules.
pub open spec fn spec_budget(o: crate::options::QRCodeStylingOptions, count: int) -> int {
    count * count * (o.image_options.image_size as int)
        * o.qr_options.error_correction_level.spec_percentage() / 10000
}

/// The occlusion counts: from the budget solver for a square logo when a
/// logo is present, and zero otherwise.
pub open spec fn spec_hide_pair(o: crate::options::QRCodeStylingOptions, count: int) -> (int, int) {
    if o.image is Some {
        crate::image_size::spec_hide_counts(spec_budget(o, count), 1, 1, count - 14)
    } else {
        (0, 0)
    }
}

/// The occlusion counts for this configuration and module count.
fn calculate_image_hide_area(
    o: &crate::options::QRCodeStylingOptions,
    count: usize,
    dot: Fixed,
) -> (r: (usize, usize))
    requires
        21 <= count <= 177,
        0 <= dot.raw,
        count as int * dot.raw <= COORD_SAFE,
    ensures
        (r.0 as int, r.1 as int) == spec_hide_pair(*o, count as int),
        r.0 <= count,
        r.1 <= count,
{
    if o.image.is_none() {
        return (0, 0);
    }
    proof {
        assert((count as int) * (count as int) <= 31329) by (nonlinear_arith)
            requires
                count <= 177,
        ;
    }
    let count2: u64 = (count as u64) * (count as u64);
    let pct: u64 = o.qr_options.error_correction_level.percentage() as u64;
    let size_pct: u64 = o.image_options.image_size as u64;
    proof {
        assert(count2 * size_pct <= 31329 * 255 && count2 * size_pct * pct <= 31329 * 255 * 30)
            by (nonlinear_arith)
            requires
                count2 <= 31329,
                size_pct <= 255,
                pct <= 30,
        ;
    }
    let budget: usize = ((count2 * size_pct * pct) / 10000) as usize;
    let maxa: usize = count - 14;
    proof {
        assert(dot.raw * (maxa as int) <= dot.raw * (count as int)) by (nonlinear_arith)
            requires
                maxa <= count,
                dot.raw >= 0,
        ;
        assert(dot.raw * (count as int) == count as int * dot.raw) by (nonlinear_arith);
    }
    let sizes = crate::image_size::calculate_image_size(1, 1, budget, maxa, dot);
    (sizes.hide_x_dots, sizes.hide_y_dots)
}

/// What the standard base64 encoding of a byte sequence is.
pub uninterp spec fn base64_of(bytes: Seq<u8>) -> Seq<char>;

/// Relies on base64's standard engine: four output characters for every
/// three input bytes, padded; the result depends on the bytes alone.
#[verifier::external_body]
fn base64_standard(data: &[u8]) -> (r: String)
    requires
        data@.len() <= 0x1000_0000_0000_0000,
    ensures
        r@ == base64_of(data@),
        r@.len() == 4 * ((data@.len() + 2) / 3),
{
    base64::Engine::encode(&base64::engine::general_purpose::STANDARD, data)
}

/// The MIME type sniffed from a logo's leading bytes; unknown data is
/// taken for PNG.
pub open spec fn spec_mime(bytes: Seq<u8>) -> Seq<char> {
    if bytes.len() >= 4 && bytes[0] == 0x89 && bytes[1] == 0x50 && bytes[2] == 0x4E && bytes[3]
        == 0x47 {
        "image/png"@
    } else if bytes.len() >= 2 && bytes[0] == 0xFF && bytes[1] == 0xD8 {
        "image/jpeg"@
    } else if bytes.len() > 12 && bytes[0] == 0x52 && bytes[1] == 0x49 && bytes[2] == 0x46
        && bytes[3] == 0x46 && bytes[8] == 0x57 && bytes[9] == 0x45 && bytes[10] == 0x42
        && bytes[11] == 0x50 {
        "image/webp"@
    } else {
        "image/png"@
    }
}

fn mime_of(data: &Vec<u8>) -> (r: &'static str)
    ensures
        r@ == spec_mime(data@),
{
    let n = data.len();
    if n >= 4 && data[0] == 0x89 && data[1] == 0x50 && data[2] == 0x4E && data[3] == 0x47 {
        "image/png"
    } else if n >= 2 && data[0] == 0xFF && data[1] == 0xD8 {
        "image/jpeg"
    } else if n > 12 && data[0] == 0x52 && data[1] == 0x49 && data[2] == 0x46 && data[3] == 0x46
        && data[8] == 0x57 && data[9] == 0x45 && data[10] == 0x42 && data[11] == 0x50 {
        "image/webp"
    } else {
        "image/png"
    }
}

/// The data URI embedding a logo: its MIME type and base64 text.
pub open spec fn spec_data_url(bytes: Seq<u8>) -> Seq<char> {
    "data:"@ + spec_mime(bytes) + ";base64,"@ + base64_of(bytes)
}

/// The left edge of the logo box.
pub open spec fn spec_img_x(
    o: crate::options::QRCodeStylingOptions,
    count: int,
    dot: int,
    xb: int,
    hx: int,
) -> int {
    xb + spec_rnd(o, o.image_options.margin * SCALE + (count * dot - hx * dot) / 2)
}

/// The top edge of the logo box.
pub open spec fn spec_img_y(
    o: crate::options::QRCodeStylingOptions,
    count: int,
    dot: int,
    yb: int,
    hy: int,
) -> int {
    yb + spec_rnd(o, o.image_options.margin * SCALE + (count * dot - hy * dot) / 2)
}

/// The image element embedding the logo over the occluded modules.
fn render_image_element(
    o: &crate::options::QRCodeStylingOptions,
    count: usize,
    dot: Fixed,
    xb: Fixed,
    yb: Fixed,
    hx: usize,
    hy: usize,
    data: &Vec<u8>,
) -> (e: crate::svg::Element)
    requires
        21 <= count <= 177,
        0 <= dot.raw,
        count as int * dot.raw <= COORD_SAFE,
        0 <= xb.raw <= COORD_SAFE,
        0 <= yb.raw <= COORD_SAFE,
        hx <= count,
        hy <= count,
        data@.len() <= 0x1000_0000_0000_0000,
    ensures
        e matches crate::svg::Element::Image { href, x, y, w, h } && href@ == spec_data_url(data@)
            && x.raw == spec_img_x(*o, count as int, dot.raw as int, xb.raw as int, hx as int)
            && y.raw == spec_img_y(*o, count as int, dot.raw as int, yb.raw as int, hy as int)
            && w.raw == hx as int * dot.raw - 2 * o.image_options.margin * SCALE && h.raw
            == hy as int * dot.raw - 2 * o.image_options.margin * SCALE,
        crate::svg::element_wf(e),
{
    let mime = mime_of(data);
    let b64 = base64_standard(data.as_slice());
    let mut href = "data:".to_owned();
    href.append(mime);
    href.append(";base64,");
    href.append(b64.as_str());
    proof {
        lemma_mul_le(hx as int, count as int, dot.raw as int);
        lemma_mul_le(hy as int, count as int, dot.raw as int);
        assert(hx as int * dot.raw == dot.raw * (hx as int)) by (nonlinear_arith);
        assert(hy as int * dot.raw == dot.raw * (hy as int)) by (nonlinear_arith);
        assert(count as int * dot.raw == dot.raw * (count as int)) by (nonlinear_arith);
    }
    let w_img = dot.mul_usize(hx);
    let h_img = dot.mul_usize(hy);
    let grid = dot.mul_usize(count);
    let margin_raw: i64 = (o.image_options.margin as i64) * SCALE;
    let dx: i64 = xb.raw + rnd(o.dots_options.round_size, margin_raw + (grid.raw - w_img.raw) / 2);
    let dy: i64 = yb.raw + rnd(o.dots_options.round_size, margin_raw + (grid.raw - h_img.raw) / 2);
    let dw: i64 = w_img.raw - 2 * margin_raw;
    let dh: i64 = h_img.raw - 2 * margin_raw;
    crate::svg::Element::Image {
        href,
        x: Fixed { raw: dx },
        y: Fixed { raw: dy },
        w: Fixed { raw: dw },
        h: Fixed { raw: dh },
    }
}

// ---------------------------------------------------------------------------
// Definition names, per-layer predicates, and the document itself.

/// The background paint name for one rendering.
pub open spec fn spec_name_bg(iid: int) -> Seq<char> {
    "background-color-"@ + crate::num_fmt::spec_dec(iid)
}

/// The module paint name for one rendering.
pub open spec fn spec_name_dot(iid: int) -> Seq<char> {
    "dot-color-"@ + crate::num_fmt::spec_dec(iid)
}

/// The paint name of one finder ring.
pub open spec fn spec_name_corner_sq(colf: int, rowf: int, iid: int) -> Seq<char> {
    "corners-square-color-"@ + crate::num_fmt::spec_dec(colf) + "-"@ + crate::num_fmt::spec_dec(
        rowf,
    ) + "-"@ + crate::num_fmt::spec_dec(iid)
}

/// The paint name of one finder center.
pub open spec fn spec_name_corner_dot(colf: int, rowf: int, iid: int) -> Seq<char> {
    "corners-dot-color-"@ + crate::num_fmt::spec_dec(colf) + "-"@ + crate::num_fmt::spec_dec(rowf)
        + "-"@ + crate::num_fmt::spec_dec(iid)
}

fn name_with_id(prefix: &str, iid: u64) -> (s: String)
    ensures
        s@ == prefix@ + crate::num_fmt::spec_dec(iid as int),
{
    let mut s = prefix.to_owned();
    let d = dec_u64(iid);
    s.append(d.as_str());
    s
}

fn name_corner(prefix: &str, colf: u64, rowf: u64, iid: u64) -> (s: String)
    ensures
        s@ == prefix@ + crate::num_fmt::spec_dec(colf as int) + "-"@ + crate::num_fmt::spec_dec(
            rowf as int,
        ) + "-"@ + crate::num_fmt::spec_dec(iid as int),
{
    let mut s = prefix.to_owned();
    let c = dec_u64(colf);
    s.append(c.as_str());
    s.append("-");
    let r = dec_u64(rowf);
    s.append(r.as_str());
    s.append("-");
    let d = dec_u64(iid);
    s.append(d.as_str());
    s
}

/// The fill text an element uses: a gradient reference when a gradient is
/// set, the solid color's hexadecimal text otherwise.
pub open spec fn spec_fill_of(g: Option<Gradient>, color: Color, name: Seq<char>) -> Seq<char> {
    if g is Some {
        "url(#"@ + name + ")"@
    } else {
        spec_to_hex(color)
    }
}

/// Whether a definition is the gradient definition a fill calls for.
pub open spec fn spec_grad_def_ok(
    g: Option<Gradient>,
    add_deg: int,
    x: Fixed,
    y: Fixed,
    h: Fixed,
    w: Fixed,
    name: Seq<char>,
    d: Def,
) -> bool {
    match g {
        Some(gr) => if gr.gradient_type == GradientType::Radial {
            spec_radial_def_ok(d, gr, x, y, h, w, name)
        } else {
            spec_linear_def_ok(d, gr, add_deg, x, y, h, w, name)
        },
        None => false,
    }
}

/// The side of the background clip square, horizontally.
pub open spec fn spec_bg_w(o: crate::options::QRCodeStylingOptions) -> int {
    if o.background_options.round > 0 {
        if o.width <= o.height {
            o.width as int
        } else {
            o.height as int
        }
    } else {
        o.width as int
    }
}

/// The side of the background clip square, vertically.
pub open spec fn spec_bg_h(o: crate::options::QRCodeStylingOptions) -> int {
    if o.background_options.round > 0 {
        if o.width <= o.height {
            o.width as int
        } else {
            o.height as int
        }
    } else {
        o.height as int
    }
}

/// The raw left edge of the background clip rectangle.
pub open spec fn spec_bg_x(o: crate::options::QRCodeStylingOptions) -> int {
    spec_rnd(o, (o.width - spec_bg_w(o)) * SCALE / 2)
}

/// The raw top edge of the background clip rectangle.
pub open spec fn spec_bg_y(o: crate::options::QRCodeStylingOptions) -> int {
    spec_rnd(o, (o.height - spec_bg_h(o)) * SCALE / 2)
}

/// The raw corner radius of the background clip rectangle.
pub open spec fn spec_bg_rx(o: crate::options::QRCodeStylingOptions) -> int {
    if o.background_options.round > 0 {
        (spec_bg_h(o) * SCALE / 2) * o.background_options.round / 100
    } else {
        0
    }
}

/// Whether a definitions segment is the background's: its clip rectangle,
/// and its gradient definition exactly when a gradient is set.
pub open spec fn spec_bg_defs_ok(
    o: crate::options::QRCodeStylingOptions,
    iid: int,
    d: Seq<Def>,
) -> bool {
    &&& d.len() == 1 + (if o.background_options.gradient is Some {
        1int
    } else {
        0int
    })
    &&& (d[0] matches Def::ClipPathRect { id, x, y, w, h, rx } && id@ == spec_name_bg(iid) && x.raw
        == spec_bg_x(o) && y.raw == spec_bg_y(o) && w.raw == spec_bg_w(o) * SCALE && h.raw
        == spec_bg_h(o) * SCALE && rx.raw == spec_bg_rx(o))
    &&& (o.background_options.gradient is Some ==> spec_grad_def_ok(
        o.background_options.gradient,
        0,
        Fixed { raw: 0 },
        Fixed { raw: 0 },
        Fixed { raw: (o.height * (SCALE as int)) as i64 },
        Fixed { raw: (o.width * (SCALE as int)) as i64 },
        spec_name_bg(iid),
        d[1],
    ))
}

/// How many extra rings of virtual cells a circular outline adds on each
/// side: the leftover margin over two module sizes, capped at the module
/// count so the virtual grid stays bounded.
pub open spec fn spec_additional(
    o: crate::options::QRCodeStylingOptions,
    count: int,
    dot: int,
) -> int {
    if dot <= 0 {
        0
    } else {
        let r = (spec_min_size(o) * SCALE * SCALE / dot - count * SCALE) / (2 * SCALE);
        if r > count {
            count
        } else {
            r
        }
    }
}

/// Every module primitive of a rendering: one per drawn dark module, and,
/// for a circular outline, one per dark virtual edge cell after them.
pub open spec fn spec_all_dot_shapes(
    o: crate::options::QRCodeStylingOptions,
    m: crate::matrix::QRMatrix,
) -> Seq<crate::shapes::Placed> {
    let count = m.spec_size();
    let dot = spec_dot_raw(o, count);
    let xb = spec_xb_raw(o, count);
    let yb = spec_yb_raw(o, count);
    let pair = spec_hide_pair(o, count);
    let hiding = o.image is Some && o.image_options.hide_background_dots;
    let base = spec_dots_upto(
        m,
        o.dots_options.dot_type,
        hiding,
        pair.0,
        pair.1,
        dot,
        xb,
        yb,
        count * count,
    );
    if o.shape == crate::types::ShapeType::Circle && dot > 0 {
        let ad = spec_additional(o, count, dot);
        let fc = count + 2 * ad;
        base + spec_fake_dots_upto(m, o.dots_options.dot_type, ad, fc, dot, xb, yb, fc * fc)
    } else {
        base
    }
}

/// Whether a definitions segment is the module layer's: its clip path
/// holding every module primitive, and its gradient when one is set.
pub open spec fn spec_dots_defs_ok(
    o: crate::options::QRCodeStylingOptions,
    iid: int,
    m: crate::matrix::QRMatrix,
    d: Seq<Def>,
) -> bool {
    &&& d.len() == 1 + (if o.dots_options.gradient is Some {
        1int
    } else {
        0int
    })
    &&& (d[0] matches Def::ClipPathShapes { id, shapes } && id@ == spec_name_dot(iid) && shapes@
        == spec_all_dot_shapes(o, m))
    &&& (o.dots_options.gradient is Some ==> spec_grad_def_ok(
        o.dots_options.gradient,
        0,
        Fixed { raw: 0 },
        Fixed { raw: 0 },
        Fixed { raw: (o.height * (SCALE as int)) as i64 },
        Fixed { raw: (o.width * (SCALE as int)) as i64 },
        spec_name_dot(iid),
        d[1],
    ))
}

/// The raw left edge of a finder corner.
pub open spec fn spec_corner_x(count: int, dot: int, xb: int, colf: int) -> int {
    xb + colf * dot * (count - 7)
}

/// The raw top edge of a finder corner.
pub open spec fn spec_corner_y(count: int, dot: int, yb: int, rowf: int) -> int {
    yb + rowf * dot * (count - 7)
}

/// Whether a definitions segment and an elements pair belong to one finder
/// corner: the ring clip and rectangle, then the center clip and
/// rectangle, with gradient definitions where gradients are set.
pub open spec fn spec_corner_ok(
    o: crate::options::QRCodeStylingOptions,
    count: int,
    dot: int,
    xb: int,
    yb: int,
    iid: int,
    colf: int,
    rowf: int,
    turn: crate::shapes::Turn,
    d: Seq<Def>,
    e: Seq<crate::svg::Element>,
) -> bool {
    let gs = if o.corners_square_options.gradient is Some {
        1int
    } else {
        0int
    };
    let gq = if o.corners_dot_options.gradient is Some {
        1int
    } else {
        0int
    };
    let x = spec_corner_x(count, dot, xb, colf);
    let y = spec_corner_y(count, dot, yb, rowf);
    let sq_name = spec_name_corner_sq(colf, rowf, iid);
    let dot_name = spec_name_corner_dot(colf, rowf, iid);
    &&& d.len() == 2 + gs + gq
    &&& e.len() == 2
    &&& (d[0] matches Def::ClipPathShape { id, shape } && id@ == sq_name && shape
        == crate::shapes::spec_draw_corner_square(
        o.corners_square_options.square_type,
        Fixed { raw: x as i64 },
        Fixed { raw: y as i64 },
        Fixed { raw: (7 * dot) as i64 },
        turn,
    ))
    &&& (gs == 1 ==> spec_grad_def_ok(
        o.corners_square_options.gradient,
        crate::shapes::spec_turn_degrees(turn),
        Fixed { raw: x as i64 },
        Fixed { raw: y as i64 },
        Fixed { raw: (7 * dot) as i64 },
        Fixed { raw: (7 * dot) as i64 },
        sq_name,
        d[1],
    ))
    &&& (d[1 + gs] matches Def::ClipPathShape { id, shape } && id@ == dot_name && shape
        == crate::shapes::spec_draw_corner_dot(
        o.corners_dot_options.dot_type,
        Fixed { raw: (x + 2 * dot) as i64 },
        Fixed { raw: (y + 2 * dot) as i64 },
        Fixed { raw: (3 * dot) as i64 },
        turn,
    ))
    &&& (gq == 1 ==> spec_grad_def_ok(
        o.corners_dot_options.gradient,
        crate::shapes::spec_turn_degrees(turn),
        Fixed { raw: (x + 2 * dot) as i64 },
        Fixed { raw: (y + 2 * dot) as i64 },
        Fixed { raw: (3 * dot) as i64 },
        Fixed { raw: (3 * dot) as i64 },
        dot_name,
        d[2 + gs],
    ))
    &&& (e[0] matches crate::svg::Element::FillRect { x: ex, y: ey, w, h, fill, clip } && ex.raw
        == x && ey.raw == y && w.raw == 7 * dot && h.raw == 7 * dot && fill@ == spec_fill_of(
        o.corners_square_options.gradient,
        o.corners_square_options.color,
        sq_name,
    ) && (clip matches Some(n) && n@ == sq_name))
    &&& (e[1] matches crate::svg::Element::FillRect { x: ex, y: ey, w, h, fill, clip } && ex.raw
        == x + 2 * dot && ey.raw == y + 2 * dot && w.raw == 3 * dot && h.raw == 3 * dot && fill@
        == spec_fill_of(o.corners_dot_options.gradient, o.corners_dot_options.color, dot_name) && (
    clip matches Some(n) && n@ == dot_name))
}

/// Whether an element is the background rectangle.
pub open spec fn spec_bg_element_ok(
    o: crate::options::QRCodeStylingOptions,
    iid: int,
    e: crate::svg::Element,
) -> bool {
    e matches crate::svg::Element::FillRect { x, y, w, h, fill, clip } && x.raw == 0 && y.raw == 0
        && w.raw == o.width * SCALE && h.raw == o.height * SCALE && fill@ == spec_fill_of(
        o.background_options.gradient,
        o.background_options.color,
        spec_name_bg(iid),
    ) && (clip matches Some(n) && n@ == spec_name_bg(iid))
}

/// Whether an element is the module-layer rectangle.
pub open spec fn spec_dots_element_ok(
    o: crate::options::QRCodeStylingOptions,
    iid: int,
    e: crate::svg::Element,
) -> bool {
    e matches crate::svg::Element::FillRect { x, y, w, h, fill, clip } && x.raw == 0 && y.raw == 0
        && w.raw == o.width * SCALE && h.raw == o.height * SCALE && fill@ == spec_fill_of(
        o.dots_options.gradient,
        o.dots_options.color,
        spec_name_dot(iid),
    ) && (clip matches Some(n) && n@ == spec_name_dot(iid))
}

/// Whether an element embeds the logo over the occluded modules.
pub open spec fn spec_image_element_ok(
    o: crate::options::QRCodeStylingOptions,
    count: int,
    dot: int,
    xb: int,
    yb: int,
    bytes: Seq<u8>,
    e: crate::svg::Element,
) -> bool {
    let pair = spec_hide_pair(o, count);
    e matches crate::svg::Element::Image { href, x, y, w, h } && href@ == spec_data_url(bytes)
        && x.raw == spec_img_x(o, count, dot, xb, pair.0) && y.raw == spec_img_y(
        o,
        count,
        dot,
        yb,
        pair.1,
    ) && w.raw == pair.0 * dot - 2 * o.image_options.margin * SCALE && h.raw == pair.1 * dot - 2
        * o.image_options.margin * SCALE
}

/// What a rendering asks of its configuration: margins that fit the
/// canvas, a logo that fits in memory, and gradient rotations within one
/// representable range.
pub open spec fn spec_render_req(o: crate::options::QRCodeStylingOptions) -> bool {
    &&& 2 * o.margin <= (if o.width <= o.height {
        o.width as int
    } else {
        o.height as int
    })
    &&& (o.image matches Some(i) ==> i@.len() <= 0x1000_0000_0000_0000)
    &&& (o.background_options.gradient matches Some(g) ==> -0x1_0000_0000_0000 <= g.rotation
        <= 0x1_0000_0000_0000)
    &&& (o.dots_options.gradient matches Some(g) ==> -0x1_0000_0000_0000 <= g.rotation
        <= 0x1_0000_0000_0000)
    &&& (o.corners_square_options.gradient matches Some(g) ==> -0x1_0000_0000_0000 <= g.rotation
        <= 0x1_0000_0000_0000)
    &&& (o.corners_dot_options.gradient matches Some(g) ==> -0x1_0000_0000_0000 <= g.rotation
        <= 0x1_0000_0000_0000)
}

/// Everything the composed document promises: its canvas, its definitions
/// split into the background's, the module layer's and the three finder
/// corners' segments, and its elements in background, modules, corners,
/// logo order.
pub open spec fn document_post(
    o: crate::options::QRCodeStylingOptions,
    iid: int,
    m: crate::matrix::QRMatrix,
    doc: crate::svg::SvgDocument,
) -> bool {
    let count = m.spec_size();
    let dot = spec_dot_raw(o, count);
    let xb = spec_xb_raw(o, count);
    let yb = spec_yb_raw(o, count);
    &&& doc.width == o.width
    &&& doc.height == o.height
    &&& doc.round_size == o.dots_options.round_size
    &&& exists|db: Seq<Def>, dd: Seq<Def>, c0: Seq<Def>, c1: Seq<Def>, c2: Seq<Def>|
        {
            &&& #[trigger] (db + dd + c0 + c1 + c2) =~= doc.defs@
            &&& spec_bg_defs_ok(o, iid, db)
            &&& spec_dots_defs_ok(o, iid, m, dd)
            &&& spec_corner_ok(
                o,
                count,
                dot,
                xb,
                yb,
                iid,
                0,
                0,
                crate::shapes::Turn::T0,
                c0,
                doc.elements@.subrange(2, 4),
            )
            &&& spec_corner_ok(
                o,
                count,
                dot,
                xb,
                yb,
                iid,
                1,
                0,
                crate::shapes::Turn::T90,
                c1,
                doc.elements@.subrange(4, 6),
            )
            &&& spec_corner_ok(
                o,
                count,
                dot,
                xb,
                yb,
                iid,
                0,
                1,
                crate::shapes::Turn::T270,
                c2,
                doc.elements@.subrange(6, 8),
            )
        }
    &&& doc.elements@.len() == (if o.image is Some {
        9int
    } else {
        8int
    })
    &&& spec_bg_element_ok(o, iid, doc.elements@[0])
    &&& spec_dots_element_ok(o, iid, doc.elements@[1])
    &&& (o.image matches Some(img) ==> spec_image_element_ok(
        o,
        count,
        dot,
        xb,
        yb,
        img@,
        doc.elements@[8],
    ))
}

fn additional_dots(
    o: &crate::options::QRCodeStylingOptions,
    count: usize,
    dot: Fixed,
) -> (ad: usize)
    requires
        21 <= count <= 177,
        dot.raw > 0,
        2 * o.margin <= (if o.width <= o.height {
            o.width as int
        } else {
            o.height as int
        }),
        count as int * dot.raw <= spec_min_size(*o) * SCALE,
        spec_min_size(*o) * SCALE <= COORD_SAFE,
    ensures
        ad == spec_additional(*o, count as int, dot.raw as int),
        ad <= count,
{
    let smaller: u32 = if o.width <= o.height {
        o.width
    } else {
        o.height
    };
    let min_px: u32 = smaller - 2 * o.margin;
    let num: i128 = (min_px as i128) * (SCALE as i128) * (SCALE as i128);
    proof {
        assert(spec_min_size(*o) * SCALE * SCALE == num) by (nonlinear_arith)
            requires
                num == (min_px as int) * (SCALE as int) * (SCALE as int),
                spec_min_size(*o) == min_px as int,
        ;
        assert((num as int) / (dot.raw as int) >= 0 && (num as int) / (dot.raw as int)
            <= num as int) by (nonlinear_arith)
            requires
                num >= 0,
                dot.raw >= 1,
        ;
    }
    let ratio: i128 = num / (dot.raw as i128);
    let r0: i128 = (ratio - (count as i128) * (SCALE as i128)) / (2 * (SCALE as i128));
    let capped: i128 = if r0 > count as i128 {
        count as i128
    } else {
        r0
    };
    proof {
        assert((count as int) * dot.raw * (SCALE as int) <= num as int) by (nonlinear_arith)
            requires
                count as int * dot.raw <= spec_min_size(*o) * SCALE,
                num as int == spec_min_size(*o) * SCALE * SCALE,
                SCALE == 1_000_000,
        ;
        assert(ratio >= (count as int) * (SCALE as int)) by (nonlinear_arith)
            requires
                ratio as int == (num as int) / (dot.raw as int),
                (count as int) * dot.raw * (SCALE as int) <= num as int,
                dot.raw >= 1,
        ;
        assert(r0 >= 0) by (nonlinear_arith)
            requires
                r0 == (ratio - (count as int) * (SCALE as int)) / (2 * (SCALE as int)),
                ratio >= (count as int) * (SCALE as int),
        ;
    }
    capped as usize
}

/// Composes documents from a configuration and an encoded matrix.
///
/// The instance number keeps definition names of independently rendered
/// documents distinct when their markup is later concatenated.
pub struct SvgRenderer {
    /// The configuration rendered.
    pub options: crate::options::QRCodeStylingOptions,
    /// The number woven into definition names.
    pub instance_id: u64,
}

impl SvgRenderer {
    /// A renderer for a configuration, with instance number zero.
    pub fn new(options: crate::options::QRCodeStylingOptions) -> (r: SvgRenderer)
        ensures
            r.options == options,
            r.instance_id == 0,
    {
        SvgRenderer { options, instance_id: 0 }
    }

    /// A renderer with an explicit instance number, for callers that
    /// render several documents.
    pub fn with_instance_id(options: crate::options::QRCodeStylingOptions, instance_id: u64) -> (r:
        SvgRenderer)
        ensures
            r.options == options,
            r.instance_id == instance_id,
    {
        SvgRenderer { options, instance_id }
    }

    /// The composed document for a matrix: background, modules, finder
    /// corners, and the optional logo.
    pub fn document(&self, matrix: &crate::matrix::QRMatrix) -> (doc: crate::svg::SvgDocument)
        requires
            spec_render_req(self.options),
        ensures
            document_post(self.options, self.instance_id as int, *matrix, doc),
            crate::svg::document_wf(doc),
    {
        compose_document(&self.options, self.instance_id, matrix)
    }

    /// Renders a matrix to complete markup.
    ///
    /// Rendering never fails: the result is total for every encoded
    /// matrix and admissible configuration.
    pub fn render(&self, matrix: &crate::matrix::QRMatrix) -> (res: crate::error::QRResult<String>)
        requires
            spec_render_req(self.options),
        ensures
            res matches Ok(s) && exists|doc: crate::svg::SvgDocument|
                #[trigger] document_post(self.options, self.instance_id as int, *matrix, doc) && s@
                    == crate::svg::spec_document_markup(doc),
    {
        render_markup(&self.options, self.instance_id, matrix)
    }
}

/// The composed document for a configuration, instance number and matrix.
#[verifier::rlimit(60)]
pub fn compose_document(
    o: &crate::options::QRCodeStylingOptions,
    iid: u64,
    matrix: &crate::matrix::QRMatrix,
) -> (doc: crate::svg::SvgDocument)
    requires
        spec_render_req(*o),
    ensures
        document_post(*o, iid as int, *matrix, doc),
        crate::svg::document_wf(doc),
{
    let count = matrix.module_count();
    let (dot, xb, yb) = layout(o, count);
    let (hx, hy) = calculate_image_hide_area(o, count, dot);

    let mut defs: Vec<Def> = Vec::new();
    let mut elements: Vec<crate::svg::Element> = Vec::new();

    let (mut bg_defs, bg_elem) = render_background_layer(o, iid);
    let ghost db = bg_defs@;
    defs.append(&mut bg_defs);
    elements.push(bg_elem);

    let (mut dot_defs, dots_elem) = render_dots_layer(o, iid, matrix, count, dot, xb, yb, hx, hy);
    let ghost dd = dot_defs@;
    defs.append(&mut dot_defs);
    elements.push(dots_elem);

    proof {
        assert(dot.raw * (count - 7) as int <= count as int * dot.raw) by (nonlinear_arith)
            requires
                dot.raw >= 0,
                count >= 7,
        ;
        assert((count - 7) as int * dot.raw == dot.raw * (count - 7) as int)
            by (nonlinear_arith);
    }
    let step = dot.mul_usize(count - 7);
    let (mut cd0, mut ce0) = build_corner(o, iid, count, dot, xb, yb, step, 0, 0, crate::shapes::Turn::T0);
    let ghost c0 = cd0@;
    let ghost e0 = ce0@;
    defs.append(&mut cd0);
    elements.append(&mut ce0);
    let (mut cd1, mut ce1) = build_corner(o, iid, count, dot, xb, yb, step, 1, 0, crate::shapes::Turn::T90);
    let ghost c1 = cd1@;
    let ghost e1 = ce1@;
    defs.append(&mut cd1);
    elements.append(&mut ce1);
    let (mut cd2, mut ce2) = build_corner(o, iid, count, dot, xb, yb, step, 0, 1, crate::shapes::Turn::T270);
    let ghost c2 = cd2@;
    let ghost e2 = ce2@;
    defs.append(&mut cd2);
    elements.append(&mut ce2);

    match &o.image {
        Some(img) => {
            let e = render_image_element(o, count, dot, xb, yb, hx, hy, img);
            elements.push(e);
        },
        None => {},
    }

    let doc = crate::svg::SvgDocument {
        width: o.width,
        height: o.height,
        round_size: o.dots_options.round_size,
        defs,
        elements,
    };
    proof {
        assert(db + dd + c0 + c1 + c2 =~= doc.defs@);
        assert(doc.elements@.subrange(2, 4) =~= e0);
        assert(doc.elements@.subrange(4, 6) =~= e1);
        assert(doc.elements@.subrange(6, 8) =~= e2);
    }
    doc
}

/// Renders a configuration and matrix to complete markup.
///
/// Rendering never fails: the result is total for every encoded matrix
/// and admissible configuration.
pub fn render_markup(
    o: &crate::options::QRCodeStylingOptions,
    iid: u64,
    matrix: &crate::matrix::QRMatrix,
) -> (res: crate::error::QRResult<String>)
    requires
        spec_render_req(*o),
    ensures
        res matches Ok(s) && exists|doc: crate::svg::SvgDocument|
            #[trigger] document_post(*o, iid as int, *matrix, doc) && s@
                == crate::svg::spec_document_markup(doc),
{
    let doc = compose_document(o, iid, matrix);
    let markup = crate::svg::document_markup(&doc);
    proof {
        let d = doc;
        assert(document_post(*o, iid as int, *matrix, d) && markup@
            == crate::svg::spec_document_markup(d));
    }
    Ok(markup)
}

/// The background's definitions and covering rectangle.
#[verifier::rlimit(100)]
fn render_background_layer(o: &crate::options::QRCodeStylingOptions, iid: u64) -> (r: (
    Vec<Def>,
    crate::svg::Element,
))
    requires
        spec_render_req(*o),
    ensures
        spec_bg_defs_ok(*o, iid as int, r.0@),
        spec_bg_element_ok(*o, iid as int, r.1),
        forall|i: int| 0 <= i < r.0@.len() ==> crate::svg::def_wf(#[trigger] r.0@[i]),
        crate::svg::element_wf(r.1),
{
    let name_bg = name_with_id("background-color-", iid);
    let smaller: u32 = if o.width <= o.height {
        o.width
    } else {
        o.height
    };
    let bw: u32 = if o.background_options.round > 0 {
        smaller
    } else {
        o.width
    };
    let bh: u32 = if o.background_options.round > 0 {
        smaller
    } else {
        o.height
    };
    let bx: i64 = rnd(o.dots_options.round_size, ((o.width - bw) as i64) * SCALE / 2);
    let by: i64 = rnd(o.dots_options.round_size, ((o.height - bh) as i64) * SCALE / 2);
    let rx: i64 = if o.background_options.round > 0 {
        proof {
            assert(0 <= ((bh as int) * (SCALE as int) / 2) * (o.background_options.round as int)
                <= 0x1_0000_0000 * 1_000_000 * 255) by (nonlinear_arith)
                requires
                    0 <= bh <= 0x1_0000_0000,
                    0 <= o.background_options.round <= 255,
                    SCALE == 1_000_000,
            ;
        }
        ((bh as i64) * SCALE / 2) * (o.background_options.round as i64) / 100
    } else {
        0
    };
    proof {
        if o.background_options.round > 0 {
            assert(0 <= ((bh as int) * (SCALE as int) / 2) * (o.background_options.round as int)
                / 100 <= 0x1_0000_0000 * 1_000_000 * 3) by (nonlinear_arith)
                requires
                    0 <= ((bh as int) * (SCALE as int) / 2) * (o.background_options.round as int)
                        <= 0x1_0000_0000 * 1_000_000 * 255,
            ;
        }
    }
    let full_w = Fixed { raw: (o.width as i64) * SCALE };
    let full_h = Fixed { raw: (o.height as i64) * SCALE };
    let mut defs: Vec<Def> = Vec::new();
    defs.push(
        Def::ClipPathRect {
            id: name_bg.clone(),
            x: Fixed { raw: bx },
            y: Fixed { raw: by },
            w: Fixed { raw: (bw as i64) * SCALE },
            h: Fixed { raw: (bh as i64) * SCALE },
            rx: Fixed { raw: rx },
        },
    );
    let (bg_grad, bg_fill) = create_color(
        o.background_options.gradient.as_ref(),
        &o.background_options.color,
        0,
        Fixed { raw: 0 },
        Fixed { raw: 0 },
        full_h,
        full_w,
        name_bg.as_str(),
    );
    match bg_grad {
        Some(d) => defs.push(d),
        None => {},
    }
    let elem = crate::svg::Element::FillRect {
        x: Fixed { raw: 0 },
        y: Fixed { raw: 0 },
        w: full_w,
        h: full_h,
        fill: bg_fill,
        clip: Some(name_bg),
    };
    (defs, elem)
}

/// The module layer's definitions and covering rectangle.
#[verifier::rlimit(100)]
fn render_dots_layer(
    o: &crate::options::QRCodeStylingOptions,
    iid: u64,
    matrix: &crate::matrix::QRMatrix,
    count: usize,
    dot: Fixed,
    xb: Fixed,
    yb: Fixed,
    hx: usize,
    hy: usize,
) -> (r: (Vec<Def>, crate::svg::Element))
    requires
        spec_render_req(*o),
        count == matrix.spec_size(),
        21 <= count <= 177,
        dot.raw == spec_dot_raw(*o, count as int),
        xb.raw == spec_xb_raw(*o, count as int),
        yb.raw == spec_yb_raw(*o, count as int),
        (hx as int, hy as int) == spec_hide_pair(*o, count as int),
        hx <= count,
        hy <= count,
        0 <= dot.raw,
        count as int * dot.raw <= spec_min_size(*o) * SCALE,
        spec_min_size(*o) * SCALE <= COORD_SAFE,
        0 <= xb.raw <= COORD_SAFE,
        0 <= yb.raw <= COORD_SAFE,
    ensures
        spec_dots_defs_ok(*o, iid as int, *matrix, r.0@),
        spec_dots_element_ok(*o, iid as int, r.1),
        forall|i: int| 0 <= i < r.0@.len() ==> crate::svg::def_wf(#[trigger] r.0@[i]),
        crate::svg::element_wf(r.1),
{
    let name_dot = name_with_id("dot-color-", iid);
    let hiding = o.image.is_some() && o.image_options.hide_background_dots;
    let drawer = crate::shapes::QRDot::new(o.dots_options.dot_type);
    let mut shapes = render_dots(matrix, &drawer, hiding, hx, hy, dot, xb, yb);
    if o.shape == crate::types::ShapeType::Circle && dot.raw > 0 {
        let ad = additional_dots(o, count, dot);
        let mut fake = render_circle_edge_dots(matrix, &drawer, ad, dot, xb, yb);
        shapes.append(&mut fake);
    }
    let mut defs: Vec<Def> = Vec::new();
    defs.push(Def::ClipPathShapes { id: name_dot.clone(), shapes });
    let full_w = Fixed { raw: (o.width as i64) * SCALE };
    let full_h = Fixed { raw: (o.height as i64) * SCALE };
    let (dots_grad, dots_fill) = create_color(
        o.dots_options.gradient.as_ref(),
        &o.dots_options.color,
        0,
        Fixed { raw: 0 },
        Fixed { raw: 0 },
        full_h,
        full_w,
        name_dot.as_str(),
    );
    match dots_grad {
        Some(d) => defs.push(d),
        None => {},
    }
    let elem = crate::svg::Element::FillRect {
        x: Fixed { raw: 0 },
        y: Fixed { raw: 0 },
        w: full_w,
        h: full_h,
        fill: dots_fill,
        clip: Some(name_dot),
    };
    (defs, elem)
}

/// The ring half of one finder corner: its clip, optional gradient, and
/// rectangle.
#[verifier::rlimit(100)]
fn build_corner_square(
    o: &crate::options::QRCodeStylingOptions,
    sq_name: String,
    x: Fixed,
    y: Fixed,
    sq_size: Fixed,
    turn: crate::shapes::Turn,
) -> (r: (Vec<Def>, crate::svg::Element))
    requires
        spec_render_req(*o),
        -2 * COORD_SAFE <= x.raw <= 2 * COORD_SAFE,
        -2 * COORD_SAFE <= y.raw <= 2 * COORD_SAFE,
        0 <= sq_size.raw <= COORD_SAFE,
    ensures
        r.0@.len() == 1 + (if o.corners_square_options.gradient is Some {
            1int
        } else {
            0int
        }),
        (r.0@[0] matches Def::ClipPathShape { id, shape } && id@ == sq_name@ && shape
            == crate::shapes::spec_draw_corner_square(
            o.corners_square_options.square_type,
            x,
            y,
            sq_size,
            turn,
        )),
        o.corners_square_options.gradient is Some ==> spec_grad_def_ok(
            o.corners_square_options.gradient,
            crate::shapes::spec_turn_degrees(turn),
            x,
            y,
            sq_size,
            sq_size,
            sq_name@,
            r.0@[1],
        ),
        (r.1 matches crate::svg::Element::FillRect { x: ex, y: ey, w, h, fill, clip } && ex == x
            && ey == y && w == sq_size && h == sq_size && fill@ == spec_fill_of(
            o.corners_square_options.gradient,
            o.corners_square_options.color,
            sq_name@,
        ) && (clip matches Some(n) && n@ == sq_name@)),
        forall|i: int| 0 <= i < r.0@.len() ==> crate::svg::def_wf(#[trigger] r.0@[i]),
        crate::svg::element_wf(r.1),
{
    let mut defs: Vec<Def> = Vec::new();
    let sq_drawer = crate::shapes::QRCornerSquare::new(o.corners_square_options.square_type);
    let sq_shape = sq_drawer.draw(x, y, sq_size, turn);
    defs.push(Def::ClipPathShape { id: sq_name.clone(), shape: sq_shape });
    let (sq_grad, sq_fill) = create_color(
        o.corners_square_options.gradient.as_ref(),
        &o.corners_square_options.color,
        turn.degrees(),
        x,
        y,
        sq_size,
        sq_size,
        sq_name.as_str(),
    );
    match sq_grad {
        Some(d) => defs.push(d),
        None => {},
    }
    let elem = crate::svg::Element::FillRect {
        x,
        y,
        w: sq_size,
        h: sq_size,
        fill: sq_fill,
        clip: Some(sq_name),
    };
    (defs, elem)
}

/// The center half of one finder corner: its clip, optional gradient, and
/// rectangle.
#[verifier::rlimit(100)]
fn build_corner_center(
    o: &crate::options::QRCodeStylingOptions,
    dot_name: String,
    x: Fixed,
    y: Fixed,
    dsz: Fixed,
    turn: crate::shapes::Turn,
) -> (r: (Vec<Def>, crate::svg::Element))
    requires
        spec_render_req(*o),
        -2 * COORD_SAFE <= x.raw <= 2 * COORD_SAFE,
        -2 * COORD_SAFE <= y.raw <= 2 * COORD_SAFE,
        0 <= dsz.raw <= COORD_SAFE,
    ensures
        r.0@.len() == 1 + (if o.corners_dot_options.gradient is Some {
            1int
        } else {
            0int
        }),
        (r.0@[0] matches Def::ClipPathShape { id, shape } && id@ == dot_name@ && shape
            == crate::shapes::spec_draw_corner_dot(
            o.corners_dot_options.dot_type,
            x,
            y,
            dsz,
            turn,
        )),
        o.corners_dot_options.gradient is Some ==> spec_grad_def_ok(
            o.corners_dot_options.gradient,
            crate::shapes::spec_turn_degrees(turn),
            x,
            y,
            dsz,
            dsz,
            dot_name@,
            r.0@[1],
        ),
        (r.1 matches crate::svg::Element::FillRect { x: ex, y: ey, w, h, fill, clip } && ex == x
            && ey == y && w == dsz && h == dsz && fill@ == spec_fill_of(
            o.corners_dot_options.gradient,
            o.corners_dot_options.color,
            dot_name@,
        ) && (clip matches Some(n) && n@ == dot_name@)),
        forall|i: int| 0 <= i < r.0@.len() ==> crate::svg::def_wf(#[trigger] r.0@[i]),
        crate::svg::element_wf(r.1),
{
    let mut defs: Vec<Def> = Vec::new();
    let dot_drawer = crate::shapes::QRCornerDot::new(o.corners_dot_options.dot_type);
    let dot_shape = dot_drawer.draw(x, y, dsz, turn);
    defs.push(Def::ClipPathShape { id: dot_name.clone(), shape: dot_shape });
    let (dot_grad, dot_fill) = create_color(
        o.corners_dot_options.gradient.as_ref(),
        &o.corners_dot_options.color,
        turn.degrees(),
        x,
        y,
        dsz,
        dsz,
        dot_name.as_str(),
    );
    match dot_grad {
        Some(d) => defs.push(d),
        None => {},
    }
    let elem = crate::svg::Element::FillRect {
        x,
        y,
        w: dsz,
        h: dsz,
        fill: dot_fill,
        clip: Some(dot_name),
    };
    (defs, elem)
}

/// One finder corner's definitions and its two rectangles.
#[verifier::rlimit(100)]
fn build_corner(
    o: &crate::options::QRCodeStylingOptions,
    iid: u64,
    count: usize,
    dot: Fixed,
    xb: Fixed,
    yb: Fixed,
    step: Fixed,
    colf: u64,
    rowf: u64,
    turn: crate::shapes::Turn,
) -> (r: (Vec<Def>, Vec<crate::svg::Element>))
    requires
        21 <= count <= 177,
        0 <= dot.raw,
        count as int * dot.raw <= COORD_SAFE,
        0 <= xb.raw <= COORD_SAFE,
        0 <= yb.raw <= COORD_SAFE,
        step.raw == (count - 7) as int * dot.raw,
        colf == 0 || colf == 1,
        rowf == 0 || rowf == 1,
        spec_render_req(*o),
    ensures
        spec_corner_ok(
            *o,
            count as int,
            dot.raw as int,
            xb.raw as int,
            yb.raw as int,
            iid as int,
            colf as int,
            rowf as int,
            turn,
            r.0@,
            r.1@,
        ),
        forall|i: int| 0 <= i < r.0@.len() ==> crate::svg::def_wf(#[trigger] r.0@[i]),
        forall|i: int| 0 <= i < r.1@.len() ==> crate::svg::element_wf(#[trigger] r.1@[i]),
{
    proof {
        lemma_mul_le((count - 7) as int, count as int, dot.raw as int);
        assert((colf as int) * (dot.raw as int) * ((count - 7) as int) == (colf as int) * ((count
            - 7) as int * dot.raw)) by (nonlinear_arith);
        assert((rowf as int) * (dot.raw as int) * ((count - 7) as int) == (rowf as int) * ((count
            - 7) as int * dot.raw)) by (nonlinear_arith);
        assert(1int * ((count - 7) as int * dot.raw) == (count - 7) as int * dot.raw);
        assert(0int * ((count - 7) as int * dot.raw) == 0);
        assert(dot.raw * 7 <= count as int * dot.raw && dot.raw * 3 <= count as int * dot.raw
            && dot.raw * 2 <= count as int * dot.raw && 7 * dot.raw == dot.raw * 7 && 3 * dot.raw
            == dot.raw * 3 && 2 * dot.raw == dot.raw * 2) by (nonlinear_arith)
            requires
                dot.raw >= 0,
                count >= 21,
        ;
        assert((count - 7) as int * dot.raw + 2 * dot.raw <= count as int * dot.raw)
            by (nonlinear_arith)
            requires
                count >= 21,
                dot.raw >= 0,
        ;
    }
    let x = if colf == 1 {
        Fixed { raw: xb.raw + step.raw }
    } else {
        xb
    };
    let y = if rowf == 1 {
        Fixed { raw: yb.raw + step.raw }
    } else {
        yb
    };
    let sq_size = dot.mul_usize(7);
    let dsz = dot.mul_usize(3);
    let two_dot = dot.mul_usize(2);
    let sq_name = name_corner("corners-square-color-", colf, rowf, iid);
    let dot_name = name_corner("corners-dot-color-", colf, rowf, iid);
    let (mut sq_defs, sq_elem) = build_corner_square(o, sq_name, x, y, sq_size, turn);
    let xd = Fixed { raw: x.raw + two_dot.raw };
    let yd = Fixed { raw: y.raw + two_dot.raw };
    let (mut dot_defs, dot_elem) = build_corner_center(o, dot_name, xd, yd, dsz, turn);
    let ghost sq_seq = sq_defs@;
    let ghost dot_seq = dot_defs@;
    let mut defs: Vec<Def> = sq_defs;
    defs.append(&mut dot_defs);
    let mut elements: Vec<crate::svg::Element> = Vec::new();
    elements.push(sq_elem);
    elements.push(dot_elem);
    proof {
        assert(defs@ =~= sq_seq + dot_seq);
    }
    (defs, elements)
}

} // verus!
