//! Serializes placed primitives and whole documents to vector markup.

use vstd::prelude::*;
use vstd::string::StrSliceExecFns;
use vstd::string::StringExecFns;
use crate::color::spec_to_hex;
use crate::fixed::Fixed;
use crate::gradient::ColorStop;
use crate::num_fmt::{dec_i64, dec_u32, dec_u64, fixed_str, spec_dec, spec_dec_i, spec_fixed_str};
use crate::shapes::{spec_turn_degrees, Placed, Shape, Turn};

verus! {

/// The largest raw coordinate magnitude a document may hold.
pub const COORD_MAX: i64 = 0x80_0000_0000_0000;

/// A headroom bound for raw canvas coordinates: any whole-pixel canvas
/// position fits, with room for the arithmetic the composer does on it.
pub const COORD_SAFE: i64 = 0x10_0000_0000_0000;

/// Whether a coordinate is small enough to serialize.
pub open spec fn coord_ok(v: Fixed) -> bool {
    -COORD_MAX <= v.raw <= COORD_MAX
}

/// Whether a length is non-negative and small enough to serialize.
pub open spec fn size_ok(v: Fixed) -> bool {
    0 <= v.raw <= COORD_MAX
}

/// Whether a placed primitive's numbers are within serializable range.
pub open spec fn placed_wf(p: Placed) -> bool {
    match p.shape {
        Shape::Circle { x, y, size } => coord_ok(x) && coord_ok(y) && size_ok(size),
        Shape::Rect { x, y, w, h } => coord_ok(x) && coord_ok(y) && size_ok(w) && size_ok(h),
        Shape::SideRounded { x, y, size } => coord_ok(x) && coord_ok(y) && size_ok(size),
        Shape::CornerRounded { x, y, size } => coord_ok(x) && coord_ok(y) && size_ok(size),
        Shape::CornerExtraRounded { x, y, size } => coord_ok(x) && coord_ok(y) && size_ok(size),
        Shape::CornersRounded { x, y, size } => coord_ok(x) && coord_ok(y) && size_ok(size),
        Shape::Ring { x, y, size } => coord_ok(x) && coord_ok(y) && size_ok(size),
        Shape::HollowSquare { x, y, size } => coord_ok(x) && coord_ok(y) && size_ok(size),
        Shape::HollowExtraRounded { x, y, size } => coord_ok(x) && coord_ok(y) && size_ok(size),
    }
}

/// The rotation attribute of a placed primitive: empty for no turn, else
/// a `rotate` transform about the shape's center.
pub open spec fn spec_rot_attr(turn: Turn, cx: int, cy: int) -> Seq<char> {
    if turn == Turn::T0 {
        Seq::<char>::empty()
    } else {
        " transform=\"rotate("@ + spec_dec_i(spec_turn_degrees(turn)) + ","@ + spec_fixed_str(cx)
            + ","@ + spec_fixed_str(cy) + ")\""@
    }
}

/// The path data of a square whose right side bulges out.
pub open spec fn spec_d_side_rounded(xr: int, yr: int, sz: int) -> Seq<char> {
    let half = sz / 2;
    "M "@ + spec_fixed_str(xr) + " "@ + spec_fixed_str(yr) + " v "@ + spec_fixed_str(sz) + " h "@
        + spec_fixed_str(half) + " a "@ + spec_fixed_str(half) + " "@ + spec_fixed_str(half)
        + " 0 0 0 0 "@ + spec_fixed_str(-sz)
}

/// The path data of a square with one corner rounded at half the side.
pub open spec fn spec_d_corner_rounded(xr: int, yr: int, sz: int) -> Seq<char> {
    let half = sz / 2;
    "M "@ + spec_fixed_str(xr) + " "@ + spec_fixed_str(yr) + " v "@ + spec_fixed_str(sz) + " h "@
        + spec_fixed_str(sz) + " v "@ + spec_fixed_str(-half) + " a "@ + spec_fixed_str(half)
        + " "@ + spec_fixed_str(half) + " 0 0 0 "@ + spec_fixed_str(-half) + " "@
        + spec_fixed_str(-half)
}

/// The path data of a square with one corner rounded at the full side.
pub open spec fn spec_d_corner_extra_rounded(xr: int, yr: int, sz: int) -> Seq<char> {
    "M "@ + spec_fixed_str(xr) + " "@ + spec_fixed_str(yr) + " v "@ + spec_fixed_str(sz) + " h "@
        + spec_fixed_str(sz) + " a "@ + spec_fixed_str(sz) + " "@ + spec_fixed_str(sz)
        + " 0 0 0 "@ + spec_fixed_str(-sz) + " "@ + spec_fixed_str(-sz)
}

/// The path data of a square with both diagonal corners rounded.
pub open spec fn spec_d_corners_rounded(xr: int, yr: int, sz: int) -> Seq<char> {
    let half = sz / 2;
    "M "@ + spec_fixed_str(xr) + " "@ + spec_fixed_str(yr) + " v "@ + spec_fixed_str(half) + " a "@
        + spec_fixed_str(half) + " "@ + spec_fixed_str(half) + " 0 0 0 "@ + spec_fixed_str(half)
        + " "@ + spec_fixed_str(half) + " h "@ + spec_fixed_str(half) + " v "@ + spec_fixed_str(
        -half,
    ) + " a "@ + spec_fixed_str(half) + " "@ + spec_fixed_str(half) + " 0 0 0 "@ + spec_fixed_str(
        -half,
    ) + " "@ + spec_fixed_str(-half)
}

/// The path data of a circular ring one seventh of the side thick.
pub open spec fn spec_d_ring(xr: int, yr: int, sz: int) -> Seq<char> {
    let dot = sz / 7;
    let half = sz / 2;
    let inner = half - dot;
    "M "@ + spec_fixed_str(xr + half) + " "@ + spec_fixed_str(yr) + " a "@ + spec_fixed_str(half)
        + " "@ + spec_fixed_str(half) + " 0 1 0 0.1 0 z m 0 "@ + spec_fixed_str(dot) + " a "@
        + spec_fixed_str(inner) + " "@ + spec_fixed_str(inner) + " 0 1 1 -0.1 0 Z"@
}

/// The path data of a square ring one seventh of the side thick.
pub open spec fn spec_d_hollow_square(xr: int, yr: int, sz: int) -> Seq<char> {
    let dot = sz / 7;
    let side = sz - 2 * dot;
    "M "@ + spec_fixed_str(xr) + " "@ + spec_fixed_str(yr) + " v "@ + spec_fixed_str(sz) + " h "@
        + spec_fixed_str(sz) + " v "@ + spec_fixed_str(-sz) + " z M "@ + spec_fixed_str(xr + dot)
        + " "@ + spec_fixed_str(yr + dot) + " h "@ + spec_fixed_str(side) + " v "@
        + spec_fixed_str(side) + " h "@ + spec_fixed_str(-side) + " z"@
}

/// The path data of a rounded square ring one seventh of the side thick.
pub open spec fn spec_d_hollow_extra_rounded(xr: int, yr: int, sz: int) -> Seq<char> {
    let dot = sz / 7;
    let d2 = 2 * dot;
    let d25 = 5 * dot / 2;
    let d15 = 3 * dot / 2;
    "M "@ + spec_fixed_str(xr) + " "@ + spec_fixed_str(yr + d25) + " v "@ + spec_fixed_str(d2)
        + " a "@ + spec_fixed_str(d25) + " "@ + spec_fixed_str(d25) + " 0 0 0 "@ + spec_fixed_str(
        d25,
    ) + " "@ + spec_fixed_str(d25) + " h "@ + spec_fixed_str(d2) + " a "@ + spec_fixed_str(d25)
        + " "@ + spec_fixed_str(d25) + " 0 0 0 "@ + spec_fixed_str(d25) + " "@ + spec_fixed_str(
        -d25,
    ) + " v "@ + spec_fixed_str(-d2) + " a "@ + spec_fixed_str(d25) + " "@ + spec_fixed_str(d25)
        + " 0 0 0 "@ + spec_fixed_str(-d25) + " "@ + spec_fixed_str(-d25) + " h "@
        + spec_fixed_str(-d2) + " a "@ + spec_fixed_str(d25) + " "@ + spec_fixed_str(d25)
        + " 0 0 0 "@ + spec_fixed_str(-d25) + " "@ + spec_fixed_str(d25) + " M "@
        + spec_fixed_str(xr + d25) + " "@ + spec_fixed_str(yr + dot) + " h "@ + spec_fixed_str(d2)
        + " a "@ + spec_fixed_str(d15) + " "@ + spec_fixed_str(d15) + " 0 0 1 "@ + spec_fixed_str(
        d15,
    ) + " "@ + spec_fixed_str(d15) + " v "@ + spec_fixed_str(d2) + " a "@ + spec_fixed_str(d15)
        + " "@ + spec_fixed_str(d15) + " 0 0 1 "@ + spec_fixed_str(-d15) + " "@ + spec_fixed_str(
        d15,
    ) + " h "@ + spec_fixed_str(-d2) + " a "@ + spec_fixed_str(d15) + " "@ + spec_fixed_str(d15)
        + " 0 0 1 "@ + spec_fixed_str(-d15) + " "@ + spec_fixed_str(-d15) + " v "@
        + spec_fixed_str(-d2) + " a "@ + spec_fixed_str(d15) + " "@ + spec_fixed_str(d15)
        + " 0 0 1 "@ + spec_fixed_str(d15) + " "@ + spec_fixed_str(-d15)
}

/// The markup of one placed primitive.
pub open spec fn spec_placed_markup(p: Placed) -> Seq<char> {
    match p.shape {
        Shape::Circle { x, y, size } => {
            let cx = x.raw + size.raw as int / 2;
            let cy = y.raw + size.raw as int / 2;
            "<circle cx=\""@ + spec_fixed_str(cx) + "\" cy=\""@ + spec_fixed_str(cy) + "\" r=\""@
                + spec_fixed_str(size.raw as int / 2) + "\""@ + spec_rot_attr(p.turn, cx, cy)
                + "/>"@
        },
        Shape::Rect { x, y, w, h } => {
            let cx = x.raw + w.raw as int / 2;
            let cy = y.raw + h.raw as int / 2;
            "<rect x=\""@ + spec_fixed_str(x.raw as int) + "\" y=\""@ + spec_fixed_str(y.raw as int)
                + "\" width=\""@ + spec_fixed_str(w.raw as int) + "\" height=\""@
                + spec_fixed_str(h.raw as int) + "\""@ + spec_rot_attr(p.turn, cx, cy) + "/>"@
        },
        Shape::SideRounded { x, y, size } => spec_path_markup(
            spec_d_side_rounded(x.raw as int, y.raw as int, size.raw as int),
            false,
            p.turn,
            x.raw + size.raw as int / 2,
            y.raw + size.raw as int / 2,
        ),
        Shape::CornerRounded { x, y, size } => spec_path_markup(
            spec_d_corner_rounded(x.raw as int, y.raw as int, size.raw as int),
            false,
            p.turn,
            x.raw + size.raw as int / 2,
            y.raw + size.raw as int / 2,
        ),
        Shape::CornerExtraRounded { x, y, size } => spec_path_markup(
            spec_d_corner_extra_rounded(x.raw as int, y.raw as int, size.raw as int),
            false,
            p.turn,
            x.raw + size.raw as int / 2,
            y.raw + size.raw as int / 2,
        ),
        Shape::CornersRounded { x, y, size } => spec_path_markup(
            spec_d_corners_rounded(x.raw as int, y.raw as int, size.raw as int),
            false,
            p.turn,
            x.raw + size.raw as int / 2,
            y.raw + size.raw as int / 2,
        ),
        Shape::Ring { x, y, size } => spec_path_markup(
            spec_d_ring(x.raw as int, y.raw as int, size.raw as int),
            true,
            p.turn,
            x.raw + size.raw as int / 2,
            y.raw + size.raw as int / 2,
        ),
        Shape::HollowSquare { x, y, size } => spec_path_markup(
            spec_d_hollow_square(x.raw as int, y.raw as int, size.raw as int),
            true,
            p.turn,
            x.raw + size.raw as int / 2,
            y.raw + size.raw as int / 2,
        ),
        Shape::HollowExtraRounded { x, y, size } => spec_path_markup(
            spec_d_hollow_extra_rounded(x.raw as int, y.raw as int, size.raw as int),
            true,
            p.turn,
            x.raw + size.raw as int / 2,
            y.raw + size.raw as int / 2,
        ),
    }
}

/// The markup of a path element with optional even-odd rule and rotation.
pub open spec fn spec_path_markup(d: Seq<char>, even_odd: bool, turn: Turn, cx: int, cy: int)
    -> Seq<char> {
    "<path d=\""@ + d + "\""@ + (if even_odd {
        " clip-rule=\"evenodd\""@
    } else {
        Seq::<char>::empty()
    }) + spec_rot_attr(turn, cx, cy) + "/>"@
}

/// Appends the decimal text of a raw quantity.
fn push_fx(s: &mut String, raw: i64)
    ensures
        final(s)@ == old(s)@ + spec_fixed_str(raw as int),
{
    let t = fixed_str(Fixed { raw });
    s.append(t.as_str());
}

/// The rotation attribute of a placed primitive.
fn rot_attr(turn: Turn, cx: i64, cy: i64) -> (s: String)
    ensures
        s@ == spec_rot_attr(turn, cx as int, cy as int),
{
    if let Turn::T0 = turn {
        String::new()
    } else {
        let mut s = " transform=\"rotate(".to_owned();
        let d = dec_i64(turn.degrees());
        s.append(d.as_str());
        s.append(",");
        push_fx(&mut s, cx);
        s.append(",");
        push_fx(&mut s, cy);
        s.append(")\"");
        s
    }
}

/// The markup of one placed primitive.
pub fn placed_markup(p: &Placed) -> (s: String)
    requires
        placed_wf(*p),
    ensures
        s@ == spec_placed_markup(*p),
{
    match p.shape {
        Shape::Circle { x, y, size } => {
            let cx = x.raw + size.raw / 2;
            let cy = y.raw + size.raw / 2;
            let mut s = "<circle cx=\"".to_owned();
            push_fx(&mut s, cx);
            s.append("\" cy=\"");
            push_fx(&mut s, cy);
            s.append("\" r=\"");
            push_fx(&mut s, size.raw / 2);
            s.append("\"");
            let rot = rot_attr(p.turn, cx, cy);
            s.append(rot.as_str());
            s.append("/>");
            s
        },
        Shape::Rect { x, y, w, h } => {
            let cx = x.raw + w.raw / 2;
            let cy = y.raw + h.raw / 2;
            let mut s = "<rect x=\"".to_owned();
            push_fx(&mut s, x.raw);
            s.append("\" y=\"");
            push_fx(&mut s, y.raw);
            s.append("\" width=\"");
            push_fx(&mut s, w.raw);
            s.append("\" height=\"");
            push_fx(&mut s, h.raw);
            s.append("\"");
            let rot = rot_attr(p.turn, cx, cy);
            s.append(rot.as_str());
            s.append("/>");
            s
        },
        Shape::SideRounded { x, y, size } => {
            let d = d_side_rounded(x, y, size);
            path_markup(d, false, p.turn, x.raw + size.raw / 2, y.raw + size.raw / 2)
        },
        Shape::CornerRounded { x, y, size } => {
            let d = d_corner_rounded(x, y, size);
            path_markup(d, false, p.turn, x.raw + size.raw / 2, y.raw + size.raw / 2)
        },
        Shape::CornerExtraRounded { x, y, size } => {
            let d = d_corner_extra_rounded(x, y, size);
            path_markup(d, false, p.turn, x.raw + size.raw / 2, y.raw + size.raw / 2)
        },
        Shape::CornersRounded { x, y, size } => {
            let d = d_corners_rounded(x, y, size);
            path_markup(d, false, p.turn, x.raw + size.raw / 2, y.raw + size.raw / 2)
        },
        Shape::Ring { x, y, size } => {
            let d = d_ring(x, y, size);
            path_markup(d, true, p.turn, x.raw + size.raw / 2, y.raw + size.raw / 2)
        },
        Shape::HollowSquare { x, y, size } => {
            let d = d_hollow_square(x, y, size);
            path_markup(d, true, p.turn, x.raw + size.raw / 2, y.raw + size.raw / 2)
        },
        Shape::HollowExtraRounded { x, y, size } => {
            let d = d_hollow_extra_rounded(x, y, size);
            path_markup(d, true, p.turn, x.raw + size.raw / 2, y.raw + size.raw / 2)
        },
    }
}

fn path_markup(d: String, even_odd: bool, turn: Turn, cx: i64, cy: i64) -> (s: String)
    ensures
        s@ == spec_path_markup(d@, even_odd, turn, cx as int, cy as int),
{
    let mut s = "<path d=\"".to_owned();
    s.append(d.as_str());
    s.append("\"");
    if even_odd {
        s.append(" clip-rule=\"evenodd\"");
    }
    let rot = rot_attr(turn, cx, cy);
    s.append(rot.as_str());
    s.append("/>");
    s
}

fn d_side_rounded(x: Fixed, y: Fixed, size: Fixed) -> (s: String)
    requires
        coord_ok(x),
        coord_ok(y),
        size_ok(size),
    ensures
        s@ == spec_d_side_rounded(x.raw as int, y.raw as int, size.raw as int),
{
    let half = size.raw / 2;
    let mut s = "M ".to_owned();
    push_fx(&mut s, x.raw);
    s.append(" ");
    push_fx(&mut s, y.raw);
    s.append(" v ");
    push_fx(&mut s, size.raw);
    s.append(" h ");
    push_fx(&mut s, half);
    s.append(" a ");
    push_fx(&mut s, half);
    s.append(" ");
    push_fx(&mut s, half);
    s.append(" 0 0 0 0 ");
    push_fx(&mut s, -size.raw);
    s
}

fn d_corner_rounded(x: Fixed, y: Fixed, size: Fixed) -> (s: String)
    requires
        coord_ok(x),
        coord_ok(y),
        size_ok(size),
    ensures
        s@ == spec_d_corner_rounded(x.raw as int, y.raw as int, size.raw as int),
{
    let half = size.raw / 2;
    let mut s = "M ".to_owned();
    push_fx(&mut s, x.raw);
    s.append(" ");
    push_fx(&mut s, y.raw);
    s.append(" v ");
    push_fx(&mut s, size.raw);
    s.append(" h ");
    push_fx(&mut s, size.raw);
    s.append(" v ");
    push_fx(&mut s, -half);
    s.append(" a ");
    push_fx(&mut s, half);
    s.append(" ");
    push_fx(&mut s, half);
    s.append(" 0 0 0 ");
    push_fx(&mut s, -half);
    s.append(" ");
    push_fx(&mut s, -half);
    s
}

fn d_corner_extra_rounded(x: Fixed, y: Fixed, size: Fixed) -> (s: String)
    requires
        coord_ok(x),
        coord_ok(y),
        size_ok(size),
    ensures
        s@ == spec_d_corner_extra_rounded(x.raw as int, y.raw as int, size.raw as int),
{
    let mut s = "M ".to_owned();
    push_fx(&mut s, x.raw);
    s.append(" ");
    push_fx(&mut s, y.raw);
    s.append(" v ");
    push_fx(&mut s, size.raw);
    s.append(" h ");
    push_fx(&mut s, size.raw);
    s.append(" a ");
    push_fx(&mut s, size.raw);
    s.append(" ");
    push_fx(&mut s, size.raw);
    s.append(" 0 0 0 ");
    push_fx(&mut s, -size.raw);
    s.append(" ");
    push_fx(&mut s, -size.raw);
    s
}

fn d_corners_rounded(x: Fixed, y: Fixed, size: Fixed) -> (s: String)
    requires
        coord_ok(x),
        coord_ok(y),
        size_ok(size),
    ensures
        s@ == spec_d_corners_rounded(x.raw as int, y.raw as int, size.raw as int),
{
    let half = size.raw / 2;
    let mut s = "M ".to_owned();
    push_fx(&mut s, x.raw);
    s.append(" ");
    push_fx(&mut s, y.raw);
    s.append(" v ");
    push_fx(&mut s, half);
    s.append(" a ");
    push_fx(&mut s, half);
    s.append(" ");
    push_fx(&mut s, half);
    s.append(" 0 0 0 ");
    push_fx(&mut s, half);
    s.append(" ");
    push_fx(&mut s, half);
    s.append(" h ");
    push_fx(&mut s, half);
    s.append(" v ");
    push_fx(&mut s, -half);
    s.append(" a ");
    push_fx(&mut s, half);
    s.append(" ");
    push_fx(&mut s, half);
    s.append(" 0 0 0 ");
    push_fx(&mut s, -half);
    s.append(" ");
    push_fx(&mut s, -half);
    s
}

fn d_ring(x: Fixed, y: Fixed, size: Fixed) -> (s: String)
    requires
        coord_ok(x),
        coord_ok(y),
        size_ok(size),
    ensures
        s@ == spec_d_ring(x.raw as int, y.raw as int, size.raw as int),
{
    let dot = size.raw / 7;
    let half = size.raw / 2;
    let inner = half - dot;
    let mut s = "M ".to_owned();
    push_fx(&mut s, x.raw + half);
    s.append(" ");
    push_fx(&mut s, y.raw);
    s.append(" a ");
    push_fx(&mut s, half);
    s.append(" ");
    push_fx(&mut s, half);
    s.append(" 0 1 0 0.1 0 z m 0 ");
    push_fx(&mut s, dot);
    s.append(" a ");
    push_fx(&mut s, inner);
    s.append(" ");
    push_fx(&mut s, inner);
    s.append(" 0 1 1 -0.1 0 Z");
    s
}

fn d_hollow_square(x: Fixed, y: Fixed, size: Fixed) -> (s: String)
    requires
        coord_ok(x),
        coord_ok(y),
        size_ok(size),
    ensures
        s@ == spec_d_hollow_square(x.raw as int, y.raw as int, size.raw as int),
{
    let dot = size.raw / 7;
    let side = size.raw - 2 * dot;
    let mut s = "M ".to_owned();
    push_fx(&mut s, x.raw);
    s.append(" ");
    push_fx(&mut s, y.raw);
    s.append(" v ");
    push_fx(&mut s, size.raw);
    s.append(" h ");
    push_fx(&mut s, size.raw);
    s.append(" v ");
    push_fx(&mut s, -size.raw);
    s.append(" z M ");
    push_fx(&mut s, x.raw + dot);
    s.append(" ");
    push_fx(&mut s, y.raw + dot);
    s.append(" h ");
    push_fx(&mut s, side);
    s.append(" v ");
    push_fx(&mut s, side);
    s.append(" h ");
    push_fx(&mut s, -side);
    s.append(" z");
    s
}

fn d_hollow_extra_rounded(x: Fixed, y: Fixed, size: Fixed) -> (s: String)
    requires
        coord_ok(x),
        coord_ok(y),
        size_ok(size),
    ensures
        s@ == spec_d_hollow_extra_rounded(x.raw as int, y.raw as int, size.raw as int),
{
    let dot = size.raw / 7;
    let d2 = 2 * dot;
    let d25 = 5 * dot / 2;
    let d15 = 3 * dot / 2;
    let mut s = "M ".to_owned();
    push_fx(&mut s, x.raw);
    s.append(" ");
    push_fx(&mut s, y.raw + d25);
    s.append(" v ");
    push_fx(&mut s, d2);
    s.append(" a ");
    push_fx(&mut s, d25);
    s.append(" ");
    push_fx(&mut s, d25);
    s.append(" 0 0 0 ");
    push_fx(&mut s, d25);
    s.append(" ");
    push_fx(&mut s, d25);
    s.append(" h ");
    push_fx(&mut s, d2);
    s.append(" a ");
    push_fx(&mut s, d25);
    s.append(" ");
    push_fx(&mut s, d25);
    s.append(" 0 0 0 ");
    push_fx(&mut s, d25);
    s.append(" ");
    push_fx(&mut s, -d25);
    s.append(" v ");
    push_fx(&mut s, -d2);
    s.append(" a ");
    push_fx(&mut s, d25);
    s.append(" ");
    push_fx(&mut s, d25);
    s.append(" 0 0 0 ");
    push_fx(&mut s, -d25);
    s.append(" ");
    push_fx(&mut s, -d25);
    s.append(" h ");
    push_fx(&mut s, -d2);
    s.append(" a ");
    push_fx(&mut s, d25);
    s.append(" ");
    push_fx(&mut s, d25);
    s.append(" 0 0 0 ");
    push_fx(&mut s, -d25);
    s.append(" ");
    push_fx(&mut s, d25);
    s.append(" M ");
    push_fx(&mut s, x.raw + d25);
    s.append(" ");
    push_fx(&mut s, y.raw + dot);
    s.append(" h ");
    push_fx(&mut s, d2);
    s.append(" a ");
    push_fx(&mut s, d15);
    s.append(" ");
    push_fx(&mut s, d15);
    s.append(" 0 0 1 ");
    push_fx(&mut s, d15);
    s.append(" ");
    push_fx(&mut s, d15);
    s.append(" v ");
    push_fx(&mut s, d2);
    s.append(" a ");
    push_fx(&mut s, d15);
    s.append(" ");
    push_fx(&mut s, d15);
    s.append(" 0 0 1 ");
    push_fx(&mut s, -d15);
    s.append(" ");
    push_fx(&mut s, d15);
    s.append(" h ");
    push_fx(&mut s, -d2);
    s.append(" a ");
    push_fx(&mut s, d15);
    s.append(" ");
    push_fx(&mut s, d15);
    s.append(" 0 0 1 ");
    push_fx(&mut s, -d15);
    s.append(" ");
    push_fx(&mut s, -d15);
    s.append(" v ");
    push_fx(&mut s, -d2);
    s.append(" a ");
    push_fx(&mut s, d15);
    s.append(" ");
    push_fx(&mut s, d15);
    s.append(" 0 0 1 ");
    push_fx(&mut s, d15);
    s.append(" ");
    push_fx(&mut s, -d15);
    s
}


// ---------------------------------------------------------------------------
// The document model: named definitions, flat elements, and the root.

/// One entry of the document's definitions section.
#[derive(Clone, PartialEq, Eq, Debug)]
pub enum Def {
    /// A clip path holding a single rectangle with optional corner radius.
    ClipPathRect { id: String, x: Fixed, y: Fixed, w: Fixed, h: Fixed, rx: Fixed },
    /// A clip path holding one primitive per line.
    ClipPathShapes { id: String, shapes: Vec<Placed> },
    /// A clip path holding exactly one primitive.
    ClipPathShape { id: String, shape: Placed },
    /// A named linear gradient with absolute endpoints.
    LinearGradient { id: String, x1: Fixed, y1: Fixed, x2: Fixed, y2: Fixed, stops: Vec<ColorStop> },
    /// A named radial gradient about a center.
    RadialGradient { id: String, cx: Fixed, cy: Fixed, r: Fixed, stops: Vec<ColorStop> },
}

/// One element of the document body.
#[derive(Clone, PartialEq, Eq, Debug)]
pub enum Element {
    /// A filled rectangle, optionally masked by a named clip path.
    FillRect { x: Fixed, y: Fixed, w: Fixed, h: Fixed, fill: String, clip: Option<String> },
    /// An embedded image with pixel-unit sizes.
    Image { href: String, x: Fixed, y: Fixed, w: Fixed, h: Fixed },
}

/// A complete vector document: canvas size, definitions, and elements.
#[derive(Clone, PartialEq, Eq, Debug)]
pub struct SvgDocument {
    /// Canvas width in pixels.
    pub width: u32,
    /// Canvas height in pixels.
    pub height: u32,
    /// Whether module sizes were rounded to whole pixels; when they were,
    /// the root carries a crisp-edges rendering hint, which exact sizing
    /// disables.
    pub round_size: bool,
    /// The named definitions, in order.
    pub defs: Vec<Def>,
    /// The body elements, in order.
    pub elements: Vec<Element>,
}

/// The markup of one gradient stop.
pub open spec fn spec_stop_markup(s: ColorStop) -> Seq<char> {
    "<stop offset=\""@ + spec_dec(s.offset as int) + "%\" stop-color=\""@ + spec_to_hex(s.color)
        + "\"/>\n"@
}

/// The markup of a sequence of gradient stops.
pub open spec fn spec_stops_markup(stops: Seq<ColorStop>) -> Seq<char>
    decreases stops.len(),
{
    if stops.len() == 0 {
        Seq::<char>::empty()
    } else {
        spec_stops_markup(stops.drop_last()) + spec_stop_markup(stops.last())
    }
}

/// The markup of a sequence of primitives, one per line.
pub open spec fn spec_shapes_markup(shapes: Seq<Placed>) -> Seq<char>
    decreases shapes.len(),
{
    if shapes.len() == 0 {
        Seq::<char>::empty()
    } else {
        spec_shapes_markup(shapes.drop_last()) + spec_placed_markup(shapes.last()) + "\n"@
    }
}

/// The markup of one definition.
pub open spec fn spec_def_markup(d: Def) -> Seq<char> {
    match d {
        Def::ClipPathRect { id, x, y, w, h, rx } => "<clipPath id=\"clip-path-"@ + id@
            + "\"><rect x=\""@ + spec_fixed_str(x.raw as int) + "\" y=\""@ + spec_fixed_str(
            y.raw as int,
        ) + "\" width=\""@ + spec_fixed_str(w.raw as int) + "\" height=\""@ + spec_fixed_str(
            h.raw as int,
        ) + "\""@ + (if rx.raw > 0 {
            " rx=\""@ + spec_fixed_str(rx.raw as int) + "\""@
        } else {
            Seq::<char>::empty()
        }) + "/></clipPath>\n"@,
        Def::ClipPathShapes { id, shapes } => "<clipPath id=\"clip-path-"@ + id@ + "\">\n"@
            + spec_shapes_markup(shapes@) + "</clipPath>\n"@,
        Def::ClipPathShape { id, shape } => "<clipPath id=\"clip-path-"@ + id@ + "\">\n"@
            + spec_placed_markup(shape) + "</clipPath>\n"@,
        Def::LinearGradient { id, x1, y1, x2, y2, stops } => "<linearGradient id=\""@ + id@
            + "\" gradientUnits=\"userSpaceOnUse\" x1=\""@ + spec_fixed_str(x1.raw as int)
            + "\" y1=\""@ + spec_fixed_str(y1.raw as int) + "\" x2=\""@ + spec_fixed_str(
            x2.raw as int,
        ) + "\" y2=\""@ + spec_fixed_str(y2.raw as int) + "\">\n"@ + spec_stops_markup(stops@)
            + "</linearGradient>\n"@,
        Def::RadialGradient { id, cx, cy, r, stops } => "<radialGradient id=\""@ + id@
            + "\" gradientUnits=\"userSpaceOnUse\" fx=\""@ + spec_fixed_str(cx.raw as int)
            + "\" fy=\""@ + spec_fixed_str(cy.raw as int) + "\" cx=\""@ + spec_fixed_str(
            cx.raw as int,
        ) + "\" cy=\""@ + spec_fixed_str(cy.raw as int) + "\" r=\""@ + spec_fixed_str(r.raw as int)
            + "\">\n"@ + spec_stops_markup(stops@) + "</radialGradient>\n"@,
    }
}

/// The markup of one body element.
pub open spec fn spec_element_markup(e: Element) -> Seq<char> {
    match e {
        Element::FillRect { x, y, w, h, fill, clip } => "<rect x=\""@ + spec_fixed_str(x.raw as int)
            + "\" y=\""@ + spec_fixed_str(y.raw as int) + "\" width=\""@ + spec_fixed_str(
            w.raw as int,
        ) + "\" height=\""@ + spec_fixed_str(h.raw as int) + "\" fill=\""@ + fill@ + "\""@ + (match clip {
            Some(name) => " clip-path=\"url(#clip-path-"@ + name@ + ")\""@,
            None => Seq::<char>::empty(),
        }) + "/>\n"@,
        Element::Image { href, x, y, w, h } => "<image href=\""@ + href@ + "\" xlink:href=\""@
            + href@ + "\" x=\""@ + spec_fixed_str(x.raw as int) + "\" y=\""@ + spec_fixed_str(
            y.raw as int,
        ) + "\" width=\""@ + spec_fixed_str(w.raw as int) + "px\" height=\""@ + spec_fixed_str(
            h.raw as int,
        ) + "px\"/>\n"@,
    }
}

/// The markup of the definitions, in order.
pub open spec fn spec_defs_markup(defs: Seq<Def>) -> Seq<char>
    decreases defs.len(),
{
    if defs.len() == 0 {
        Seq::<char>::empty()
    } else {
        spec_defs_markup(defs.drop_last()) + spec_def_markup(defs.last())
    }
}

/// The markup of the body elements, in order.
pub open spec fn spec_elements_markup(elements: Seq<Element>) -> Seq<char>
    decreases elements.len(),
{
    if elements.len() == 0 {
        Seq::<char>::empty()
    } else {
        spec_elements_markup(elements.drop_last()) + spec_element_markup(elements.last())
    }
}

/// The markup of a whole document: the fixed header, one definitions
/// block, the elements in order, and the closing root tag.
pub open spec fn spec_document_markup(doc: SvgDocument) -> Seq<char> {
    "<?xml version=\"1.0\" encoding=\"UTF-8\"?>\n<svg xmlns=\"http://www.w3.org/2000/svg\" xmlns:xlink=\"http://www.w3.org/1999/xlink\" width=\""@
        + spec_dec(doc.width as int) + "\" height=\""@ + spec_dec(doc.height as int)
        + "\" viewBox=\"0 0 "@ + spec_dec(doc.width as int) + " "@ + spec_dec(doc.height as int)
        + "\""@ + (if doc.round_size {
        " shape-rendering=\"crispEdges\""@
    } else {
        Seq::<char>::empty()
    }) + ">\n<defs>\n"@ + spec_defs_markup(doc.defs@) + "\n</defs>\n"@ + spec_elements_markup(
        doc.elements@,
    ) + "\n</svg>"@
}

/// Whether a definition's numbers are within serializable range.
pub open spec fn def_wf(d: Def) -> bool {
    match d {
        Def::ClipPathRect { id, x, y, w, h, rx } => coord_ok(x) && coord_ok(y) && size_ok(w)
            && size_ok(h) && coord_ok(rx),
        Def::ClipPathShapes { id, shapes } => forall|i: int|
            0 <= i < shapes@.len() ==> placed_wf(#[trigger] shapes@[i]),
        Def::ClipPathShape { id, shape } => placed_wf(shape),
        Def::LinearGradient { id, x1, y1, x2, y2, stops } => coord_ok(x1) && coord_ok(y1)
            && coord_ok(x2) && coord_ok(y2),
        Def::RadialGradient { id, cx, cy, r, stops } => coord_ok(cx) && coord_ok(cy) && coord_ok(r),
    }
}

/// Whether an element's numbers are within serializable range.
pub open spec fn element_wf(e: Element) -> bool {
    match e {
        Element::FillRect { x, y, w, h, fill, clip } => coord_ok(x) && coord_ok(y) && size_ok(w)
            && size_ok(h),
        Element::Image { href, x, y, w, h } => coord_ok(x) && coord_ok(y) && coord_ok(w)
            && coord_ok(h),
    }
}

/// Whether every number a document holds is within serializable range.
pub open spec fn document_wf(doc: SvgDocument) -> bool {
    (forall|i: int| 0 <= i < doc.defs@.len() ==> def_wf(#[trigger] doc.defs@[i])) && (forall|i: int|
        0 <= i < doc.elements@.len() ==> element_wf(#[trigger] doc.elements@[i]))
}

fn stop_markup(s: &ColorStop) -> (r: String)
    ensures
        r@ == spec_stop_markup(*s),
{
    let mut out = "<stop offset=\"".to_owned();
    let d = dec_u64(s.offset as u64);
    out.append(d.as_str());
    out.append("%\" stop-color=\"");
    let h = s.color.to_hex();
    out.append(h.as_str());
    out.append("\"/>\n");
    out
}

fn stops_markup(stops: &Vec<ColorStop>) -> (r: String)
    ensures
        r@ == spec_stops_markup(stops@),
{
    let mut out = String::new();
    let n = stops.len();
    let mut i: usize = 0;
    while i < n
        invariant
            n == stops@.len(),
            0 <= i <= n,
            out@ == spec_stops_markup(stops@.subrange(0, i as int)),
        decreases n - i,
    {
        proof {
            assert(stops@.subrange(0, i as int + 1).drop_last() =~= stops@.subrange(0, i as int));
            assert(stops@.subrange(0, i as int + 1).last() == stops@[i as int]);
        }
        let piece = stop_markup(&stops[i]);
        out.append(piece.as_str());
        i += 1;
    }
    proof {
        assert(stops@.subrange(0, n as int) =~= stops@);
    }
    out
}

fn shapes_markup(shapes: &Vec<Placed>) -> (r: String)
    requires
        forall|i: int| 0 <= i < shapes@.len() ==> placed_wf(#[trigger] shapes@[i]),
    ensures
        r@ == spec_shapes_markup(shapes@),
{
    let mut out = String::new();
    let n = shapes.len();
    let mut i: usize = 0;
    while i < n
        invariant
            n == shapes@.len(),
            0 <= i <= n,
            forall|j: int| 0 <= j < shapes@.len() ==> placed_wf(#[trigger] shapes@[j]),
            out@ == spec_shapes_markup(shapes@.subrange(0, i as int)),
        decreases n - i,
    {
        proof {
            assert(shapes@.subrange(0, i as int + 1).drop_last() =~= shapes@.subrange(0, i as int));
            assert(shapes@.subrange(0, i as int + 1).last() == shapes@[i as int]);
        }
        let piece = placed_markup(&shapes[i]);
        out.append(piece.as_str());
        out.append("\n");
        i += 1;
    }
    proof {
        assert(shapes@.subrange(0, n as int) =~= shapes@);
    }
    out
}

fn def_markup(d: &Def) -> (r: String)
    requires
        def_wf(*d),
    ensures
        r@ == spec_def_markup(*d),
{
    match d {
        Def::ClipPathRect { id, x, y, w, h, rx } => {
            let mut out = "<clipPath id=\"clip-path-".to_owned();
            out.append(id.as_str());
            out.append("\"><rect x=\"");
            push_fx(&mut out, x.raw);
            out.append("\" y=\"");
            push_fx(&mut out, y.raw);
            out.append("\" width=\"");
            push_fx(&mut out, w.raw);
            out.append("\" height=\"");
            push_fx(&mut out, h.raw);
            out.append("\"");
            if rx.raw > 0 {
                out.append(" rx=\"");
                push_fx(&mut out, rx.raw);
                out.append("\"");
            }
            out.append("/></clipPath>\n");
            out
        },
        Def::ClipPathShapes { id, shapes } => {
            let mut out = "<clipPath id=\"clip-path-".to_owned();
            out.append(id.as_str());
            out.append("\">\n");
            let body = shapes_markup(shapes);
            out.append(body.as_str());
            out.append("</clipPath>\n");
            out
        },
        Def::ClipPathShape { id, shape } => {
            let mut out = "<clipPath id=\"clip-path-".to_owned();
            out.append(id.as_str());
            out.append("\">\n");
            let body = placed_markup(shape);
            out.append(body.as_str());
            out.append("</clipPath>\n");
            out
        },
        Def::LinearGradient { id, x1, y1, x2, y2, stops } => {
            let mut out = "<linearGradient id=\"".to_owned();
            out.append(id.as_str());
            out.append("\" gradientUnits=\"userSpaceOnUse\" x1=\"");
            push_fx(&mut out, x1.raw);
            out.append("\" y1=\"");
            push_fx(&mut out, y1.raw);
            out.append("\" x2=\"");
            push_fx(&mut out, x2.raw);
            out.append("\" y2=\"");
            push_fx(&mut out, y2.raw);
            out.append("\">\n");
            let body = stops_markup(stops);
            out.append(body.as_str());
            out.append("</linearGradient>\n");
            out
        },
        Def::RadialGradient { id, cx, cy, r, stops } => {
            let mut out = "<radialGradient id=\"".to_owned();
            out.append(id.as_str());
            out.append("\" gradientUnits=\"userSpaceOnUse\" fx=\"");
            push_fx(&mut out, cx.raw);
            out.append("\" fy=\"");
            push_fx(&mut out, cy.raw);
            out.append("\" cx=\"");
            push_fx(&mut out, cx.raw);
            out.append("\" cy=\"");
            push_fx(&mut out, cy.raw);
            out.append("\" r=\"");
            push_fx(&mut out, r.raw);
            out.append("\">\n");
            let body = stops_markup(stops);
            out.append(body.as_str());
            out.append("</radialGradient>\n");
            out
        },
    }
}

fn element_markup(e: &Element) -> (r: String)
    requires
        element_wf(*e),
    ensures
        r@ == spec_element_markup(*e),
{
    match e {
        Element::FillRect { x, y, w, h, fill, clip } => {
            let mut out = "<rect x=\"".to_owned();
            push_fx(&mut out, x.raw);
            out.append("\" y=\"");
            push_fx(&mut out, y.raw);
            out.append("\" width=\"");
            push_fx(&mut out, w.raw);
            out.append("\" height=\"");
            push_fx(&mut out, h.raw);
            out.append("\" fill=\"");
            out.append(fill.as_str());
            out.append("\"");
            match clip {
                Some(name) => {
                    out.append(" clip-path=\"url(#clip-path-");
                    out.append(name.as_str());
                    out.append(")\"");
                },
                None => {},
            }
            out.append("/>\n");
            out
        },
        Element::Image { href, x, y, w, h } => {
            let mut out = "<image href=\"".to_owned();
            out.append(href.as_str());
            out.append("\" xlink:href=\"");
            out.append(href.as_str());
            out.append("\" x=\"");
            push_fx(&mut out, x.raw);
            out.append("\" y=\"");
            push_fx(&mut out, y.raw);
            out.append("\" width=\"");
            push_fx(&mut out, w.raw);
            out.append("px\" height=\"");
            push_fx(&mut out, h.raw);
            out.append("px\"/>\n");
            out
        },
    }
}

/// The markup of a whole document.
pub fn document_markup(doc: &SvgDocument) -> (r: String)
    requires
        document_wf(*doc),
    ensures
        r@ == spec_document_markup(*doc),
{
    let mut out =
        "<?xml version=\"1.0\" encoding=\"UTF-8\"?>\n<svg xmlns=\"http://www.w3.org/2000/svg\" xmlns:xlink=\"http://www.w3.org/1999/xlink\" width=\"".to_owned();
    let dw = dec_u32(doc.width);
    out.append(dw.as_str());
    out.append("\" height=\"");
    let dh = dec_u32(doc.height);
    out.append(dh.as_str());
    out.append("\" viewBox=\"0 0 ");
    out.append(dw.as_str());
    out.append(" ");
    out.append(dh.as_str());
    out.append("\"");
    if doc.round_size {
        out.append(" shape-rendering=\"crispEdges\"");
    }
    out.append(">\n<defs>\n");
    let n = doc.defs.len();
    let mut i: usize = 0;
    while i < n
        invariant
            n == doc.defs@.len(),
            0 <= i <= n,
            document_wf(*doc),
            out@ == spec_document_header(*doc) + spec_defs_markup(doc.defs@.subrange(0, i as int)),
        decreases n - i,
    {
        proof {
            assert(doc.defs@.subrange(0, i as int + 1).drop_last() =~= doc.defs@.subrange(
                0,
                i as int,
            ));
            assert(doc.defs@.subrange(0, i as int + 1).last() == doc.defs@[i as int]);
        }
        let piece = def_markup(&doc.defs[i]);
        out.append(piece.as_str());
        i += 1;
    }
    proof {
        assert(doc.defs@.subrange(0, n as int) =~= doc.defs@);
    }
    out.append("\n</defs>\n");
    let m = doc.elements.len();
    let mut j: usize = 0;
    while j < m
        invariant
            m == doc.elements@.len(),
            0 <= j <= m,
            document_wf(*doc),
            out@ == spec_document_header(*doc) + spec_defs_markup(doc.defs@) + "\n</defs>\n"@
                + spec_elements_markup(doc.elements@.subrange(0, j as int)),
        decreases m - j,
    {
        proof {
            assert(doc.elements@.subrange(0, j as int + 1).drop_last() =~= doc.elements@.subrange(
                0,
                j as int,
            ));
            assert(doc.elements@.subrange(0, j as int + 1).last() == doc.elements@[j as int]);
        }
        let piece = element_markup(&doc.elements[j]);
        out.append(piece.as_str());
        j += 1;
    }
    proof {
        assert(doc.elements@.subrange(0, m as int) =~= doc.elements@);
    }
    out.append("\n</svg>");
    proof {
        assert(out@ =~= spec_document_markup(*doc));
    }
    out
}

/// The fixed front of a document's markup, through the opening of the
/// definitions block.
pub open spec fn spec_document_header(doc: SvgDocument) -> Seq<char> {
    "<?xml version=\"1.0\" encoding=\"UTF-8\"?>\n<svg xmlns=\"http://www.w3.org/2000/svg\" xmlns:xlink=\"http://www.w3.org/1999/xlink\" width=\""@
        + spec_dec(doc.width as int) + "\" height=\""@ + spec_dec(doc.height as int)
        + "\" viewBox=\"0 0 "@ + spec_dec(doc.width as int) + " "@ + spec_dec(doc.height as int)
        + "\""@ + (if doc.round_size {
        " shape-rendering=\"crispEdges\""@
    } else {
        Seq::<char>::empty()
    }) + ">\n<defs>\n"@
}

/// A path element assembled from raw attribute text: its data, an
/// optional clip rule, and an optional transform.
pub fn svg_path(d: &str, clip_rule: Option<&str>, transform: Option<&str>) -> (s: String)
    ensures
        s@ == "<path d=\""@ + d@ + "\""@ + (match clip_rule {
            Some(r) => " clip-rule=\""@ + r@ + "\""@,
            None => Seq::<char>::empty(),
        }) + (match transform {
            Some(t) => " transform=\""@ + t@ + "\""@,
            None => Seq::<char>::empty(),
        }) + "/>"@,
{
    let mut s = "<path d=\"".to_owned();
    s.append(d);
    s.append("\"");
    match clip_rule {
        Some(r) => {
            s.append(" clip-rule=\"");
            s.append(r);
            s.append("\"");
        },
        None => {},
    }
    match transform {
        Some(t) => {
            s.append(" transform=\"");
            s.append(t);
            s.append("\"");
        },
        None => {},
    }
    s.append("/>");
    s
}

} // verus!
