//! The border decorator: overlays frame rectangles and positional text or
//! image decorations on existing markup by text-level insertion.

use vstd::prelude::*;
use vstd::string::StrSliceExecFns;
use vstd::string::StringExecFns;
use crate::fixed::{Fixed, SCALE};
use crate::num_fmt::{fixed_str, spec_fixed_str};

verus! {

/// One of the four sides a decoration can sit on.
#[derive(Clone, Copy, PartialEq, Eq, Structural, Debug)]
pub enum Position {
    Top,
    Bottom,
    Left,
    Right,
}

/// What a decoration shows: text, or an image reference.
#[derive(Clone, PartialEq, Eq, Debug)]
pub enum DecorationType {
    /// Text content.
    Text(String),
    /// An image source: a URL or data URI.
    Image(String),
}

/// Style options for one frame rectangle.
#[derive(Clone, PartialEq, Eq, Debug)]
pub struct BorderOptions {
    /// Stroke thickness in pixels.
    pub thickness: u32,
    /// Stroke color text, such as a hexadecimal color.
    pub color: String,
    /// Optional dash pattern, such as `5,5`.
    pub dasharray: Option<String>,
}

impl Default for BorderOptions {
    fn default() -> (r: Self)
        ensures
            r.thickness == 10,
            r.color@ == "#000000"@,
            r.dasharray is None,
    {
        BorderOptions { thickness: 10, color: "#000000".to_owned(), dasharray: None }
    }
}

impl BorderOptions {
    /// Options with the given thickness and color.
    pub fn new(thickness: u32, color: String) -> (r: Self)
        ensures
            r.thickness == thickness,
            r.color@ == color@,
            r.dasharray is None,
    {
        BorderOptions { thickness, color, dasharray: None }
    }

    /// The same options with a dash pattern.
    pub fn with_dasharray(self, dasharray: String) -> (r: Self)
        ensures
            r.thickness == self.thickness,
            r.color@ == self.color@,
            r.dasharray matches Some(d) && d@ == dasharray@,
    {
        BorderOptions { dasharray: Some(dasharray), ..self }
    }
}

/// A decoration and its optional style text.
#[derive(Clone, PartialEq, Eq, Debug)]
pub struct BorderDecoration {
    /// What the decoration shows.
    pub decoration_type: DecorationType,
    /// An optional style attribute value.
    pub style: Option<String>,
}

impl BorderDecoration {
    /// A text decoration.
    pub fn text(value: String) -> (r: Self)
        ensures
            r.decoration_type matches DecorationType::Text(t) && t@ == value@,
            r.style is None,
    {
        BorderDecoration { decoration_type: DecorationType::Text(value), style: None }
    }

    /// An image decoration.
    pub fn image(value: String) -> (r: Self)
        ensures
            r.decoration_type matches DecorationType::Image(t) && t@ == value@,
            r.style is None,
    {
        BorderDecoration { decoration_type: DecorationType::Image(value), style: None }
    }

    /// The same decoration with a style attribute.
    pub fn with_style(self, style: String) -> (r: Self)
        ensures
            r.decoration_type == self.decoration_type,
            r.style matches Some(s) && s@ == style@,
    {
        BorderDecoration { style: Some(style), ..self }
    }
}

/// The decorations of the four sides.
#[derive(Clone, PartialEq, Eq, Debug)]
pub struct DecorationMap {
    pub top: Option<BorderDecoration>,
    pub bottom: Option<BorderDecoration>,
    pub left: Option<BorderDecoration>,
    pub right: Option<BorderDecoration>,
}

impl DecorationMap {
    /// No decoration on any side.
    pub fn empty() -> (r: Self)
        ensures
            r.top is None && r.bottom is None && r.left is None && r.right is None,
    {
        DecorationMap { top: None, bottom: None, left: None, right: None }
    }
}

/// The whole border configuration: frames, roundness, and decorations.
#[derive(Clone, PartialEq, Eq, Debug)]
pub struct QRBorderOptions {
    /// The main frame.
    pub border: BorderOptions,
    /// Corner roundness in percent of the half side, `0..=100`; values of
    /// fifty and above lay text out on a circular arc.
    pub round: u8,
    /// An optional frame drawn inside the main one.
    pub border_inner: Option<BorderOptions>,
    /// An optional frame drawn outside the main one.
    pub border_outer: Option<BorderOptions>,
    /// The decorations of the four sides.
    pub decorations: DecorationMap,
}

impl Default for QRBorderOptions {
    fn default() -> (r: Self)
        ensures
            r.border.thickness == 10,
            r.round == 0,
            r.border_inner is None,
            r.border_outer is None,
    {
        QRBorderOptions {
            border: BorderOptions::default(),
            round: 0,
            border_inner: None,
            border_outer: None,
            decorations: DecorationMap::empty(),
        }
    }
}

impl QRBorderOptions {
    /// Options with the given main-frame thickness and color.
    pub fn new(thickness: u32, color: String) -> (r: Self)
        ensures
            r.border.thickness == thickness,
            r.border.color@ == color@,
            r.round == 0,
            r.border_inner is None,
            r.border_outer is None,
    {
        QRBorderOptions {
            border: BorderOptions::new(thickness, color),
            round: 0,
            border_inner: None,
            border_outer: None,
            decorations: DecorationMap::empty(),
        }
    }

    /// The same options with corner roundness in percent, clamped.
    pub fn with_round(self, round: u8) -> (r: Self)
        ensures
            r.border == self.border,
            r.border_inner == self.border_inner,
            r.border_outer == self.border_outer,
            r.decorations == self.decorations,
            r.round == if round > 100 {
                100int
            } else {
                round as int
            },
    {
        QRBorderOptions { round: if round > 100 { 100 } else { round }, ..self }
    }

    /// The same options with an inner frame.
    pub fn with_inner_border(self, options: BorderOptions) -> (r: Self)
        ensures
            r.border == self.border,
            r.round == self.round,
            r.border_inner matches Some(b) && b == options,
            r.border_outer == self.border_outer,
            r.decorations == self.decorations,
    {
        QRBorderOptions { border_inner: Some(options), ..self }
    }

    /// The same options with an outer frame.
    pub fn with_outer_border(self, options: BorderOptions) -> (r: Self)
        ensures
            r.border == self.border,
            r.round == self.round,
            r.border_inner == self.border_inner,
            r.border_outer matches Some(b) && b == options,
            r.decorations == self.decorations,
    {
        QRBorderOptions { border_outer: Some(options), ..self }
    }

    /// The decoration on one side, if any.
    pub fn decoration_at(&self, position: Position) -> (r: &Option<BorderDecoration>)
        ensures
            *r == spec_decoration_at(self.decorations, position),
    {
        match position {
            Position::Top => &self.decorations.top,
            Position::Bottom => &self.decorations.bottom,
            Position::Left => &self.decorations.left,
            Position::Right => &self.decorations.right,
        }
    }

    /// The same options with a decoration on one side.
    pub fn with_decoration(self, position: Position, decoration: BorderDecoration) -> (r: Self)
        ensures
            r.border == self.border,
            r.round == self.round,
            r.border_inner == self.border_inner,
            r.border_outer == self.border_outer,
            spec_decoration_at(r.decorations, position) matches Some(d) && d == decoration,
    {
        let d = self.decorations;
        let decorations = match position {
            Position::Top => DecorationMap { top: Some(decoration), ..d },
            Position::Bottom => DecorationMap { bottom: Some(decoration), ..d },
            Position::Left => DecorationMap { left: Some(decoration), ..d },
            Position::Right => DecorationMap { right: Some(decoration), ..d },
        };
        QRBorderOptions { decorations, ..self }
    }

    /// The same options with a text decoration on one side.
    pub fn with_text(self, position: Position, text: String) -> (r: Self)
        ensures
            r.border == self.border,
            r.round == self.round,
            spec_decoration_at(r.decorations, position) matches Some(d) && (d.decoration_type
                matches DecorationType::Text(t) && t@ == text@) && d.style is None,
    {
        self.with_decoration(position, BorderDecoration::text(text))
    }

    /// The same options with a styled text decoration on one side.
    pub fn with_styled_text(self, position: Position, text: String, style: String) -> (r: Self)
        ensures
            r.border == self.border,
            r.round == self.round,
            spec_decoration_at(r.decorations, position) matches Some(d) && (d.decoration_type
                matches DecorationType::Text(t) && t@ == text@) && (d.style matches Some(st) && st@
                == style@),
    {
        let dec = BorderDecoration::text(text).with_style(style);
        self.with_decoration(position, dec)
    }
}

/// The decoration a map holds on one side.
pub open spec fn spec_decoration_at(d: DecorationMap, position: Position) -> Option<
    BorderDecoration,
> {
    match position {
        Position::Top => d.top,
        Position::Bottom => d.bottom,
        Position::Left => d.left,
        Position::Right => d.right,
    }
}

/// Whether the pattern occurs in the text at position `i`.
pub open spec fn match_at(s: Seq<char>, pat: Seq<char>, i: int) -> bool {
    0 <= i && i + pat.len() <= s.len() && s.subrange(i, i + pat.len()) == pat
}

/// Whether `i` is the first occurrence of the pattern.
pub open spec fn is_first_match(s: Seq<char>, pat: Seq<char>, i: int) -> bool {
    match_at(s, pat, i) && forall|j: int| 0 <= j < i ==> !match_at(s, pat, j)
}

/// Whether `i` is the last occurrence of the pattern.
pub open spec fn is_last_match(s: Seq<char>, pat: Seq<char>, i: int) -> bool {
    match_at(s, pat, i) && forall|j: int| j > i ==> !match_at(s, pat, j)
}

fn matches_at(v: &Vec<char>, pat: &Vec<char>, i: usize) -> (b: bool)
    requires
        i + pat@.len() <= v@.len(),
    ensures
        b == match_at(v@, pat@, i as int),
{
    let n = v.len();
    let m = pat.len();
    let mut j: usize = 0;
    while j < m
        invariant
            n == v@.len(),
            m == pat@.len(),
            i + m <= n,
            0 <= j <= m,
            forall|k: int| 0 <= k < j ==> v@[i + k] == pat@[k],
        decreases m - j,
    {
        if v[i + j] != pat[j] {
            proof {
                assert(v@.subrange(i as int, i as int + m as int)[j as int] != pat@[j as int]);
            }
            return false;
        }
        j += 1;
    }
    proof {
        assert(v@.subrange(i as int, i as int + m as int) =~= pat@);
    }
    true
}

fn find_first(v: &Vec<char>, pat: &Vec<char>) -> (r: Option<usize>)
    requires
        pat@.len() >= 1,
    ensures
        r matches Some(i) ==> is_first_match(v@, pat@, i as int),
        r is None ==> forall|j: int| !match_at(v@, pat@, j),
{
    let n = v.len();
    let m = pat.len();
    if m > n {
        return None;
    }
    let mut i: usize = 0;
    while i <= n - m
        invariant
            n == v@.len(),
            m == pat@.len(),
            1 <= m <= n,
            0 <= i <= n - m + 1,
            forall|j: int| 0 <= j < i ==> !match_at(v@, pat@, j),
        decreases n - i,
    {
        if matches_at(v, pat, i) {
            return Some(i);
        }
        i += 1;
    }
    None
}

fn find_last(v: &Vec<char>, pat: &Vec<char>) -> (r: Option<usize>)
    requires
        pat@.len() >= 1,
    ensures
        r matches Some(i) ==> is_last_match(v@, pat@, i as int),
        r is None ==> forall|j: int| !match_at(v@, pat@, j),
{
    let n = v.len();
    let m = pat.len();
    if m > n {
        return None;
    }
    let mut i: usize = n - m + 1;
    while i > 0
        invariant
            n == v@.len(),
            m == pat@.len(),
            1 <= m <= n,
            0 <= i <= n - m + 1,
            forall|j: int| j >= i ==> !match_at(v@, pat@, j),
        decreases i,
    {
        i -= 1;
        if matches_at(v, pat, i) {
            return Some(i);
        }
    }
    None
}

fn str_chars(s: &str) -> (v: Vec<char>)
    ensures
        v@ == s@,
{
    let n = s.unicode_len();
    let mut v: Vec<char> = Vec::new();
    let mut i: usize = 0;
    while i < n
        invariant
            n == s@.len(),
            0 <= i <= n,
            v@ == s@.subrange(0, i as int),
        decreases n - i,
    {
        v.push(s.get_char(i));
        proof {
            assert(v@ =~= s@.subrange(0, i as int + 1));
        }
        i += 1;
    }
    proof {
        assert(s@.subrange(0, n as int) =~= s@);
    }
    v
}

/// Whether a character counts as trailing whitespace.
pub open spec fn is_space_char(c: char) -> bool {
    c == ' ' || c == '\n' || c == '\t' || c == '\r'
}

/// The text with trailing whitespace removed.
pub open spec fn spec_trim_end(s: Seq<char>) -> Seq<char>
    decreases s.len(),
{
    if s.len() > 0 && is_space_char(s.last()) {
        spec_trim_end(s.drop_last())
    } else {
        s
    }
}

/// The smaller canvas dimension, in raw units.
pub open spec fn spec_size_raw(w: int, h: int) -> int {
    (if w <= h {
        w
    } else {
        h
    }) * SCALE
}

/// The raw left or top offset of a frame with the given thickness.
pub open spec fn spec_frame_xy(w: int, h: int, side: int, th: int) -> int {
    (side * SCALE - spec_size_raw(w, h) + th * SCALE) / 2
}

/// The raw corner radius of a frame: the rounded half side less half the
/// stroke, and never negative.
pub open spec fn spec_frame_rx(round: int, w: int, h: int, th: int) -> int {
    let v = (spec_size_raw(w, h) / 2) * round / 100 - th * SCALE / 2;
    if v < 0 {
        0
    } else {
        v
    }
}

/// The markup of one frame rectangle.
pub open spec fn spec_rect_markup(
    x: int,
    y: int,
    wd: int,
    ht: int,
    color: Seq<char>,
    th: int,
    dash: Option<String>,
    rx: int,
) -> Seq<char> {
    "<rect fill=\"none\" x=\""@ + spec_fixed_str(x) + "\" y=\""@ + spec_fixed_str(y)
        + "\" width=\""@ + spec_fixed_str(wd) + "\" height=\""@ + spec_fixed_str(ht)
        + "\" stroke=\""@ + color + "\" stroke-width=\""@ + spec_fixed_str(th) + "\""@ + (match dash {
        Some(d) => if d@.len() > 0 {
            " stroke-dasharray=\""@ + d@ + "\""@
        } else {
            Seq::<char>::empty()
        },
        None => Seq::<char>::empty(),
    }) + " rx=\""@ + spec_fixed_str(rx) + "\"/>\n"@
}

/// The markup of the main frame.
pub open spec fn spec_main_rect(o: QRBorderOptions, w: int, h: int) -> Seq<char> {
    let th = o.border.thickness as int;
    spec_rect_markup(
        spec_frame_xy(w, h, w, th),
        spec_frame_xy(w, h, h, th),
        spec_size_raw(w, h) - th * SCALE,
        spec_size_raw(w, h) - th * SCALE,
        o.border.color@,
        th * SCALE,
        o.border.dasharray,
        spec_frame_rx(o.round as int, w, h, th),
    )
}

/// The markup of the inner frame, moved and grown by the thickness delta.
pub open spec fn spec_inner_rect(o: QRBorderOptions, inner: BorderOptions, w: int, h: int) -> Seq<
    char,
> {
    let ti = inner.thickness as int;
    let tm = o.border.thickness as int;
    let rx0 = spec_frame_rx(o.round as int, w, h, ti) + ti * SCALE - tm * SCALE;
    spec_rect_markup(
        spec_frame_xy(w, h, w, ti) - ti * SCALE + tm * SCALE,
        spec_frame_xy(w, h, h, ti) - ti * SCALE + tm * SCALE,
        spec_size_raw(w, h) - ti * SCALE + 2 * (ti * SCALE - tm * SCALE),
        spec_size_raw(w, h) - ti * SCALE + 2 * (ti * SCALE - tm * SCALE),
        inner.color@,
        ti * SCALE,
        inner.dasharray,
        if rx0 < 0 {
            0
        } else {
            rx0
        },
    )
}

/// The markup of the outer frame.
pub open spec fn spec_outer_rect(o: QRBorderOptions, outer: BorderOptions, w: int, h: int) -> Seq<
    char,
> {
    let t = outer.thickness as int;
    spec_rect_markup(
        spec_frame_xy(w, h, w, t),
        spec_frame_xy(w, h, h, t),
        spec_size_raw(w, h) - t * SCALE,
        spec_size_raw(w, h) - t * SCALE,
        outer.color@,
        t * SCALE,
        outer.dasharray,
        spec_frame_rx(o.round as int, w, h, t),
    )
}

/// The identifier of the arc path a curved text on one side follows.
pub open spec fn spec_path_id(p: Position) -> Seq<char> {
    match p {
        Position::Top => "top-text-path"@,
        Position::Bottom => "bottom-text-path"@,
        Position::Left => "left-text-path"@,
        Position::Right => "right-text-path"@,
    }
}

/// The style text a decoration uses: its own, or a default font.
pub open spec fn spec_style_of(d: BorderDecoration) -> Seq<char> {
    match d.style {
        Some(s) => s@,
        None => "font-size: 14px; font-family: Arial, sans-serif;"@,
    }
}

/// The arc path data a curved text on one side follows: a half circle on
/// the frame's stroke center.
pub open spec fn spec_arc_d(p: Position, w: int, h: int, r: int) -> Seq<char> {
    let cx = w * SCALE / 2;
    let cy = h * SCALE / 2;
    match p {
        Position::Top => "M "@ + spec_fixed_str(cx - r) + ","@ + spec_fixed_str(cy) + " A "@
            + spec_fixed_str(r) + ","@ + spec_fixed_str(r) + " 0 0 1 "@ + spec_fixed_str(cx + r)
            + ","@ + spec_fixed_str(cy),
        Position::Bottom => "M "@ + spec_fixed_str(cx - r) + ","@ + spec_fixed_str(cy) + " A "@
            + spec_fixed_str(r) + ","@ + spec_fixed_str(r) + " 0 0 0 "@ + spec_fixed_str(cx + r)
            + ","@ + spec_fixed_str(cy),
        Position::Left => "M "@ + spec_fixed_str(cx) + ","@ + spec_fixed_str(cy - r) + " A "@
            + spec_fixed_str(r) + ","@ + spec_fixed_str(r) + " 0 0 0 "@ + spec_fixed_str(cx) + ","@
            + spec_fixed_str(cy + r),
        Position::Right => "M "@ + spec_fixed_str(cx) + ","@ + spec_fixed_str(cy - r) + " A "@
            + spec_fixed_str(r) + ","@ + spec_fixed_str(r) + " 0 0 1 "@ + spec_fixed_str(cx) + ","@
            + spec_fixed_str(cy + r),
    }
}

/// The definitions and element of a curved text decoration: an arc path
/// and a text anchored to its middle.
pub open spec fn spec_curved_text(p: Position, text: Seq<char>, style: Seq<char>, w: int, h: int, r: int) -> (
    Seq<char>,
    Seq<char>,
) {
    (
        "<path id=\""@ + spec_path_id(p) + "\" d=\""@ + spec_arc_d(p, w, h, r)
            + "\" fill=\"none\"/>\n"@,
        "<text style=\""@ + style + "\">\n  <textPath xlink:href=\"#"@ + spec_path_id(p)
            + "\" href=\"#"@ + spec_path_id(p)
            + "\" startOffset=\"50%\" text-anchor=\"middle\" dominant-baseline=\"central\">"@ + text
            + "</textPath>\n</text>\n"@,
    )
}

/// The element of a straight text decoration: centered text offset past
/// the frame, turned upright on the left and right sides.
pub open spec fn spec_straight_text(
    p: Position,
    text: Seq<char>,
    style: Seq<char>,
    w: int,
    h: int,
    th: int,
) -> Seq<char> {
    let cx = w * SCALE / 2;
    let cy = h * SCALE / 2;
    let off = th * SCALE / 2;
    let half = (spec_size_raw(w, h) - th * SCALE) / 2;
    let x = match p {
        Position::Top => cx,
        Position::Bottom => cx,
        Position::Left => cx - half - off,
        Position::Right => cx + half + off,
    };
    let y = match p {
        Position::Top => cy - half - off,
        Position::Bottom => cy + half + off,
        Position::Left => cy,
        Position::Right => cy,
    };
    let rot: Seq<char> = match p {
        Position::Top => Seq::<char>::empty(),
        Position::Bottom => Seq::<char>::empty(),
        Position::Left => " transform=\"rotate(-90,"@ + spec_fixed_str(x) + ","@ + spec_fixed_str(
            y,
        ) + ")\""@,
        Position::Right => " transform=\"rotate(90,"@ + spec_fixed_str(x) + ","@ + spec_fixed_str(
            y,
        ) + ")\""@,
    };
    "<text x=\""@ + spec_fixed_str(x) + "\" y=\""@ + spec_fixed_str(y)
        + "\" text-anchor=\"middle\" dominant-baseline=\"middle\" style=\""@ + style + "\""@ + rot
        + ">"@ + text + "</text>\n"@
}

/// The element of an image decoration, offset from the frame's edge.
pub open spec fn spec_image_decoration(
    p: Position,
    src: Seq<char>,
    style: Option<String>,
    w: int,
    h: int,
    th: int,
) -> Seq<char> {
    let bx = (w * SCALE - spec_size_raw(w, h) + th * SCALE) / 2;
    let by = (h * SCALE - spec_size_raw(w, h) + th * SCALE) / 2;
    let span = spec_size_raw(w, h) - th * SCALE;
    let x = match p {
        Position::Top => bx + span / 2,
        Position::Bottom => bx + span / 2,
        Position::Left => bx,
        Position::Right => bx + span,
    };
    let y = match p {
        Position::Top => by,
        Position::Bottom => by + span,
        Position::Left => by + span / 2,
        Position::Right => by + span / 2,
    };
    "<image href=\""@ + src + "\" xlink:href=\""@ + src + "\" x=\""@ + spec_fixed_str(x)
        + "\" y=\""@ + spec_fixed_str(y) + "\""@ + (match style {
        Some(st) => " style=\""@ + st@ + "\""@,
        None => Seq::<char>::empty(),
    }) + "/>"@
}

/// The definitions and elements one side's decoration contributes.
pub open spec fn spec_decoration_pieces(o: QRBorderOptions, p: Position, w: int, h: int) -> (
    Seq<char>,
    Seq<char>,
) {
    match spec_decoration_at(o.decorations, p) {
        None => (Seq::<char>::empty(), Seq::<char>::empty()),
        Some(d) => match d.decoration_type {
            DecorationType::Text(t) => {
                if o.round >= 50 {
                    spec_curved_text(
                        p,
                        t@,
                        spec_style_of(d),
                        w,
                        h,
                        (spec_size_raw(w, h) - o.border.thickness * SCALE) / 2,
                    )
                } else {
                    (
                        Seq::<char>::empty(),
                        spec_straight_text(
                            p,
                            t@,
                            spec_style_of(d),
                            w,
                            h,
                            o.border.thickness as int,
                        ),
                    )
                }
            },
            DecorationType::Image(src) => (
                Seq::<char>::empty(),
                spec_image_decoration(p, src@, d.style, w, h, o.border.thickness as int),
            ),
        },
    }
}

/// Every definition the border contributes: the arc paths of curved texts,
/// top, bottom, left, right.
pub open spec fn spec_border_defs(o: QRBorderOptions, w: int, h: int) -> Seq<char> {
    spec_decoration_pieces(o, Position::Top, w, h).0 + spec_decoration_pieces(
        o,
        Position::Bottom,
        w,
        h,
    ).0 + spec_decoration_pieces(o, Position::Left, w, h).0 + spec_decoration_pieces(
        o,
        Position::Right,
        w,
        h,
    ).0
}

/// Every element the border contributes: the main, inner and outer frames,
/// then the decorations, top, bottom, left, right.
pub open spec fn spec_border_elements(o: QRBorderOptions, w: int, h: int) -> Seq<char> {
    spec_main_rect(o, w, h) + (match o.border_inner {
        Some(inner) => spec_inner_rect(o, inner, w, h),
        None => Seq::<char>::empty(),
    }) + (match o.border_outer {
        Some(outer) => spec_outer_rect(o, outer, w, h),
        None => Seq::<char>::empty(),
    }) + spec_decoration_pieces(o, Position::Top, w, h).1 + spec_decoration_pieces(
        o,
        Position::Bottom,
        w,
        h,
    ).1 + spec_decoration_pieces(o, Position::Left, w, h).1 + spec_decoration_pieces(
        o,
        Position::Right,
        w,
        h,
    ).1
}

fn push_fx(s: &mut String, raw: i64)
    ensures
        final(s)@ == old(s)@ + spec_fixed_str(raw as int),
{
    let t = fixed_str(Fixed { raw });
    s.append(t.as_str());
}

fn frame_rx(size: i64, round: u8, th: i64) -> (rx: i64)
    requires
        0 <= size <= 0x20_0000_0000_0000,
        0 <= th <= 0x20_0000_0000_0000,
    ensures
        rx == (if (size as int / 2) * round / 100 - th as int / 2 < 0 {
            0int
        } else {
            (size as int / 2) * round / 100 - th as int / 2
        }),
        0 <= rx <= 0x40_0000_0000_0000,
{
    proof {
        assert(0 <= (size as int / 2) * (round as int) <= 0x10_0000_0000_0000 * 255)
            by (nonlinear_arith)
            requires
                0 <= size as int / 2 <= 0x10_0000_0000_0000,
                0 <= round <= 255,
        ;
        assert(0 <= (size as int / 2) * (round as int) / 100 <= 0x10_0000_0000_0000 * 3)
            by (nonlinear_arith)
            requires
                0 <= (size as int / 2) * (round as int) <= 0x10_0000_0000_0000 * 255,
        ;
    }
    let v: i64 = (size / 2) * (round as i64) / 100 - th / 2;
    if v < 0 {
        0
    } else {
        v
    }
}

fn rect_markup(
    x: i64,
    y: i64,
    wd: i64,
    ht: i64,
    color: &str,
    th: i64,
    dash: &Option<String>,
    rx: i64,
) -> (r: String)
    ensures
        r@ == spec_rect_markup(
            x as int,
            y as int,
            wd as int,
            ht as int,
            color@,
            th as int,
            *dash,
            rx as int,
        ),
{
    let mut s = "<rect fill=\"none\" x=\"".to_owned();
    push_fx(&mut s, x);
    s.append("\" y=\"");
    push_fx(&mut s, y);
    s.append("\" width=\"");
    push_fx(&mut s, wd);
    s.append("\" height=\"");
    push_fx(&mut s, ht);
    s.append("\" stroke=\"");
    s.append(color);
    s.append("\" stroke-width=\"");
    push_fx(&mut s, th);
    s.append("\"");
    match dash {
        Some(d) => {
            if !d.as_str().is_empty() {
                s.append(" stroke-dasharray=\"");
                s.append(d.as_str());
                s.append("\"");
            }
        },
        None => {},
    }
    s.append(" rx=\"");
    push_fx(&mut s, rx);
    s.append("\"/>\n");
    s
}

/// Decorates existing markup with frames and positional decorations.
pub struct BorderPlugin {
    /// The border configuration applied.
    pub options: QRBorderOptions,
}

impl BorderPlugin {
    /// A plugin for the given configuration.
    pub fn new(options: QRBorderOptions) -> (r: BorderPlugin)
        ensures
            r.options == options,
    {
        BorderPlugin { options }
    }

    /// Overlays the configured frames and decorations on the markup.
    ///
    /// The new elements are inserted before the last closing root tag, and
    /// any arc-path definitions go into the first definitions block before
    /// it, or into a new one; markup without a closing root tag gets the
    /// elements appended after its trailing whitespace.
    #[verifier::rlimit(100)]
    pub fn apply(&self, svg: &str, width: u32, height: u32) -> (res: String)
        ensures
            (forall|j: int| !match_at(svg@, "</svg>"@, j)) ==> res@ == spec_trim_end(svg@) + "\n"@
                + spec_border_elements(self.options, width as int, height as int),
            forall|p: int|
                is_last_match(svg@, "</svg>"@, p) ==> res@ == spec_applied(
                    self.options,
                    svg@,
                    p,
                    width as int,
                    height as int,
                ),
    {
        let o = &self.options;
        let w = width;
        let h = height;
        let mut elements = main_and_frames(o, w, h);
        let mut defs = String::new();
        push_decoration(o, Position::Top, w, h, &mut defs, &mut elements);
        push_decoration(o, Position::Bottom, w, h, &mut defs, &mut elements);
        push_decoration(o, Position::Left, w, h, &mut defs, &mut elements);
        push_decoration(o, Position::Right, w, h, &mut defs, &mut elements);

        let chars = str_chars(svg);
        let pat_svg = str_chars("</svg>");
        let pat_defs = str_chars("</defs>");
        proof {
            reveal_strlit("</svg>");
            reveal_strlit("</defs>");
        }
        let close = find_last(&chars, &pat_svg);
        match close {
            None => {
                let mut res = trim_end_str(svg);
                res.append("\n");
                res.append(elements.as_str());
                res
            },
            Some(p) => {
                let mut res = String::new();
                if !defs.as_str().is_empty() {
                    let dclose = find_first(&chars, &pat_defs);
                    match dclose {
                        Some(q) if q <= p => {
                            let before = svg.substring_char(0, q);
                            res.append(before);
                            res.append(defs.as_str());
                            let middle = svg.substring_char(q, p);
                            res.append(middle);
                        },
                        _ => {
                            let before = svg.substring_char(0, p);
                            res.append(before);
                            res.append("<defs>\n");
                            res.append(defs.as_str());
                            res.append("</defs>\n");
                        },
                    }
                } else {
                    let before = svg.substring_char(0, p);
                    res.append(before);
                }
                res.append(elements.as_str());
                res.append("</svg>");
                res
            },
        }
    }
}

/// The decorated markup when the closing root tag stands at `p`: the new
/// elements go before it, and any new definitions go into the first
/// definitions block before `p`, or into a new block.
pub open spec fn spec_applied(
    o: QRBorderOptions,
    svg: Seq<char>,
    p: int,
    w: int,
    h: int,
) -> Seq<char> {
    let defs = spec_border_defs(o, w, h);
    let elements = spec_border_elements(o, w, h);
    if defs.len() == 0 {
        svg.subrange(0, p) + elements + "</svg>"@
    } else if exists|q: int| is_first_match(svg, "</defs>"@, q) && q <= p {
        let q = choose|q: int| is_first_match(svg, "</defs>"@, q) && q <= p;
        svg.subrange(0, q) + defs + svg.subrange(q, p) + elements + "</svg>"@
    } else {
        svg.subrange(0, p) + "<defs>\n"@ + defs + "</defs>\n"@ + elements + "</svg>"@
    }
}

/// The frame rectangles: main, then inner and outer when configured.
#[verifier::rlimit(100)]
fn main_and_frames(o: &QRBorderOptions, w: u32, h: u32) -> (r: String)
    ensures
        r@ == spec_main_rect(*o, w as int, h as int) + (match o.border_inner {
            Some(inner) => spec_inner_rect(*o, inner, w as int, h as int),
            None => Seq::<char>::empty(),
        }) + (match o.border_outer {
            Some(outer) => spec_outer_rect(*o, outer, w as int, h as int),
            None => Seq::<char>::empty(),
        }),
{
    let size: i64 = (if w <= h {
        w
    } else {
        h
    } as i64) * SCALE;
    let th: i64 = (o.border.thickness as i64) * SCALE;
    let rx: i64 = frame_rx(size, o.round, th);
    let mut s = rect_markup(
        ((w as i64) * SCALE - size + th) / 2,
        ((h as i64) * SCALE - size + th) / 2,
        size - th,
        size - th,
        o.border.color.as_str(),
        th,
        &o.border.dasharray,
        rx,
    );
    match &o.border_inner {
        Some(inner) => {
            let ti: i64 = (inner.thickness as i64) * SCALE;
            let rxi1: i64 = frame_rx(size, o.round, ti);
            let rxi2: i64 = rxi1 + ti - th;
            let rxi: i64 = if rxi2 < 0 {
                0
            } else {
                rxi2
            };
            let piece = rect_markup(
                ((w as i64) * SCALE - size + ti) / 2 - ti + th,
                ((h as i64) * SCALE - size + ti) / 2 - ti + th,
                size - ti + 2 * (ti - th),
                size - ti + 2 * (ti - th),
                inner.color.as_str(),
                ti,
                &inner.dasharray,
                rxi,
            );
            s.append(piece.as_str());
        },
        None => {},
    }
    match &o.border_outer {
        Some(outer) => {
            let t: i64 = (outer.thickness as i64) * SCALE;
            let rxo: i64 = frame_rx(size, o.round, t);
            let piece = rect_markup(
                ((w as i64) * SCALE - size + t) / 2,
                ((h as i64) * SCALE - size + t) / 2,
                size - t,
                size - t,
                outer.color.as_str(),
                t,
                &outer.dasharray,
                rxo,
            );
            s.append(piece.as_str());
        },
        None => {},
    }
    s
}

fn path_id_str(p: Position) -> (r: &'static str)
    ensures
        r@ == spec_path_id(p),
{
    match p {
        Position::Top => "top-text-path",
        Position::Bottom => "bottom-text-path",
        Position::Left => "left-text-path",
        Position::Right => "right-text-path",
    }
}

/// The text element of a curved decoration.
#[verifier::rlimit(100)]
fn curved_text_elem(pid: &str, style: &str, text: &str) -> (r: String)
    ensures
        r@ == "<text style=\""@ + style@ + "\">\n  <textPath xlink:href=\"#"@ + pid@
            + "\" href=\"#"@ + pid@
            + "\" startOffset=\"50%\" text-anchor=\"middle\" dominant-baseline=\"central\">"@
            + text@ + "</textPath>\n</text>\n"@,
{
    let mut te = "<text style=\"".to_owned();
    te.append(style);
    te.append("\">\n  <textPath xlink:href=\"#");
    te.append(pid);
    te.append("\" href=\"#");
    te.append(pid);
    te.append("\" startOffset=\"50%\" text-anchor=\"middle\" dominant-baseline=\"central\">");
    te.append(text);
    te.append("</textPath>\n</text>\n");
    te
}

/// The element of a straight text decoration.
#[verifier::rlimit(100)]
fn straight_text_elem(p: Position, x: i64, y: i64, style: &str, text: &str) -> (r: String)
    ensures
        r@ == ({
            let rot: Seq<char> = match p {
                Position::Top => Seq::<char>::empty(),
                Position::Bottom => Seq::<char>::empty(),
                Position::Left => " transform=\"rotate(-90,"@ + spec_fixed_str(x as int) + ","@
                    + spec_fixed_str(y as int) + ")\""@,
                Position::Right => " transform=\"rotate(90,"@ + spec_fixed_str(x as int) + ","@
                    + spec_fixed_str(y as int) + ")\""@,
            };
            "<text x=\""@ + spec_fixed_str(x as int) + "\" y=\""@ + spec_fixed_str(y as int)
                + "\" text-anchor=\"middle\" dominant-baseline=\"middle\" style=\""@ + style@
                + "\""@ + rot + ">"@ + text@ + "</text>\n"@
        }),
{
    let mut te = "<text x=\"".to_owned();
    push_fx(&mut te, x);
    te.append("\" y=\"");
    push_fx(&mut te, y);
    te.append("\" text-anchor=\"middle\" dominant-baseline=\"middle\" style=\"");
    te.append(style);
    te.append("\"");
    match p {
        Position::Left => {
            te.append(" transform=\"rotate(-90,");
            push_fx(&mut te, x);
            te.append(",");
            push_fx(&mut te, y);
            te.append(")\"");
        },
        Position::Right => {
            te.append(" transform=\"rotate(90,");
            push_fx(&mut te, x);
            te.append(",");
            push_fx(&mut te, y);
            te.append(")\"");
        },
        _ => {},
    }
    te.append(">");
    te.append(text);
    te.append("</text>\n");
    te
}

/// The element of an image decoration.
#[verifier::rlimit(100)]
fn image_decoration_elem(src: &str, x: i64, y: i64, style: &Option<String>) -> (r: String)
    ensures
        r@ == "<image href=\""@ + src@ + "\" xlink:href=\""@ + src@ + "\" x=\""@
            + spec_fixed_str(x as int) + "\" y=\""@ + spec_fixed_str(y as int) + "\""@ + (match *style {
            Some(st) => " style=\""@ + st@ + "\""@,
            None => Seq::<char>::empty(),
        }) + "/>"@,
{
    let mut ie = "<image href=\"".to_owned();
    ie.append(src);
    ie.append("\" xlink:href=\"");
    ie.append(src);
    ie.append("\" x=\"");
    push_fx(&mut ie, x);
    ie.append("\" y=\"");
    push_fx(&mut ie, y);
    ie.append("\"");
    match style {
        Some(st) => {
            ie.append(" style=\"");
            ie.append(st.as_str());
            ie.append("\"");
        },
        None => {},
    }
    ie.append("/>");
    ie
}

/// Halving an even value rounds the same way from either side of zero.
proof fn lemma_even_div2(a: int)
    requires
        a % 2 == 0,
    ensures
        -((-a) / 2) == a / 2,
{
    vstd::arithmetic::div_mod::lemma_fundamental_div_mod(a, 2);
    vstd::arithmetic::div_mod::lemma_fundamental_div_mod_converse(-a, 2, -(a / 2), 0);
}

/// The pieces of a text decoration: an arc path and curved text for round
/// frames, or one straight text element.
#[verifier::rlimit(100)]
#[verifier::spinoff_prover]
fn text_pieces(o: &QRBorderOptions, p: Position, w: u32, h: u32, t: &str, style: &str) -> (r: (
    String,
    String,
))
    ensures
        o.round >= 50 ==> r.0@ == spec_curved_text(
            p,
            t@,
            style@,
            w as int,
            h as int,
            (spec_size_raw(w as int, h as int) - o.border.thickness * SCALE) / 2,
        ).0 && r.1@ == spec_curved_text(
            p,
            t@,
            style@,
            w as int,
            h as int,
            (spec_size_raw(w as int, h as int) - o.border.thickness * SCALE) / 2,
        ).1,
        o.round < 50 ==> r.0@ == Seq::<char>::empty() && r.1@ == spec_straight_text(
            p,
            t@,
            style@,
            w as int,
            h as int,
            o.border.thickness as int,
        ),
{
    let size: i64 = (if w <= h {
        w
    } else {
        h
    } as i64) * SCALE;
    let th: i64 = (o.border.thickness as i64) * SCALE;
    let cx: i64 = (w as i64) * SCALE / 2;
    let cy: i64 = (h as i64) * SCALE / 2;
    proof {
        assert(size == spec_size_raw(w as int, h as int));
        assert(size % 2 == 0 && th % 2 == 0) by (nonlinear_arith)
            requires
                size as int == (if w <= h {
                    w as int
                } else {
                    h as int
                }) * 1_000_000,
                th as int == (o.border.thickness as int) * 1_000_000,
        ;
        lemma_even_div2(size as int - th as int);
    }
    if o.round >= 50 {
        let r: i64 = (size - th) / 2;
        let pid = path_id_str(p);
        let mut dpath = "<path id=\"".to_owned();
        dpath.append(pid);
        dpath.append("\" d=\"");
        let arc = arc_d(p, cx, cy, r);
        dpath.append(arc.as_str());
        dpath.append("\" fill=\"none\"/>\n");
        let te = curved_text_elem(pid, style, t);
        (dpath, te)
    } else {
        let off: i64 = th / 2;
        let half: i64 = (size - th) / 2;
        let x: i64 = match p {
            Position::Top => cx,
            Position::Bottom => cx,
            Position::Left => cx - half - off,
            Position::Right => cx + half + off,
        };
        let y: i64 = match p {
            Position::Top => cy - half - off,
            Position::Bottom => cy + half + off,
            Position::Left => cy,
            Position::Right => cy,
        };
        let te = straight_text_elem(p, x, y, style, t);
        (String::new(), te)
    }
}

/// The element of an image decoration on one side.
#[verifier::rlimit(100)]
#[verifier::spinoff_prover]
fn image_pieces(
    o: &QRBorderOptions,
    p: Position,
    w: u32,
    h: u32,
    src: &str,
    style: &Option<String>,
) -> (r: String)
    ensures
        r@ == spec_image_decoration(
            p,
            src@,
            *style,
            w as int,
            h as int,
            o.border.thickness as int,
        ),
{
    let size: i64 = (if w <= h {
        w
    } else {
        h
    } as i64) * SCALE;
    let th: i64 = (o.border.thickness as i64) * SCALE;
    proof {
        assert(size == spec_size_raw(w as int, h as int));
        assert(w as int * SCALE - size + th >= 0);
        assert(h as int * SCALE - size + th >= 0);
    }
    let bx: i64 = ((w as i64) * SCALE - size + th) / 2;
    let by: i64 = ((h as i64) * SCALE - size + th) / 2;
    let span: i64 = size - th;
    proof {
        assert(bx as int == (w as int * SCALE - spec_size_raw(w as int, h as int)
            + o.border.thickness * SCALE) / 2);
        assert(by as int == (h as int * SCALE - spec_size_raw(w as int, h as int)
            + o.border.thickness * SCALE) / 2);
    }
    let x: i64 = match p {
        Position::Top => bx + span / 2,
        Position::Bottom => bx + span / 2,
        Position::Left => bx,
        Position::Right => bx + span,
    };
    let y: i64 = match p {
        Position::Top => by,
        Position::Bottom => by + span,
        Position::Left => by + span / 2,
        Position::Right => by + span / 2,
    };
    image_decoration_elem(src, x, y, style)
}

/// The definition and element text one side's decoration contributes.
#[verifier::rlimit(100)]
fn decoration_pieces(o: &QRBorderOptions, p: Position, w: u32, h: u32, d: &BorderDecoration) -> (r:
    (String, String))
    requires
        spec_decoration_at(o.decorations, p) matches Some(dd) && dd == *d,
    ensures
        r.0@ == spec_decoration_pieces(*o, p, w as int, h as int).0,
        r.1@ == spec_decoration_pieces(*o, p, w as int, h as int).1,
{
    let style: &str = match &d.style {
        Some(st) => st.as_str(),
        None => "font-size: 14px; font-family: Arial, sans-serif;",
    };
    match &d.decoration_type {
        DecorationType::Text(t) => text_pieces(o, p, w, h, t.as_str(), style),
        DecorationType::Image(src) => {
            let ie = image_pieces(o, p, w, h, src.as_str(), &d.style);
            (String::new(), ie)
        },
    }
}

/// Appends one side's decoration to the definitions and elements.
fn push_decoration(
    o: &QRBorderOptions,
    p: Position,
    w: u32,
    h: u32,
    defs: &mut String,
    elements: &mut String,
)
    ensures
        final(defs)@ == old(defs)@ + spec_decoration_pieces(*o, p, w as int, h as int).0,
        final(elements)@ == old(elements)@ + spec_decoration_pieces(*o, p, w as int, h as int).1,
{
    let dec = o.decoration_at(p);
    match dec {
        None => {},
        Some(d) => {
            let (dp, el) = decoration_pieces(o, p, w, h, d);
            defs.append(dp.as_str());
            elements.append(el.as_str());
        },
    }
}

fn arc_d(p: Position, cx: i64, cy: i64, r: i64) -> (s: String)
    requires
        -0x400_0000_0000_0000 <= cx <= 0x400_0000_0000_0000,
        -0x400_0000_0000_0000 <= cy <= 0x400_0000_0000_0000,
        -0x400_0000_0000_0000 <= r <= 0x400_0000_0000_0000,
    ensures
        s@ == (match p {
            Position::Top => "M "@ + spec_fixed_str(cx - r) + ","@ + spec_fixed_str(cy as int)
                + " A "@ + spec_fixed_str(r as int) + ","@ + spec_fixed_str(r as int) + " 0 0 1 "@
                + spec_fixed_str(cx + r) + ","@ + spec_fixed_str(cy as int),
            Position::Bottom => "M "@ + spec_fixed_str(cx - r) + ","@ + spec_fixed_str(cy as int)
                + " A "@ + spec_fixed_str(r as int) + ","@ + spec_fixed_str(r as int) + " 0 0 0 "@
                + spec_fixed_str(cx + r) + ","@ + spec_fixed_str(cy as int),
            Position::Left => "M "@ + spec_fixed_str(cx as int) + ","@ + spec_fixed_str(cy - r)
                + " A "@ + spec_fixed_str(r as int) + ","@ + spec_fixed_str(r as int) + " 0 0 0 "@
                + spec_fixed_str(cx as int) + ","@ + spec_fixed_str(cy + r),
            Position::Right => "M "@ + spec_fixed_str(cx as int) + ","@ + spec_fixed_str(cy - r)
                + " A "@ + spec_fixed_str(r as int) + ","@ + spec_fixed_str(r as int) + " 0 0 1 "@
                + spec_fixed_str(cx as int) + ","@ + spec_fixed_str(cy + r),
        }),
{
    let mut s = "M ".to_owned();
    match p {
        Position::Top => {
            push_fx(&mut s, cx - r);
            s.append(",");
            push_fx(&mut s, cy);
            s.append(" A ");
            push_fx(&mut s, r);
            s.append(",");
            push_fx(&mut s, r);
            s.append(" 0 0 1 ");
            push_fx(&mut s, cx + r);
            s.append(",");
            push_fx(&mut s, cy);
        },
        Position::Bottom => {
            push_fx(&mut s, cx - r);
            s.append(",");
            push_fx(&mut s, cy);
            s.append(" A ");
            push_fx(&mut s, r);
            s.append(",");
            push_fx(&mut s, r);
            s.append(" 0 0 0 ");
            push_fx(&mut s, cx + r);
            s.append(",");
            push_fx(&mut s, cy);
        },
        Position::Left => {
            push_fx(&mut s, cx);
            s.append(",");
            push_fx(&mut s, cy - r);
            s.append(" A ");
            push_fx(&mut s, r);
            s.append(",");
            push_fx(&mut s, r);
            s.append(" 0 0 0 ");
            push_fx(&mut s, cx);
            s.append(",");
            push_fx(&mut s, cy + r);
        },
        Position::Right => {
            push_fx(&mut s, cx);
            s.append(",");
            push_fx(&mut s, cy - r);
            s.append(" A ");
            push_fx(&mut s, r);
            s.append(",");
            push_fx(&mut s, r);
            s.append(" 0 0 1 ");
            push_fx(&mut s, cx);
            s.append(",");
            push_fx(&mut s, cy + r);
        },
    }
    s
}

fn trim_end_str(s: &str) -> (r: String)
    ensures
        r@ == spec_trim_end(s@),
{
    let n = s.unicode_len();
    let mut t: usize = n;
    proof {
        assert(s@.subrange(0, n as int) =~= s@);
    }
    loop
        invariant
            n == s@.len(),
            0 <= t <= n,
            spec_trim_end(s@) == spec_trim_end(s@.subrange(0, t as int)),
        ensures
            0 <= t <= n,
            spec_trim_end(s@) == spec_trim_end(s@.subrange(0, t as int)),
            t > 0 ==> !is_space_char(s@[t - 1]),
        decreases t,
    {
        if t == 0 {
            break;
        }
        let c = s.get_char(t - 1);
        if !(c == ' ' || c == '\n' || c == '\t' || c == '\r') {
            break;
        }
        proof {
            let pre = s@.subrange(0, t as int);
            assert(pre.last() == s@[t - 1]);
            assert(pre.drop_last() =~= s@.subrange(0, t as int - 1));
        }
        t -= 1;
    }
    proof {
        let pre = s@.subrange(0, t as int);
        if t > 0 {
            assert(pre.last() == s@[t - 1]);
        }
        assert(spec_trim_end(pre) == pre);
    }
    let out = s.substring_char(0, t);
    out.to_owned()
}

} // verus!
