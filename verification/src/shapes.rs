//! The shape library: picks and parameterizes the vector primitive for a
//! module from its four-neighbor occupancy, and the fixed ornaments for the
//! three finder corners.

use vstd::prelude::*;
use crate::fixed::Fixed;
use crate::types::{CornerDotType, CornerSquareType, DotType};

verus! {

/// A quarter-turn rotation about a shape's own center.
///
/// `T270` is written as `-90` in markup, as a three-quarter turn is placed
/// by its mirror-image quarter turn.
#[derive(Clone, Copy, PartialEq, Eq, Structural, Debug)]
pub enum Turn {
    T0,
    T90,
    T180,
    T270,
}

/// The angle of a turn in degrees, as it is written in markup.
pub open spec fn spec_turn_degrees(t: Turn) -> int {
    match t {
        Turn::T0 => 0,
        Turn::T90 => 90,
        Turn::T180 => 180,
        Turn::T270 => -90,
    }
}

/// The composition of two quarter-turn rotations.
pub open spec fn turn_add(a: Turn, b: Turn) -> Turn {
    match (a, b) {
        (Turn::T0, x) => x,
        (x, Turn::T0) => x,
        (Turn::T90, Turn::T90) => Turn::T180,
        (Turn::T90, Turn::T180) => Turn::T270,
        (Turn::T90, Turn::T270) => Turn::T0,
        (Turn::T180, Turn::T90) => Turn::T270,
        (Turn::T180, Turn::T180) => Turn::T0,
        (Turn::T180, Turn::T270) => Turn::T90,
        (Turn::T270, Turn::T90) => Turn::T0,
        (Turn::T270, Turn::T180) => Turn::T90,
        (Turn::T270, Turn::T270) => Turn::T180,
    }
}

impl Turn {
    /// The angle of this turn in degrees, as it is written in markup.
    pub fn degrees(&self) -> (d: i64)
        ensures
            d == spec_turn_degrees(*self),
    {
        match self {
            Turn::T0 => 0,
            Turn::T90 => 90,
            Turn::T180 => 180,
            Turn::T270 => -90,
        }
    }
}

/// The dark or light state of the four modules beside a given one.
#[derive(Clone, Copy, PartialEq, Eq, Structural, Debug)]
pub struct Neighbors {
    pub left: bool,
    pub right: bool,
    pub top: bool,
    pub bottom: bool,
}

impl Neighbors {
    /// No dark neighbor on any side.
    pub fn none() -> (n: Neighbors)
        ensures
            n == (Neighbors { left: false, right: false, top: false, bottom: false }),
    {
        Neighbors { left: false, right: false, top: false, bottom: false }
    }
}

/// How many of the four neighbors are dark.
pub open spec fn neighbor_count(n: Neighbors) -> int {
    (if n.left {
        1int
    } else {
        0int
    }) + (if n.right {
        1int
    } else {
        0int
    }) + (if n.top {
        1int
    } else {
        0int
    }) + (if n.bottom {
        1int
    } else {
        0int
    })
}

/// The occupancy pattern rotated by a quarter turn: the left neighbor
/// moves to the top, the top to the right, and so on.
pub open spec fn rotate_neighbors(n: Neighbors) -> Neighbors {
    Neighbors { left: n.bottom, right: n.top, top: n.left, bottom: n.right }
}

/// A vector primitive, positioned but not yet rotated.
///
/// Path-backed variants carry only their anchor and size; their exact path
/// commands are produced by the markup serializer.
#[derive(Clone, Copy, PartialEq, Eq, Structural, Debug)]
pub enum Shape {
    /// A circle inscribed in the square at `(x, y)` with the given side.
    Circle { x: Fixed, y: Fixed, size: Fixed },
    /// An axis-aligned rectangle.
    Rect { x: Fixed, y: Fixed, w: Fixed, h: Fixed },
    /// A square whose right side bulges out as a half circle.
    SideRounded { x: Fixed, y: Fixed, size: Fixed },
    /// A square whose top right corner is rounded at half the side.
    CornerRounded { x: Fixed, y: Fixed, size: Fixed },
    /// A square whose top right corner is rounded at the full side.
    CornerExtraRounded { x: Fixed, y: Fixed, size: Fixed },
    /// A square whose bottom left and top right corners are rounded.
    CornersRounded { x: Fixed, y: Fixed, size: Fixed },
    /// A circular ring one seventh of the side thick.
    Ring { x: Fixed, y: Fixed, size: Fixed },
    /// A square ring one seventh of the side thick.
    HollowSquare { x: Fixed, y: Fixed, size: Fixed },
    /// A rounded square ring one seventh of the side thick.
    HollowExtraRounded { x: Fixed, y: Fixed, size: Fixed },
}

/// A primitive together with the quarter turn that places it.
#[derive(Clone, Copy, PartialEq, Eq, Structural, Debug)]
pub struct Placed {
    pub shape: Shape,
    pub turn: Turn,
}

/// The family of primitive a neighbor-sensitive selection can produce.
#[derive(Clone, Copy, PartialEq, Eq, Structural, Debug)]
pub enum DotShapeKind {
    Circle,
    Square,
    SideRounded,
    CornerRounded,
    CornerExtraRounded,
    CornersRounded,
}

/// The turn for an adjacent pair of dark neighbors: each pair turns the
/// rounded corner away from both.
pub open spec fn spec_pair_turn(n: Neighbors) -> Turn {
    if n.left && n.top {
        Turn::T90
    } else if n.top && n.right {
        Turn::T180
    } else if n.right && n.bottom {
        Turn::T270
    } else {
        Turn::T0
    }
}

/// The turn for a single dark neighbor: the rounded side faces away from it.
pub open spec fn spec_single_turn(n: Neighbors) -> Turn {
    if n.top {
        Turn::T90
    } else if n.right {
        Turn::T180
    } else if n.bottom {
        Turn::T270
    } else {
        Turn::T0
    }
}

/// The shape family and turn selected for a module, by style and neighbors.
///
/// For the four-way adaptive styles: an isolated module becomes a circle; an
/// opposite pair or more than two neighbors degrade to a plain square; an
/// adjacent pair rounds one corner; a single neighbor rounds the far side.
/// The classy styles use a three-way rule on the two diagonals.
pub open spec fn spec_select_dot(dt: DotType, n: Neighbors) -> (DotShapeKind, Turn) {
    let cnt = neighbor_count(n);
    match dt {
        DotType::Square => (DotShapeKind::Square, Turn::T0),
        DotType::Dots => (DotShapeKind::Circle, Turn::T0),
        DotType::Rounded => {
            if cnt == 0 {
                (DotShapeKind::Circle, Turn::T0)
            } else if cnt > 2 || (n.left && n.right) || (n.top && n.bottom) {
                (DotShapeKind::Square, Turn::T0)
            } else if cnt == 2 {
                (DotShapeKind::CornerRounded, spec_pair_turn(n))
            } else {
                (DotShapeKind::SideRounded, spec_single_turn(n))
            }
        },
        DotType::ExtraRounded => {
            if cnt == 0 {
                (DotShapeKind::Circle, Turn::T0)
            } else if cnt > 2 || (n.left && n.right) || (n.top && n.bottom) {
                (DotShapeKind::Square, Turn::T0)
            } else if cnt == 2 {
                (DotShapeKind::CornerExtraRounded, spec_pair_turn(n))
            } else {
                (DotShapeKind::SideRounded, spec_single_turn(n))
            }
        },
        DotType::Classy => {
            if cnt == 0 {
                (DotShapeKind::CornersRounded, Turn::T90)
            } else if !n.left && !n.top {
                (DotShapeKind::CornerRounded, Turn::T270)
            } else if !n.right && !n.bottom {
                (DotShapeKind::CornerRounded, Turn::T90)
            } else {
                (DotShapeKind::Square, Turn::T0)
            }
        },
        DotType::ClassyRounded => {
            if cnt == 0 {
                (DotShapeKind::CornersRounded, Turn::T90)
            } else if !n.left && !n.top {
                (DotShapeKind::CornerExtraRounded, Turn::T270)
            } else if !n.right && !n.bottom {
                (DotShapeKind::CornerExtraRounded, Turn::T90)
            } else {
                (DotShapeKind::Square, Turn::T0)
            }
        },
    }
}

/// The placed primitive for a selected family at a position and size.
pub open spec fn spec_dot_shape(kind: DotShapeKind, turn: Turn, x: Fixed, y: Fixed, size: Fixed)
    -> Placed {
    match kind {
        DotShapeKind::Circle => Placed { shape: Shape::Circle { x, y, size }, turn: Turn::T0 },
        DotShapeKind::Square => Placed {
            shape: Shape::Rect { x, y, w: size, h: size },
            turn: Turn::T0,
        },
        DotShapeKind::SideRounded => Placed { shape: Shape::SideRounded { x, y, size }, turn },
        DotShapeKind::CornerRounded => Placed { shape: Shape::CornerRounded { x, y, size }, turn },
        DotShapeKind::CornerExtraRounded => Placed {
            shape: Shape::CornerExtraRounded { x, y, size },
            turn,
        },
        DotShapeKind::CornersRounded => Placed {
            shape: Shape::CornersRounded { x, y, size },
            turn,
        },
    }
}

/// The primitive an ordinary module draws, by style, position and neighbors.
pub open spec fn spec_draw_dot(dt: DotType, x: Fixed, y: Fixed, size: Fixed, n: Neighbors)
    -> Placed {
    let (kind, turn) = spec_select_dot(dt, n);
    spec_dot_shape(kind, turn, x, y, size)
}

/// Draws ordinary modules in one of the six dot styles.
#[derive(Clone, Copy, PartialEq, Eq, Structural, Debug)]
pub struct QRDot {
    pub dot_type: DotType,
}

impl QRDot {
    /// A drawer for the given dot style.
    pub fn new(dot_type: DotType) -> (d: QRDot)
        ensures
            d.dot_type == dot_type,
    {
        QRDot { dot_type }
    }

    /// The dark or light state of each side, with no neighbors when absent.
    pub fn get_neighbors(&self, neighbors: Option<&Neighbors>) -> (n: Neighbors)
        ensures
            n == match neighbors {
                Some(v) => *v,
                None => Neighbors { left: false, right: false, top: false, bottom: false },
            },
    {
        match neighbors {
            Some(v) => *v,
            None => Neighbors::none(),
        }
    }

    /// The placed primitive for a module at `(x, y)` with the given side.
    pub fn draw(&self, x: Fixed, y: Fixed, size: Fixed, neighbors: Option<&Neighbors>) -> (p:
        Placed)
        ensures
            p == spec_draw_dot(
                self.dot_type,
                x,
                y,
                size,
                match neighbors {
                    Some(v) => *v,
                    None => Neighbors { left: false, right: false, top: false, bottom: false },
                },
            ),
    {
        let n = self.get_neighbors(neighbors);
        let cnt: u32 = (if n.left {
            1
        } else {
            0
        }) + (if n.right {
            1
        } else {
            0
        }) + (if n.top {
            1
        } else {
            0
        }) + (if n.bottom {
            1
        } else {
            0
        });
        match self.dot_type {
            DotType::Square => Placed { shape: Shape::Rect { x, y, w: size, h: size }, turn: Turn::T0 },
            DotType::Dots => Placed { shape: Shape::Circle { x, y, size }, turn: Turn::T0 },
            DotType::Rounded => {
                if cnt == 0 {
                    Placed { shape: Shape::Circle { x, y, size }, turn: Turn::T0 }
                } else if cnt > 2 || (n.left && n.right) || (n.top && n.bottom) {
                    Placed { shape: Shape::Rect { x, y, w: size, h: size }, turn: Turn::T0 }
                } else if cnt == 2 {
                    Placed { shape: Shape::CornerRounded { x, y, size }, turn: pair_turn(&n) }
                } else {
                    Placed { shape: Shape::SideRounded { x, y, size }, turn: single_turn(&n) }
                }
            },
            DotType::ExtraRounded => {
                if cnt == 0 {
                    Placed { shape: Shape::Circle { x, y, size }, turn: Turn::T0 }
                } else if cnt > 2 || (n.left && n.right) || (n.top && n.bottom) {
                    Placed { shape: Shape::Rect { x, y, w: size, h: size }, turn: Turn::T0 }
                } else if cnt == 2 {
                    Placed { shape: Shape::CornerExtraRounded { x, y, size }, turn: pair_turn(&n) }
                } else {
                    Placed { shape: Shape::SideRounded { x, y, size }, turn: single_turn(&n) }
                }
            },
            DotType::Classy => {
                if cnt == 0 {
                    Placed { shape: Shape::CornersRounded { x, y, size }, turn: Turn::T90 }
                } else if !n.left && !n.top {
                    Placed { shape: Shape::CornerRounded { x, y, size }, turn: Turn::T270 }
                } else if !n.right && !n.bottom {
                    Placed { shape: Shape::CornerRounded { x, y, size }, turn: Turn::T90 }
                } else {
                    Placed { shape: Shape::Rect { x, y, w: size, h: size }, turn: Turn::T0 }
                }
            },
            DotType::ClassyRounded => {
                if cnt == 0 {
                    Placed { shape: Shape::CornersRounded { x, y, size }, turn: Turn::T90 }
                } else if !n.left && !n.top {
                    Placed { shape: Shape::CornerExtraRounded { x, y, size }, turn: Turn::T270 }
                } else if !n.right && !n.bottom {
                    Placed { shape: Shape::CornerExtraRounded { x, y, size }, turn: Turn::T90 }
                } else {
                    Placed { shape: Shape::Rect { x, y, w: size, h: size }, turn: Turn::T0 }
                }
            },
        }
    }
}

fn pair_turn(n: &Neighbors) -> (t: Turn)
    ensures
        t == spec_pair_turn(*n),
{
    if n.left && n.top {
        Turn::T90
    } else if n.top && n.right {
        Turn::T180
    } else if n.right && n.bottom {
        Turn::T270
    } else {
        Turn::T0
    }
}

fn single_turn(n: &Neighbors) -> (t: Turn)
    ensures
        t == spec_single_turn(*n),
{
    if n.top {
        Turn::T90
    } else if n.right {
        Turn::T180
    } else if n.bottom {
        Turn::T270
    } else {
        Turn::T0
    }
}

/// The primitive a finder ring draws, by style.
pub open spec fn spec_draw_corner_square(
    st: CornerSquareType,
    x: Fixed,
    y: Fixed,
    size: Fixed,
    turn: Turn,
) -> Placed {
    match st {
        CornerSquareType::Square => Placed { shape: Shape::HollowSquare { x, y, size }, turn },
        CornerSquareType::Dot => Placed { shape: Shape::Ring { x, y, size }, turn },
        CornerSquareType::ExtraRounded => Placed {
            shape: Shape::HollowExtraRounded { x, y, size },
            turn,
        },
    }
}

/// Draws the 7-module ring of a finder pattern.
#[derive(Clone, Copy, PartialEq, Eq, Structural, Debug)]
pub struct QRCornerSquare {
    pub square_type: CornerSquareType,
}

impl QRCornerSquare {
    /// A drawer for the given corner-square style.
    pub fn new(square_type: CornerSquareType) -> (d: QRCornerSquare)
        ensures
            d.square_type == square_type,
    {
        QRCornerSquare { square_type }
    }

    /// The placed ring for a finder corner; the turn says which corner.
    pub fn draw(&self, x: Fixed, y: Fixed, size: Fixed, turn: Turn) -> (p: Placed)
        ensures
            p == spec_draw_corner_square(self.square_type, x, y, size, turn),
    {
        match self.square_type {
            CornerSquareType::Square => Placed { shape: Shape::HollowSquare { x, y, size }, turn },
            CornerSquareType::Dot => Placed { shape: Shape::Ring { x, y, size }, turn },
            CornerSquareType::ExtraRounded => Placed {
                shape: Shape::HollowExtraRounded { x, y, size },
                turn,
            },
        }
    }
}

/// The primitive a finder center draws, by style.
pub open spec fn spec_draw_corner_dot(
    st: CornerDotType,
    x: Fixed,
    y: Fixed,
    size: Fixed,
    turn: Turn,
) -> Placed {
    match st {
        CornerDotType::Dot => Placed { shape: Shape::Circle { x, y, size }, turn },
        CornerDotType::Square => Placed { shape: Shape::Rect { x, y, w: size, h: size }, turn },
    }
}

/// Draws the 3-module center of a finder pattern.
#[derive(Clone, Copy, PartialEq, Eq, Structural, Debug)]
pub struct QRCornerDot {
    pub dot_type: CornerDotType,
}

impl QRCornerDot {
    /// A drawer for the given corner-dot style.
    pub fn new(dot_type: CornerDotType) -> (d: QRCornerDot)
        ensures
            d.dot_type == dot_type,
    {
        QRCornerDot { dot_type }
    }

    /// The placed center for a finder corner; the turn says which corner.
    pub fn draw(&self, x: Fixed, y: Fixed, size: Fixed, turn: Turn) -> (p: Placed)
        ensures
            p == spec_draw_corner_dot(self.dot_type, x, y, size, turn),
    {
        match self.dot_type {
            CornerDotType::Dot => Placed { shape: Shape::Circle { x, y, size }, turn },
            CornerDotType::Square => Placed {
                shape: Shape::Rect { x, y, w: size, h: size },
                turn,
            },
        }
    }
}

/// An opposite pair, or more than two dark neighbors, always degrades to a
/// plain square, in every neighbor-sensitive style.
pub proof fn lemma_ambiguous_neighbors_square(dt: DotType, n: Neighbors)
    requires
        dt == DotType::Rounded || dt == DotType::ExtraRounded || dt == DotType::Classy || dt
            == DotType::ClassyRounded,
        neighbor_count(n) > 2 || (n.left && n.right) || (n.top && n.bottom),
    ensures
        spec_select_dot(dt, n).0 == DotShapeKind::Square,
        spec_select_dot(dt, n).1 == Turn::T0,
{
}

/// Rotating the occupancy pattern by a quarter turn leaves the selected
/// shape family unchanged for the four-way adaptive styles, and advances
/// the turn of every direction-sensitive shape by the same quarter.
pub proof fn lemma_selection_rotates(dt: DotType, n: Neighbors)
    requires
        dt == DotType::Rounded || dt == DotType::ExtraRounded,
    ensures
        spec_select_dot(dt, rotate_neighbors(n)).0 == spec_select_dot(dt, n).0,
        spec_select_dot(dt, n).0 == DotShapeKind::SideRounded || spec_select_dot(dt, n).0
            == DotShapeKind::CornerRounded || spec_select_dot(dt, n).0
            == DotShapeKind::CornerExtraRounded ==> spec_select_dot(dt, rotate_neighbors(n)).1
            == turn_add(spec_select_dot(dt, n).1, Turn::T90),
{
}

/// The classy styles are symmetric under a half turn: the pattern rotated
/// by two quarters selects the same family, with corner shapes advanced by
/// a half turn.
pub proof fn lemma_classy_selection_rotates_half(dt: DotType, n: Neighbors)
    requires
        dt == DotType::Classy || dt == DotType::ClassyRounded,
    ensures
        spec_select_dot(dt, rotate_neighbors(rotate_neighbors(n))).0 == spec_select_dot(dt, n).0,
        spec_select_dot(dt, n).0 == DotShapeKind::CornerRounded || spec_select_dot(dt, n).0
            == DotShapeKind::CornerExtraRounded ==> spec_select_dot(
            dt,
            rotate_neighbors(rotate_neighbors(n)),
        ).1 == turn_add(spec_select_dot(dt, n).1, Turn::T180),
{
}

} // verus!
