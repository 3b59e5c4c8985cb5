//! Gradient definitions: a type, a rotation, and ordered color stops.

use vstd::prelude::*;
use crate::color::Color;
use crate::types::GradientType;

verus! {

/// A stop along a gradient ramp: a position in whole percent and a color.
#[derive(Clone, Copy, PartialEq, Eq, Structural, Debug)]
pub struct ColorStop {
    /// Position of the stop along the ramp, in percent, `0..=100`.
    pub offset: u8,
    /// Color at this stop.
    pub color: Color,
}

impl ColorStop {
    /// A stop at the given percent position, clamped to `0..=100`.
    pub fn new(offset: u8, color: Color) -> (s: ColorStop)
        ensures
            s.color == color,
            s.offset == if offset > 100 {
                100int
            } else {
                offset as int
            },
    {
        ColorStop { offset: if offset > 100 { 100 } else { offset }, color }
    }
}

/// A linear or radial paint ramp.
///
/// The rotation is in whole degrees and applies to linear gradients only.
#[derive(Clone, PartialEq, Eq, Debug)]
pub struct Gradient {
    /// Whether the ramp runs along a line or out from the center.
    pub gradient_type: GradientType,
    /// Rotation of a linear ramp, in degrees.
    pub rotation: i64,
    /// The stops of the ramp, in order.
    pub color_stops: Vec<ColorStop>,
}

impl Gradient {
    /// A linear gradient with no rotation.
    pub fn linear(color_stops: Vec<ColorStop>) -> (g: Gradient)
        ensures
            g.gradient_type == GradientType::Linear,
            g.rotation == 0,
            g.color_stops@ == color_stops@,
    {
        Gradient { gradient_type: GradientType::Linear, rotation: 0, color_stops }
    }

    /// A linear gradient rotated by the given whole degrees.
    pub fn linear_rotated(rotation: i64, color_stops: Vec<ColorStop>) -> (g: Gradient)
        ensures
            g.gradient_type == GradientType::Linear,
            g.rotation == rotation,
            g.color_stops@ == color_stops@,
    {
        Gradient { gradient_type: GradientType::Linear, rotation, color_stops }
    }

    /// A radial gradient.
    pub fn radial(color_stops: Vec<ColorStop>) -> (g: Gradient)
        ensures
            g.gradient_type == GradientType::Radial,
            g.rotation == 0,
            g.color_stops@ == color_stops@,
    {
        Gradient { gradient_type: GradientType::Radial, rotation: 0, color_stops }
    }

    /// A two-color linear gradient from start to end.
    pub fn simple_linear(start: Color, end: Color) -> (g: Gradient)
        ensures
            g.gradient_type == GradientType::Linear,
            g.rotation == 0,
            g.color_stops@ == seq![
                ColorStop { offset: 0, color: start },
                ColorStop { offset: 100, color: end },
            ],
    {
        let stops = vec![ColorStop { offset: 0, color: start }, ColorStop { offset: 100, color: end }];
        proof {
            assert(stops@ =~= seq![
                ColorStop { offset: 0, color: start },
                ColorStop { offset: 100, color: end },
            ]);
        }
        Gradient { gradient_type: GradientType::Linear, rotation: 0, color_stops: stops }
    }

    /// A two-color radial gradient from center to edge.
    pub fn simple_radial(center: Color, edge: Color) -> (g: Gradient)
        ensures
            g.gradient_type == GradientType::Radial,
            g.rotation == 0,
            g.color_stops@ == seq![
                ColorStop { offset: 0, color: center },
                ColorStop { offset: 100, color: edge },
            ],
    {
        let stops = vec![
            ColorStop { offset: 0, color: center },
            ColorStop { offset: 100, color: edge },
        ];
        proof {
            assert(stops@ =~= seq![
                ColorStop { offset: 0, color: center },
                ColorStop { offset: 100, color: edge },
            ]);
        }
        Gradient { gradient_type: GradientType::Radial, rotation: 0, color_stops: stops }
    }
}

impl Default for Gradient {
    /// A degenerate black-to-black linear gradient.
    fn default() -> (g: Self)
        ensures
            g.gradient_type == GradientType::Linear,
            g.rotation == 0,
            g.color_stops@.len() == 2,
    {
        Gradient::simple_linear(Color::black(), Color::black())
    }
}

} // verus!
