//! A library for rendering styled QR codes as vector markup.
//!
//! The encoder's bit grid is wrapped in a bounds-safe matrix view; a shape
//! library turns each module into a vector primitive chosen from its four
//! neighbors; a composer assembles background, dots, finder ornaments and an
//! optional logo into a complete document; a border decorator overlays frames
//! and text or image decorations on existing markup.
//!
//! All geometry is carried in millionths of a pixel (see [`fixed::Fixed`]), so
//! every coordinate a document holds is an exact rational value.

pub mod border;
pub mod color;
pub mod composer;
pub mod error;
pub mod gradient;
pub mod options;
pub mod fixed;
pub mod image_size;
pub mod matrix;
pub mod num_fmt;
pub mod shapes;
pub mod styling;
pub mod svg;
pub mod types;

pub use border::{BorderDecoration, BorderOptions, BorderPlugin, DecorationType, Position, QRBorderOptions};
pub use color::Color;
pub use error::{QRError, QRResult};
pub use gradient::{ColorStop, Gradient};
pub use options::{
    BackgroundOptions, CornersDotOptions, CornersSquareOptions, DotsOptions, ImageOptions,
    QRCodeStylingBuilder, QRCodeStylingOptions, QROptions,
};
pub use fixed::Fixed;
pub use image_size::{calculate_image_size, ImageSizeResult};
pub use matrix::QRMatrix;
pub use composer::SvgRenderer;
pub use shapes::{Neighbors, Placed, QRCornerDot, QRCornerSquare, QRDot, Shape, Turn};
pub use styling::QRCodeStyling;
pub use svg::{svg_path, SvgDocument};
pub use types::{
    CornerDotType, CornerSquareType, DotType, ErrorCorrectionLevel, GradientType, Mode,
    OutputFormat, ShapeType,
};
