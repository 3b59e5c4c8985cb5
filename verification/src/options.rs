//! Style configuration: per-element options, the aggregate, and its builder.

use vstd::prelude::*;
use crate::color::Color;
use crate::error::{QRError, QRResult};
use crate::gradient::Gradient;
use crate::types::{
    CornerDotType, CornerSquareType, DotType, ErrorCorrectionLevel, Mode, ShapeType,
};

verus! {

/// Styling of ordinary modules.
#[derive(Clone, PartialEq, Eq, Debug)]
pub struct DotsOptions {
    /// The shape rule for modules.
    pub dot_type: DotType,
    /// Solid fill, ignored when a gradient is set.
    pub color: Color,
    /// Optional gradient fill.
    pub gradient: Option<Gradient>,
    /// Whether the module size is rounded down to whole pixels.
    pub round_size: bool,
}

impl Default for DotsOptions {
    fn default() -> (r: Self)
        ensures
            r.dot_type == DotType::Square,
            r.color == (Color { r: 0, g: 0, b: 0, a: 255 }),
            r.gradient is None,
            r.round_size == true,
    {
        DotsOptions {
            dot_type: DotType::Square,
            color: Color::black(),
            gradient: None,
            round_size: true,
        }
    }
}

impl DotsOptions {
    /// The default module styling: plain black squares, pixel rounding on.
    pub open spec fn spec_default() -> DotsOptions {
        DotsOptions {
            dot_type: DotType::Square,
            color: Color { r: 0, g: 0, b: 0, a: 255 },
            gradient: None,
            round_size: true,
        }
    }

    /// Default options with the given dot style.
    pub fn new(dot_type: DotType) -> (r: Self)
        ensures
            r.dot_type == dot_type,
            r.color == (Color { r: 0, g: 0, b: 0, a: 255 }),
            r.gradient is None,
            r.round_size == true,
    {
        DotsOptions { dot_type, color: Color::black(), gradient: None, round_size: true }
    }

    /// The same options with another dot style.
    pub fn with_type(self, dot_type: DotType) -> (r: Self)
        ensures
            r == (DotsOptions { dot_type, ..self }),
    {
        DotsOptions { dot_type, ..self }
    }

    /// The same options with another solid color.
    pub fn with_color(self, color: Color) -> (r: Self)
        ensures
            r == (DotsOptions { color, ..self }),
    {
        DotsOptions { color, ..self }
    }

    /// The same options with a gradient fill.
    pub fn with_gradient(self, gradient: Gradient) -> (r: Self)
        ensures
            r.dot_type == self.dot_type,
            r.color == self.color,
            r.round_size == self.round_size,
            r.gradient matches Some(g) && g == gradient,
    {
        DotsOptions { gradient: Some(gradient), ..self }
    }

    /// The same options with pixel rounding switched on or off.
    pub fn with_round_size(self, round_size: bool) -> (r: Self)
        ensures
            r == (DotsOptions { round_size, ..self }),
    {
        DotsOptions { round_size, ..self }
    }
}

/// Styling of the three finder-pattern rings.
#[derive(Clone, PartialEq, Eq, Debug)]
pub struct CornersSquareOptions {
    /// The ring style.
    pub square_type: CornerSquareType,
    /// Solid fill, ignored when a gradient is set.
    pub color: Color,
    /// Optional gradient fill.
    pub gradient: Option<Gradient>,
}

impl Default for CornersSquareOptions {
    fn default() -> (r: Self)
        ensures
            r.square_type == CornerSquareType::Square,
            r.color == (Color { r: 0, g: 0, b: 0, a: 255 }),
            r.gradient is None,
    {
        CornersSquareOptions {
            square_type: CornerSquareType::Square,
            color: Color::black(),
            gradient: None,
        }
    }
}

impl CornersSquareOptions {
    /// The default ring styling: plain black square rings.
    pub open spec fn spec_default() -> CornersSquareOptions {
        CornersSquareOptions {
            square_type: CornerSquareType::Square,
            color: Color { r: 0, g: 0, b: 0, a: 255 },
            gradient: None,
        }
    }

    /// Default options with the given ring style.
    pub fn new(square_type: CornerSquareType) -> (r: Self)
        ensures
            r.square_type == square_type,
            r.color == (Color { r: 0, g: 0, b: 0, a: 255 }),
            r.gradient is None,
    {
        CornersSquareOptions { square_type, color: Color::black(), gradient: None }
    }

    /// The same options with another ring style.
    pub fn with_type(self, square_type: CornerSquareType) -> (r: Self)
        ensures
            r == (CornersSquareOptions { square_type, ..self }),
    {
        CornersSquareOptions { square_type, ..self }
    }

    /// The same options with another solid color.
    pub fn with_color(self, color: Color) -> (r: Self)
        ensures
            r == (CornersSquareOptions { color, ..self }),
    {
        CornersSquareOptions { color, ..self }
    }

    /// The same options with a gradient fill.
    pub fn with_gradient(self, gradient: Gradient) -> (r: Self)
        ensures
            r.square_type == self.square_type,
            r.color == self.color,
            r.gradient matches Some(g) && g == gradient,
    {
        CornersSquareOptions { gradient: Some(gradient), ..self }
    }
}

/// Styling of the three finder-pattern centers.
#[derive(Clone, PartialEq, Eq, Debug)]
pub struct CornersDotOptions {
    /// The center style.
    pub dot_type: CornerDotType,
    /// Solid fill, ignored when a gradient is set.
    pub color: Color,
    /// Optional gradient fill.
    pub gradient: Option<Gradient>,
}

impl Default for CornersDotOptions {
    fn default() -> (r: Self)
        ensures
            r.dot_type == CornerDotType::Dot,
            r.color == (Color { r: 0, g: 0, b: 0, a: 255 }),
            r.gradient is None,
    {
        CornersDotOptions { dot_type: CornerDotType::Dot, color: Color::black(), gradient: None }
    }
}

impl CornersDotOptions {
    /// The default center styling: black circles.
    pub open spec fn spec_default() -> CornersDotOptions {
        CornersDotOptions {
            dot_type: CornerDotType::Dot,
            color: Color { r: 0, g: 0, b: 0, a: 255 },
            gradient: None,
        }
    }

    /// Default options with the given center style.
    pub fn new(dot_type: CornerDotType) -> (r: Self)
        ensures
            r.dot_type == dot_type,
            r.color == (Color { r: 0, g: 0, b: 0, a: 255 }),
            r.gradient is None,
    {
        CornersDotOptions { dot_type, color: Color::black(), gradient: None }
    }

    /// The same options with another center style.
    pub fn with_type(self, dot_type: CornerDotType) -> (r: Self)
        ensures
            r == (CornersDotOptions { dot_type, ..self }),
    {
        CornersDotOptions { dot_type, ..self }
    }

    /// The same options with another solid color.
    pub fn with_color(self, color: Color) -> (r: Self)
        ensures
            r == (CornersDotOptions { color, ..self }),
    {
        CornersDotOptions { color, ..self }
    }

    /// The same options with a gradient fill.
    pub fn with_gradient(self, gradient: Gradient) -> (r: Self)
        ensures
            r.dot_type == self.dot_type,
            r.color == self.color,
            r.gradient matches Some(g) && g == gradient,
    {
        CornersDotOptions { gradient: Some(gradient), ..self }
    }
}

/// Styling of the canvas background.
#[derive(Clone, PartialEq, Eq, Debug)]
pub struct BackgroundOptions {
    /// Solid fill, ignored when a gradient is set.
    pub color: Color,
    /// Optional gradient fill.
    pub gradient: Option<Gradient>,
    /// Corner rounding in percent of the half height, `0..=50`.
    pub round: u8,
}

impl Default for BackgroundOptions {
    fn default() -> (r: Self)
        ensures
            r.color == (Color { r: 255, g: 255, b: 255, a: 255 }),
            r.gradient is None,
            r.round == 0,
    {
        BackgroundOptions { color: Color::white(), gradient: None, round: 0 }
    }
}

impl BackgroundOptions {
    /// The default background: opaque white, square corners.
    pub open spec fn spec_default() -> BackgroundOptions {
        BackgroundOptions {
            color: Color { r: 255, g: 255, b: 255, a: 255 },
            gradient: None,
            round: 0,
        }
    }

    /// Default options with the given background color.
    pub fn new(color: Color) -> (r: Self)
        ensures
            r.color == color,
            r.gradient is None,
            r.round == 0,
    {
        BackgroundOptions { color, gradient: None, round: 0 }
    }

    /// A fully transparent background.
    pub fn transparent() -> (r: Self)
        ensures
            r.color == (Color { r: 0, g: 0, b: 0, a: 0 }),
            r.gradient is None,
            r.round == 0,
    {
        BackgroundOptions { color: Color::transparent(), gradient: None, round: 0 }
    }

    /// The same options with another solid color.
    pub fn with_color(self, color: Color) -> (r: Self)
        ensures
            r == (BackgroundOptions { color, ..self }),
    {
        BackgroundOptions { color, ..self }
    }

    /// The same options with a gradient fill.
    pub fn with_gradient(self, gradient: Gradient) -> (r: Self)
        ensures
            r.color == self.color,
            r.round == self.round,
            r.gradient matches Some(g) && g == gradient,
    {
        BackgroundOptions { gradient: Some(gradient), ..self }
    }

    /// The same options with corner rounding in percent, clamped to `0..=50`.
    pub fn with_round(self, round: u8) -> (r: Self)
        ensures
            r.color == self.color,
            r.gradient == self.gradient,
            r.round == if round > 50 {
                50int
            } else {
                round as int
            },
    {
        BackgroundOptions { round: if round > 50 { 50 } else { round }, ..self }
    }
}

/// Options for the embedded logo.
#[derive(Clone, PartialEq, Eq, Debug)]
pub struct ImageOptions {
    /// Size of the logo relative to the code, in percent, `0..=100`.
    pub image_size: u8,
    /// Whether modules behind the logo are suppressed.
    pub hide_background_dots: bool,
    /// Margin around the logo in pixels.
    pub margin: u32,
    /// Cross-origin setting for browser contexts.
    pub cross_origin: Option<String>,
    /// Whether the logo is embedded as a data URI.
    pub save_as_blob: bool,
}

impl Default for ImageOptions {
    fn default() -> (r: Self)
        ensures
            r.image_size == 40,
            r.hide_background_dots == true,
            r.margin == 0,
            r.cross_origin is None,
            r.save_as_blob == true,
    {
        ImageOptions {
            image_size: 40,
            hide_background_dots: true,
            margin: 0,
            cross_origin: None,
            save_as_blob: true,
        }
    }
}

impl ImageOptions {
    /// The default logo options: forty percent size, hidden dots, no
    /// margin, embedded as a data URI.
    pub open spec fn spec_default() -> ImageOptions {
        ImageOptions {
            image_size: 40,
            hide_background_dots: true,
            margin: 0,
            cross_origin: None,
            save_as_blob: true,
        }
    }

    /// The default logo options.
    pub fn new() -> (r: Self)
        ensures
            r.image_size == 40,
            r.hide_background_dots == true,
            r.margin == 0,
            r.cross_origin is None,
            r.save_as_blob == true,
    {
        ImageOptions::default()
    }

    /// The same options with the logo size in percent, clamped to `0..=100`.
    pub fn with_image_size(self, size: u8) -> (r: Self)
        ensures
            r.hide_background_dots == self.hide_background_dots,
            r.margin == self.margin,
            r.cross_origin == self.cross_origin,
            r.save_as_blob == self.save_as_blob,
            r.image_size == if size > 100 {
                100int
            } else {
                size as int
            },
    {
        ImageOptions { image_size: if size > 100 { 100 } else { size }, ..self }
    }

    /// The same options with background-dot hiding switched on or off.
    pub fn with_hide_background_dots(self, hide: bool) -> (r: Self)
        ensures
            r == (ImageOptions { hide_background_dots: hide, ..self }),
    {
        ImageOptions { hide_background_dots: hide, ..self }
    }

    /// The same options with another margin.
    pub fn with_margin(self, margin: u32) -> (r: Self)
        ensures
            r == (ImageOptions { margin, ..self }),
    {
        ImageOptions { margin, ..self }
    }

    /// The same options with a cross-origin setting.
    pub fn with_cross_origin(self, cross_origin: String) -> (r: Self)
        ensures
            r.image_size == self.image_size,
            r.hide_background_dots == self.hide_background_dots,
            r.margin == self.margin,
            r.save_as_blob == self.save_as_blob,
            r.cross_origin matches Some(c) && c@ == cross_origin@,
    {
        ImageOptions { cross_origin: Some(cross_origin), ..self }
    }

    /// The same options with data-URI embedding switched on or off.
    pub fn with_save_as_blob(self, save: bool) -> (r: Self)
        ensures
            r == (ImageOptions { save_as_blob: save, ..self }),
    {
        ImageOptions { save_as_blob: save, ..self }
    }
}

/// Options handed to the symbol encoder.
#[derive(Clone, PartialEq, Eq, Debug)]
pub struct QROptions {
    /// Version number: 0 selects the smallest fitting version, 1 to 40 fix it.
    pub type_number: u8,
    /// The error-correction level.
    pub error_correction_level: ErrorCorrectionLevel,
    /// An explicit encoding mode; detected from the data when absent.
    pub mode: Option<Mode>,
}

impl Default for QROptions {
    fn default() -> (r: Self)
        ensures
            r.type_number == 0,
            r.error_correction_level == ErrorCorrectionLevel::Q,
            r.mode is None,
    {
        QROptions { type_number: 0, error_correction_level: ErrorCorrectionLevel::Q, mode: None }
    }
}

impl QROptions {
    /// The default encoder options: automatic version, quartile level.
    pub open spec fn spec_default() -> QROptions {
        QROptions { type_number: 0, error_correction_level: ErrorCorrectionLevel::Q, mode: None }
    }

    /// The default encoder options.
    pub fn new() -> (r: Self)
        ensures
            r.type_number == 0,
            r.error_correction_level == ErrorCorrectionLevel::Q,
            r.mode is None,
    {
        QROptions::default()
    }

    /// The same options with an explicit version, clamped to at most 40.
    pub fn with_type_number(self, type_number: u8) -> (r: Self)
        ensures
            r.error_correction_level == self.error_correction_level,
            r.mode == self.mode,
            r.type_number == if type_number > 40 {
                40int
            } else {
                type_number as int
            },
    {
        QROptions { type_number: if type_number > 40 { 40 } else { type_number }, ..self }
    }

    /// The same options with another error-correction level.
    pub fn with_error_correction_level(self, level: ErrorCorrectionLevel) -> (r: Self)
        ensures
            r == (QROptions { error_correction_level: level, ..self }),
    {
        QROptions { error_correction_level: level, ..self }
    }

    /// The same options with an explicit encoding mode.
    pub fn with_mode(self, mode: Mode) -> (r: Self)
        ensures
            r.type_number == self.type_number,
            r.error_correction_level == self.error_correction_level,
            r.mode matches Some(m) && m == mode,
    {
        QROptions { mode: Some(mode), ..self }
    }
}

/// The aggregate configuration of one rendering.
#[derive(Clone, PartialEq, Eq, Debug)]
pub struct QRCodeStylingOptions {
    /// The data to encode.
    pub data: String,
    /// Canvas width in pixels.
    pub width: u32,
    /// Canvas height in pixels.
    pub height: u32,
    /// Margin around the code in pixels.
    pub margin: u32,
    /// The overall outline.
    pub shape: ShapeType,
    /// Raw bytes of an optional embedded logo.
    pub image: Option<Vec<u8>>,
    /// Encoder options.
    pub qr_options: QROptions,
    /// Module styling.
    pub dots_options: DotsOptions,
    /// Finder-ring styling.
    pub corners_square_options: CornersSquareOptions,
    /// Finder-center styling.
    pub corners_dot_options: CornersDotOptions,
    /// Background styling.
    pub background_options: BackgroundOptions,
    /// Logo embedding options.
    pub image_options: ImageOptions,
}

impl Default for QRCodeStylingOptions {
    fn default() -> (r: Self)
        ensures
            r.data@ == Seq::<char>::empty(),
            r.width == 300,
            r.height == 300,
            r.margin == 0,
            r.shape == ShapeType::Square,
            r.image is None,
    {
        QRCodeStylingOptions {
            data: String::new(),
            width: 300,
            height: 300,
            margin: 0,
            shape: ShapeType::Square,
            image: None,
            qr_options: QROptions::default(),
            dots_options: DotsOptions::default(),
            corners_square_options: CornersSquareOptions::default(),
            corners_dot_options: CornersDotOptions::default(),
            background_options: BackgroundOptions::default(),
            image_options: ImageOptions::default(),
        }
    }
}

/// Collects configuration a piece at a time and validates it on build.
#[derive(Clone, Debug)]
pub struct QRCodeStylingBuilder {
    pub data: Option<String>,
    pub width: Option<u32>,
    pub height: Option<u32>,
    pub margin: Option<u32>,
    pub shape: Option<ShapeType>,
    pub image: Option<Vec<u8>>,
    pub qr_options: Option<QROptions>,
    pub dots_options: Option<DotsOptions>,
    pub corners_square_options: Option<CornersSquareOptions>,
    pub corners_dot_options: Option<CornersDotOptions>,
    pub background_options: Option<BackgroundOptions>,
    pub image_options: Option<ImageOptions>,
}

impl Default for QRCodeStylingBuilder {
    fn default() -> (r: Self)
        ensures
            r == QRCodeStylingBuilder::spec_empty(),
    {
        QRCodeStylingBuilder {
            data: None,
            width: None,
            height: None,
            margin: None,
            shape: None,
            image: None,
            qr_options: None,
            dots_options: None,
            corners_square_options: None,
            corners_dot_options: None,
            background_options: None,
            image_options: None,
        }
    }
}

impl QRCodeStylingBuilder {
    /// The builder with nothing set.
    pub open spec fn spec_empty() -> QRCodeStylingBuilder {
        QRCodeStylingBuilder {
            data: None,
            width: None,
            height: None,
            margin: None,
            shape: None,
            image: None,
            qr_options: None,
            dots_options: None,
            corners_square_options: None,
            corners_dot_options: None,
            background_options: None,
            image_options: None,
        }
    }

    /// A builder with nothing set.
    pub fn new() -> (r: Self)
        ensures
            r == QRCodeStylingBuilder::spec_empty(),
    {
        QRCodeStylingBuilder::default()
    }

    /// The builder with the data to encode set.
    pub fn data(self, data: String) -> (r: Self)
        ensures
            r.data matches Some(d) && d@ == data@,
            r == (QRCodeStylingBuilder { data: r.data, ..self }),
    {
        QRCodeStylingBuilder { data: Some(data), ..self }
    }

    /// The builder with the canvas width set.
    pub fn width(self, width: u32) -> (r: Self)
        ensures
            r == (QRCodeStylingBuilder { width: Some(width), ..self }),
    {
        QRCodeStylingBuilder { width: Some(width), ..self }
    }

    /// The builder with the canvas height set.
    pub fn height(self, height: u32) -> (r: Self)
        ensures
            r == (QRCodeStylingBuilder { height: Some(height), ..self }),
    {
        QRCodeStylingBuilder { height: Some(height), ..self }
    }

    /// The builder with both canvas dimensions set to one value.
    pub fn size(self, size: u32) -> (r: Self)
        ensures
            r == (QRCodeStylingBuilder { width: Some(size), height: Some(size), ..self }),
    {
        QRCodeStylingBuilder { width: Some(size), height: Some(size), ..self }
    }

    /// The builder with the margin set.
    pub fn margin(self, margin: u32) -> (r: Self)
        ensures
            r == (QRCodeStylingBuilder { margin: Some(margin), ..self }),
    {
        QRCodeStylingBuilder { margin: Some(margin), ..self }
    }

    /// The builder with the overall outline set.
    pub fn shape(self, shape: ShapeType) -> (r: Self)
        ensures
            r == (QRCodeStylingBuilder { shape: Some(shape), ..self }),
    {
        QRCodeStylingBuilder { shape: Some(shape), ..self }
    }

    /// The builder with logo bytes set.
    pub fn image(self, image: Vec<u8>) -> (r: Self)
        ensures
            r.image matches Some(i) && i@ == image@,
            r == (QRCodeStylingBuilder { image: r.image, ..self }),
    {
        QRCodeStylingBuilder { image: Some(image), ..self }
    }

    /// The builder with encoder options set.
    pub fn qr_options(self, options: QROptions) -> (r: Self)
        ensures
            r.qr_options matches Some(o) && o == options,
            r == (QRCodeStylingBuilder { qr_options: r.qr_options, ..self }),
    {
        QRCodeStylingBuilder { qr_options: Some(options), ..self }
    }

    /// The builder with module styling set.
    pub fn dots_options(self, options: DotsOptions) -> (r: Self)
        ensures
            r.dots_options matches Some(o) && o == options,
            r == (QRCodeStylingBuilder { dots_options: r.dots_options, ..self }),
    {
        QRCodeStylingBuilder { dots_options: Some(options), ..self }
    }

    /// The builder with finder-ring styling set.
    pub fn corners_square_options(self, options: CornersSquareOptions) -> (r: Self)
        ensures
            r.corners_square_options matches Some(o) && o == options,
            r == (QRCodeStylingBuilder { corners_square_options: r.corners_square_options, ..self }),
    {
        QRCodeStylingBuilder { corners_square_options: Some(options), ..self }
    }

    /// The builder with finder-center styling set.
    pub fn corners_dot_options(self, options: CornersDotOptions) -> (r: Self)
        ensures
            r.corners_dot_options matches Some(o) && o == options,
            r == (QRCodeStylingBuilder { corners_dot_options: r.corners_dot_options, ..self }),
    {
        QRCodeStylingBuilder { corners_dot_options: Some(options), ..self }
    }

    /// The builder with background styling set.
    pub fn background_options(self, options: BackgroundOptions) -> (r: Self)
        ensures
            r.background_options matches Some(o) && o == options,
            r == (QRCodeStylingBuilder { background_options: r.background_options, ..self }),
    {
        QRCodeStylingBuilder { background_options: Some(options), ..self }
    }

    /// The builder with logo embedding options set.
    pub fn image_options(self, options: ImageOptions) -> (r: Self)
        ensures
            r.image_options matches Some(o) && o == options,
            r == (QRCodeStylingBuilder { image_options: r.image_options, ..self }),
    {
        QRCodeStylingBuilder { image_options: Some(options), ..self }
    }

    /// Validates the collected configuration and fills in defaults.
    ///
    /// Fails with the missing-data error when no data, or empty data, was
    /// given, and with the canvas-too-small error when either dimension is
    /// below 21 pixels, the smallest possible module count.
    pub fn build_options(self) -> (res: QRResult<QRCodeStylingOptions>)
        ensures
            res matches Ok(o) ==> {
                &&& self.data matches Some(d) && d@ == o.data@ && d@.len() > 0
                &&& o.width == self.spec_width() && o.width >= 21
                &&& o.height == self.spec_height() && o.height >= 21
                &&& o.margin == (if self.margin is Some {
                    self.margin->Some_0 as int
                } else {
                    0int
                })
                &&& o.shape == (if self.shape is Some {
                    self.shape->Some_0
                } else {
                    ShapeType::Square
                })
                &&& o.image == self.image
                &&& o.qr_options == (if self.qr_options is Some {
                    self.qr_options->Some_0
                } else {
                    QROptions::spec_default()
                })
                &&& o.dots_options == (if self.dots_options is Some {
                    self.dots_options->Some_0
                } else {
                    DotsOptions::spec_default()
                })
                &&& o.corners_square_options == (if self.corners_square_options is Some {
                    self.corners_square_options->Some_0
                } else {
                    CornersSquareOptions::spec_default()
                })
                &&& o.corners_dot_options == (if self.corners_dot_options is Some {
                    self.corners_dot_options->Some_0
                } else {
                    CornersDotOptions::spec_default()
                })
                &&& o.background_options == (if self.background_options is Some {
                    self.background_options->Some_0
                } else {
                    BackgroundOptions::spec_default()
                })
                &&& o.image_options == (if self.image_options is Some {
                    self.image_options->Some_0
                } else {
                    ImageOptions::spec_default()
                })
            },
            res matches Err(e) ==> (e == QRError::MissingData || (e matches
                QRError::CanvasTooSmall { width, height } && width == self.spec_width() && height
                == self.spec_height())),
            res matches Err(e) && e == QRError::MissingData <==> (self.data is None
                || self.data->Some_0@.len() == 0),
            res is Err && !(self.data is None || self.data->Some_0@.len() == 0) <==> (self.data
                is Some && self.data->Some_0@.len() > 0 && (self.spec_width() < 21
                || self.spec_height() < 21)),
    {
        let data = match self.data {
            Some(d) => d,
            None => {
                return Err(QRError::MissingData);
            },
        };
        if data.as_str().is_empty() {
            return Err(QRError::MissingData);
        }
        let width = match self.width {
            Some(w) => w,
            None => 300,
        };
        let height = match self.height {
            Some(h) => h,
            None => 300,
        };
        if width < 21 || height < 21 {
            return Err(QRError::CanvasTooSmall { width, height });
        }
        Ok(
            QRCodeStylingOptions {
                data,
                width,
                height,
                margin: match self.margin {
                    Some(m) => m,
                    None => 0,
                },
                shape: match self.shape {
                    Some(s) => s,
                    None => ShapeType::Square,
                },
                image: self.image,
                qr_options: match self.qr_options {
                    Some(o) => o,
                    None => QROptions::default(),
                },
                dots_options: match self.dots_options {
                    Some(o) => o,
                    None => DotsOptions::default(),
                },
                corners_square_options: match self.corners_square_options {
                    Some(o) => o,
                    None => CornersSquareOptions::default(),
                },
                corners_dot_options: match self.corners_dot_options {
                    Some(o) => o,
                    None => CornersDotOptions::default(),
                },
                background_options: match self.background_options {
                    Some(o) => o,
                    None => BackgroundOptions::default(),
                },
                image_options: match self.image_options {
                    Some(o) => o,
                    None => ImageOptions::default(),
                },
            },
        )
    }

    /// The encoder options the build will use: the set ones, or defaults.
    pub open spec fn spec_qr_options(self) -> QROptions {
        if self.qr_options is Some {
            self.qr_options->Some_0
        } else {
            QROptions::spec_default()
        }
    }

    /// The width the build will use: the set one, or 300.
    pub open spec fn spec_width(self) -> int {
        if self.width is Some {
            self.width->Some_0 as int
        } else {
            300
        }
    }

    /// The height the build will use: the set one, or 300.
    pub open spec fn spec_height(self) -> int {
        if self.height is Some {
            self.height->Some_0 as int
        } else {
            300
        }
    }
}

} // verus!
