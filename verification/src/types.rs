//! Closed style enumerations: dot, corner, gradient, shape, output and
//! error-correction variants.

use vstd::prelude::*;
use vstd::string::StringSliceAdditionalSpecFns;

verus! {

/// The visual style of an ordinary module.
#[derive(Clone, Copy, PartialEq, Eq, Structural, Debug)]
pub enum DotType {
    /// Plain squares.
    Square,
    /// Circles.
    Dots,
    /// Squares whose corners round off away from neighbors.
    Rounded,
    /// One sharply rounded corner chosen from the diagonal neighbors.
    Classy,
    /// The classy rule with a fully rounded corner.
    ClassyRounded,
    /// The rounded rule with a fully rounded corner.
    ExtraRounded,
}

impl Default for DotType {
    fn default() -> (r: Self)
        ensures
            r == DotType::Square,
    {
        DotType::Square
    }
}

impl DotType {
    /// Every dot style, in a fixed order.
    pub fn all() -> (r: Vec<DotType>)
        ensures
            r@ == seq![
                DotType::Square,
                DotType::Dots,
                DotType::Rounded,
                DotType::Classy,
                DotType::ClassyRounded,
                DotType::ExtraRounded,
            ],
    {
        let v = vec![
            DotType::Square,
            DotType::Dots,
            DotType::Rounded,
            DotType::Classy,
            DotType::ClassyRounded,
            DotType::ExtraRounded,
        ];
        proof {
            assert(v@ =~= seq![
                DotType::Square,
                DotType::Dots,
                DotType::Rounded,
                DotType::Classy,
                DotType::ClassyRounded,
                DotType::ExtraRounded,
            ]);
        }
        v
    }
}

/// The visual style of a finder-pattern ring.
#[derive(Clone, Copy, PartialEq, Eq, Structural, Debug)]
pub enum CornerSquareType {
    /// A square ring.
    Square,
    /// A circular ring.
    Dot,
    /// A ring with fully rounded corners.
    ExtraRounded,
}

impl Default for CornerSquareType {
    fn default() -> (r: Self)
        ensures
            r == CornerSquareType::Square,
    {
        CornerSquareType::Square
    }
}

impl CornerSquareType {
    /// Every corner-square style, in a fixed order.
    pub fn all() -> (r: Vec<CornerSquareType>)
        ensures
            r@ == seq![
                CornerSquareType::Square,
                CornerSquareType::Dot,
                CornerSquareType::ExtraRounded,
            ],
    {
        let v = vec![
            CornerSquareType::Square,
            CornerSquareType::Dot,
            CornerSquareType::ExtraRounded,
        ];
        proof {
            assert(v@ =~= seq![
                CornerSquareType::Square,
                CornerSquareType::Dot,
                CornerSquareType::ExtraRounded,
            ]);
        }
        v
    }
}

/// The visual style of a finder-pattern center.
#[derive(Clone, Copy, PartialEq, Eq, Structural, Debug)]
pub enum CornerDotType {
    /// A filled circle.
    Dot,
    /// A filled square.
    Square,
}

impl Default for CornerDotType {
    fn default() -> (r: Self)
        ensures
            r == CornerDotType::Dot,
    {
        CornerDotType::Dot
    }
}

impl CornerDotType {
    /// Every corner-dot style, in a fixed order.
    pub fn all() -> (r: Vec<CornerDotType>)
        ensures
            r@ == seq![CornerDotType::Dot, CornerDotType::Square],
    {
        let v = vec![CornerDotType::Dot, CornerDotType::Square];
        proof {
            assert(v@ =~= seq![CornerDotType::Dot, CornerDotType::Square]);
        }
        v
    }
}

/// Whether a paint ramps along a line or out from a center.
#[derive(Clone, Copy, PartialEq, Eq, Structural, Debug)]
pub enum GradientType {
    Linear,
    Radial,
}

impl Default for GradientType {
    fn default() -> (r: Self)
        ensures
            r == GradientType::Linear,
    {
        GradientType::Linear
    }
}

/// The overall outline of the rendered code.
#[derive(Clone, Copy, PartialEq, Eq, Structural, Debug)]
pub enum ShapeType {
    /// The plain square grid.
    Square,
    /// A circular outline filled out with synthesized edge dots.
    Circle,
}

impl Default for ShapeType {
    fn default() -> (r: Self)
        ensures
            r == ShapeType::Square,
    {
        ShapeType::Square
    }
}

/// A target format for a rendered document.
#[derive(Clone, Copy, PartialEq, Eq, Structural, Debug)]
pub enum OutputFormat {
    Svg,
    Png,
    Jpeg,
    WebP,
    Pdf,
}

impl Default for OutputFormat {
    fn default() -> (r: Self)
        ensures
            r == OutputFormat::Svg,
    {
        OutputFormat::Svg
    }
}

impl OutputFormat {
    /// The MIME type of this format.
    pub fn mime_type(&self) -> (r: &'static str)
        ensures
            *self == OutputFormat::Svg ==> r@ == "image/svg+xml"@,
            *self == OutputFormat::Png ==> r@ == "image/png"@,
            *self == OutputFormat::Jpeg ==> r@ == "image/jpeg"@,
            *self == OutputFormat::WebP ==> r@ == "image/webp"@,
            *self == OutputFormat::Pdf ==> r@ == "application/pdf"@,
    {
        match self {
            OutputFormat::Svg => "image/svg+xml",
            OutputFormat::Png => "image/png",
            OutputFormat::Jpeg => "image/jpeg",
            OutputFormat::WebP => "image/webp",
            OutputFormat::Pdf => "application/pdf",
        }
    }

    /// The usual file extension of this format.
    pub fn extension(&self) -> (r: &'static str)
        ensures
            *self == OutputFormat::Svg ==> r@ == "svg"@,
            *self == OutputFormat::Png ==> r@ == "png"@,
            *self == OutputFormat::Jpeg ==> r@ == "jpeg"@,
            *self == OutputFormat::WebP ==> r@ == "webp"@,
            *self == OutputFormat::Pdf ==> r@ == "pdf"@,
    {
        match self {
            OutputFormat::Svg => "svg",
            OutputFormat::Png => "png",
            OutputFormat::Jpeg => "jpeg",
            OutputFormat::WebP => "webp",
            OutputFormat::Pdf => "pdf",
        }
    }
}

/// An error-correction level, by rising redundancy.
#[derive(Clone, Copy, PartialEq, Eq, Structural, Debug)]
pub enum ErrorCorrectionLevel {
    /// About 7% recovery.
    L,
    /// About 15% recovery.
    M,
    /// About 25% recovery.
    Q,
    /// About 30% recovery.
    H,
}

impl Default for ErrorCorrectionLevel {
    fn default() -> (r: Self)
        ensures
            r == ErrorCorrectionLevel::Q,
    {
        ErrorCorrectionLevel::Q
    }
}

impl ErrorCorrectionLevel {
    /// The recovery budget of this level, in whole percent.
    pub fn percentage(&self) -> (r: u32)
        ensures
            r == self.spec_percentage(),
    {
        match self {
            ErrorCorrectionLevel::L => 7,
            ErrorCorrectionLevel::M => 15,
            ErrorCorrectionLevel::Q => 25,
            ErrorCorrectionLevel::H => 30,
        }
    }

    /// The recovery budget of this level, in whole percent.
    pub open spec fn spec_percentage(&self) -> int {
        match self {
            ErrorCorrectionLevel::L => 7,
            ErrorCorrectionLevel::M => 15,
            ErrorCorrectionLevel::Q => 25,
            ErrorCorrectionLevel::H => 30,
        }
    }
}

/// An encoding character set.
#[derive(Clone, Copy, PartialEq, Eq, Structural, Debug)]
pub enum Mode {
    /// Digits only.
    Numeric,
    /// Digits, upper-case letters and a few punctuation marks.
    Alphanumeric,
    /// Arbitrary eight-bit data.
    Byte,
    /// Kanji characters.
    Kanji,
}

/// Whether a byte is a decimal digit.
pub open spec fn is_numeric_byte(b: u8) -> bool {
    48 <= b <= 57
}

/// Whether a byte belongs to the restricted alphanumeric charset:
/// digits, upper-case letters, space, and `$ % * + - . / :`.
pub open spec fn is_alphanumeric_byte(b: u8) -> bool {
    is_numeric_byte(b) || (65 <= b <= 90) || b == 32 || b == 36 || b == 37 || b == 42 || b == 43
        || b == 45 || b == 46 || b == 47 || b == 58
}

/// The mode that fits every byte of the data: numeric when all are digits,
/// alphanumeric when all are in the restricted charset, byte otherwise.
pub open spec fn spec_detect(bytes: Seq<u8>) -> Mode {
    if forall|i: int| 0 <= i < bytes.len() ==> is_numeric_byte(#[trigger] bytes[i]) {
        Mode::Numeric
    } else if forall|i: int| 0 <= i < bytes.len() ==> is_alphanumeric_byte(#[trigger] bytes[i]) {
        Mode::Alphanumeric
    } else {
        Mode::Byte
    }
}

impl Mode {
    /// Picks the tightest charset that covers the data's encoded bytes.
    pub fn detect(data: &str) -> (r: Mode)
        ensures
            r == spec_detect(data.spec_bytes()),
    {
        let bytes = data.as_bytes();
        let mut all_numeric = true;
        let mut all_alphanumeric = true;
        let n = bytes.len();
        let mut i: usize = 0;
        while i < n
            invariant
                n == bytes.len(),
                0 <= i <= n,
                all_numeric <==> (forall|j: int|
                    0 <= j < i ==> is_numeric_byte(#[trigger] bytes[j])),
                all_alphanumeric <==> (forall|j: int|
                    0 <= j < i ==> is_alphanumeric_byte(#[trigger] bytes[j])),
            decreases n - i,
        {
            let b = bytes[i];
            if !(48 <= b && b <= 57) {
                all_numeric = false;
            }
            if !((48 <= b && b <= 57) || (65 <= b && b <= 90) || b == 32 || b == 36 || b == 37
                || b == 42 || b == 43 || b == 45 || b == 46 || b == 47 || b == 58) {
                all_alphanumeric = false;
            }
            i += 1;
        }
        if all_numeric {
            Mode::Numeric
        } else if all_alphanumeric {
            Mode::Alphanumeric
        } else {
            Mode::Byte
        }
    }
}

} // verus!
