//! Typed failures for building options, encoding and rendering.

use vstd::prelude::*;
use vstd::string::StrSliceExecFns;
use vstd::string::StringExecFns;
use crate::num_fmt::{dec_u32, spec_dec};

verus! {

/// A failure while building options, generating the symbol, or rendering.
#[derive(Debug, Clone, PartialEq, Eq)]
pub enum QRError {
    /// No data, or empty data, was provided.
    MissingData,
    /// The data needs more capacity than the fixed version offers.
    DataTooLarge,
    /// An explicit version outside 1..=40 was requested.
    InvalidVersion(u8),
    /// The canvas is below the smallest possible module count.
    CanvasTooSmall { width: u32, height: u32 },
    /// A color string that is not 3, 6 or 8 hexadecimal digits.
    InvalidColor(String),
    /// A gradient without color stops where stops are required.
    EmptyGradient,
    /// An image could not be decoded.
    ImageLoadError(String),
    /// An image could not be encoded.
    ImageEncodeError(String),
    /// An underlying input/output failure.
    IoError(String),
    /// A failure inside an image-processing backend.
    ImageError(String),
    /// The encoder reported a generation failure.
    QRGenerationError(String),
    /// Markup could not be parsed by a format adapter.
    SvgError(String),
}

/// A result carrying a [`QRError`] on failure.
pub type QRResult<T> = Result<T, QRError>;

/// The message text of an error, by variant.
pub open spec fn spec_message(e: QRError) -> Seq<char> {
    match e {
        QRError::MissingData => "No data provided for QR code"@,
        QRError::DataTooLarge => "Data too large for QR code: data requires more capacity than available"@,
        QRError::InvalidVersion(v) => "Invalid QR code version: "@ + spec_dec(v as int),
        QRError::CanvasTooSmall { width, height } => "Canvas dimensions too small: "@ + spec_dec(
            width as int,
        ) + "x"@ + spec_dec(height as int),
        QRError::InvalidColor(c) => "Invalid color format: "@ + c@,
        QRError::EmptyGradient => "Gradient must have at least one color stop"@,
        QRError::ImageLoadError(m) => "Failed to load image: "@ + m@,
        QRError::ImageEncodeError(m) => "Failed to encode image: "@ + m@,
        QRError::IoError(m) => "IO error: "@ + m@,
        QRError::ImageError(m) => "Image processing error: "@ + m@,
        QRError::QRGenerationError(m) => "QR code generation failed: "@ + m@,
        QRError::SvgError(m) => "SVG rendering error: "@ + m@,
    }
}

impl QRError {
    /// A human-readable description of the failure.
    pub fn message(&self) -> (s: String)
        ensures
            s@ == spec_message(*self),
    {
        match self {
            QRError::MissingData => "No data provided for QR code".to_owned(),
            QRError::DataTooLarge => "Data too large for QR code: data requires more capacity than available".to_owned(),
            QRError::InvalidVersion(v) => {
                let mut s = "Invalid QR code version: ".to_owned();
                let d = dec_u32(*v as u32);
                s.append(d.as_str());
                s
            },
            QRError::CanvasTooSmall { width, height } => {
                let mut s = "Canvas dimensions too small: ".to_owned();
                let w = dec_u32(*width);
                s.append(w.as_str());
                s.append("x");
                let h = dec_u32(*height);
                s.append(h.as_str());
                s
            },
            QRError::InvalidColor(c) => {
                let mut s = "Invalid color format: ".to_owned();
                s.append(c.as_str());
                s
            },
            QRError::EmptyGradient => "Gradient must have at least one color stop".to_owned(),
            QRError::ImageLoadError(m) => {
                let mut s = "Failed to load image: ".to_owned();
                s.append(m.as_str());
                s
            },
            QRError::ImageEncodeError(m) => {
                let mut s = "Failed to encode image: ".to_owned();
                s.append(m.as_str());
                s
            },
            QRError::IoError(m) => {
                let mut s = "IO error: ".to_owned();
                s.append(m.as_str());
                s
            },
            QRError::ImageError(m) => {
                let mut s = "Image processing error: ".to_owned();
                s.append(m.as_str());
                s
            },
            QRError::QRGenerationError(m) => {
                let mut s = "QR code generation failed: ".to_owned();
                s.append(m.as_str());
                s
            },
            QRError::SvgError(m) => {
                let mut s = "SVG rendering error: ".to_owned();
                s.append(m.as_str());
                s
            },
        }
    }
}

} // verus!
