//! The matrix view: a bounds-safe wrapper around the encoder's bit grid,
//! with neighbor queries and finder-pattern classification.

use vstd::prelude::*;
use crate::error::{QRError, QRResult};
use crate::options::QROptions;
use crate::types::ErrorCorrectionLevel;

verus! {

#[verifier::external_type_specification]
#[verifier::external_body]
pub struct ExQrCode(qrcode::QrCode);

#[verifier::external_type_specification]
#[verifier::external_body]
pub struct ExQrError(qrcode::types::QrError);

/// The modules of an encoded symbol, row by row, dark as true.
pub uninterp spec fn qr_modules_of(q: qrcode::QrCode) -> Seq<bool>;

/// The number of modules per side of an encoded symbol.
pub uninterp spec fn qr_width_of(q: qrcode::QrCode) -> int;

/// Whether the encoder succeeds on this data, version and level: zero
/// stands for automatic version selection. Encoding is a function of its
/// arguments alone, so the outcome is fixed by them.
pub uninterp spec fn qr_encodes(data: Seq<char>, version: int, level: ErrorCorrectionLevel) -> bool;

/// The modules the encoder produces on this data, version and level,
/// row by row; meaningful where the encoder succeeds.
pub uninterp spec fn qr_encoded_modules(
    data: Seq<char>,
    version: int,
    level: ErrorCorrectionLevel,
) -> Seq<bool>;

/// Relies on qrcode::QrCode::with_error_correction_level: encodes the data
/// at the smallest fitting normal version; a normal version `v` in 1..=40
/// has width `17 + 4*v`, the modules are one color per cell, and the whole
/// computation depends on the data and level alone.
#[verifier::external_body]
fn qr_encode_auto(data: &str, level: ErrorCorrectionLevel) -> (r: Result<
    qrcode::QrCode,
    qrcode::types::QrError,
>)
    ensures
        r is Ok <==> qr_encodes(data@, 0, level),
        r matches Ok(q) ==> 21 <= qr_width_of(q) <= 177 && qr_width_of(q) % 4 == 1
            && qr_modules_of(q).len() == qr_width_of(q) * qr_width_of(q) && qr_modules_of(q)
            == qr_encoded_modules(data@, 0, level),
{
    let ec = match level {
        ErrorCorrectionLevel::L => qrcode::EcLevel::L,
        ErrorCorrectionLevel::M => qrcode::EcLevel::M,
        ErrorCorrectionLevel::Q => qrcode::EcLevel::Q,
        ErrorCorrectionLevel::H => qrcode::EcLevel::H,
    };
    qrcode::QrCode::with_error_correction_level(data.as_bytes(), ec)
}

/// Relies on qrcode::QrCode::with_version: encodes at a fixed normal
/// version in 1..=40, whose width is `17 + 4*version`; the whole
/// computation depends on the data, version and level alone.
#[verifier::external_body]
fn qr_encode_with_version(data: &str, version: u8, level: ErrorCorrectionLevel) -> (r: Result<
    qrcode::QrCode,
    qrcode::types::QrError,
>)
    requires
        1 <= version <= 40,
    ensures
        r is Ok <==> qr_encodes(data@, version as int, level),
        r matches Ok(q) ==> qr_width_of(q) == 17 + 4 * (version as int) && qr_modules_of(q).len()
            == qr_width_of(q) * qr_width_of(q) && qr_modules_of(q) == qr_encoded_modules(
            data@,
            version as int,
            level,
        ),
{
    let ec = match level {
        ErrorCorrectionLevel::L => qrcode::EcLevel::L,
        ErrorCorrectionLevel::M => qrcode::EcLevel::M,
        ErrorCorrectionLevel::Q => qrcode::EcLevel::Q,
        ErrorCorrectionLevel::H => qrcode::EcLevel::H,
    };
    qrcode::QrCode::with_version(data.as_bytes(), qrcode::Version::Normal(version as i16), ec)
}

/// Relies on qrcode::QrCode::width: the number of modules per side.
#[verifier::external_body]
fn qr_width(q: &qrcode::QrCode) -> (w: usize)
    ensures
        w == qr_width_of(*q),
{
    q.width()
}

/// Relies on qrcode::QrCode::to_colors: the modules in row-major order,
/// mapped to true exactly for dark cells.
#[verifier::external_body]
fn qr_modules(q: &qrcode::QrCode) -> (v: Vec<bool>)
    ensures
        v@ == qr_modules_of(*q),
{
    q.to_colors().into_iter().map(|c| matches!(c, qrcode::Color::Dark)).collect()
}

/// Relies on the Display impl of qrcode::types::QrError, which writes one
/// of five fixed messages.
#[verifier::external_body]
fn qr_error_text(e: &qrcode::types::QrError) -> (s: String)
    ensures
        s@ == "data too long"@ || s@ == "invalid version"@ || s@ == "unsupported character set"@
            || s@ == "invalid ECI designator"@ || s@ == "invalid character"@,
{
    e.to_string()
}

/// Whether `(row, col)` lies in one of the three fixed 7-by-7 finder
/// regions of a grid with the given side: top left, top right, bottom left.
pub open spec fn spec_is_finder(size: int, row: int, col: int) -> bool {
    (row < 7 && col < 7) || (row < 7 && col >= size - 7) || (row >= size - 7 && col < 7)
}

/// Whether `(row, col)` lies on the one-module border ring of a finder
/// region: its local coordinate in the 0..=6 frame is 0 or 6.
pub open spec fn spec_is_finder_outer(size: int, row: int, col: int) -> bool {
    if row < 7 && col < 7 {
        row == 0 || row == 6 || col == 0 || col == 6
    } else if row < 7 && col >= size - 7 {
        row == 0 || row == 6 || col - (size - 7) == 0 || col - (size - 7) == 6
    } else if row >= size - 7 && col < 7 {
        row - (size - 7) == 0 || row - (size - 7) == 6 || col == 0 || col == 6
    } else {
        false
    }
}

/// Whether `(row, col)` lies in the 3-by-3 center of a finder region:
/// both local coordinates are in 2..=4.
pub open spec fn spec_is_finder_inner(size: int, row: int, col: int) -> bool {
    if row < 7 && col < 7 {
        2 <= row <= 4 && 2 <= col <= 4
    } else if row < 7 && col >= size - 7 {
        2 <= row <= 4 && 2 <= col - (size - 7) <= 4
    } else if row >= size - 7 && col < 7 {
        2 <= row - (size - 7) <= 4 && 2 <= col <= 4
    } else {
        false
    }
}

/// The outer-ring and inner-dot masks lie inside the finder regions and
/// never overlap: they partition each finder region disjointly.
pub proof fn lemma_finder_partition(size: int, row: int, col: int)
    requires
        size >= 21,
        0 <= row,
        0 <= col,
    ensures
        spec_is_finder_outer(size, row, col) ==> spec_is_finder(size, row, col),
        spec_is_finder_inner(size, row, col) ==> spec_is_finder(size, row, col),
        !(spec_is_finder_outer(size, row, col) && spec_is_finder_inner(size, row, col)),
{
}

/// An immutable square grid of modules with constant-time access.
#[derive(Debug)]
pub struct QRMatrix {
    /// The modules, row by row; true is dark.
    modules: Vec<bool>,
    /// The number of modules per side.
    size: usize,
}

impl View for QRMatrix {
    type V = Seq<bool>;

    closed spec fn view(&self) -> Seq<bool> {
        self.modules@
    }
}

impl QRMatrix {
    #[verifier::type_invariant]
    spec fn type_inv(self) -> bool {
        &&& self.modules@.len() == self.size * self.size
        &&& 21 <= self.size <= 177
    }

    /// The number of modules per side.
    pub closed spec fn spec_size(&self) -> int {
        self.size as int
    }

    /// Whether the module at `(row, col)` is dark; out-of-range
    /// coordinates are light.
    pub open spec fn spec_is_dark(&self, row: int, col: int) -> bool {
        0 <= row < self.spec_size() && 0 <= col < self.spec_size() && self@[row * self.spec_size()
            + col]
    }

    /// Whether the signed coordinate is in range and dark.
    pub open spec fn spec_is_dark_signed(&self, row: int, col: int) -> bool {
        row >= 0 && col >= 0 && self.spec_is_dark(row, col)
    }

    /// Encodes the data and wraps the resulting grid.
    ///
    /// A zero version number lets the encoder pick the smallest fitting
    /// version; an explicit version above 40 is rejected; an encoder
    /// failure is surfaced as a generation error with its message. Success
    /// comes exactly where the encoder succeeds on these arguments, and
    /// the wrapped modules are exactly the encoder's output.
    pub fn new(data: &str, options: &QROptions) -> (res: QRResult<QRMatrix>)
        ensures
            res is Ok <==> options.type_number <= 40 && qr_encodes(
                data@,
                options.type_number as int,
                options.error_correction_level,
            ),
            res matches Ok(m) ==> 21 <= m.spec_size() <= 177 && (m.spec_size() - 21) % 4 == 0
                && m@.len() == m.spec_size() * m.spec_size() && m@ == qr_encoded_modules(
                data@,
                options.type_number as int,
                options.error_correction_level,
            ),
            res matches Err(e) ==> (e matches QRError::QRGenerationError(_) || e matches
                QRError::InvalidVersion(_)),
            options.type_number > 40 <==> (res matches Err(e) && (e matches QRError::InvalidVersion(
                v,
            ) && v == options.type_number)),
    {
        let encoded: Result<qrcode::QrCode, qrcode::types::QrError> = if options.type_number == 0 {
            qr_encode_auto(data, options.error_correction_level)
        } else if options.type_number <= 40 {
            qr_encode_with_version(data, options.type_number, options.error_correction_level)
        } else {
            return Err(QRError::InvalidVersion(options.type_number));
        };
        match encoded {
            Ok(q) => {
                let size = qr_width(&q);
                let modules = qr_modules(&q);
                Ok(QRMatrix { modules, size })
            },
            Err(e) => {
                let text = qr_error_text(&e);
                Err(QRError::QRGenerationError(text))
            },
        }
    }

    /// The number of modules per side.
    pub fn size(&self) -> (r: usize)
        ensures
            r == self.spec_size(),
            21 <= r <= 177,
    {
        proof {
            use_type_invariant(&*self);
        }
        self.size
    }

    /// The number of modules per side.
    pub fn module_count(&self) -> (r: usize)
        ensures
            r == self.spec_size(),
            21 <= r <= 177,
    {
        self.size()
    }

    /// Whether the module at `(row, col)` is dark; out of range is light.
    pub fn is_dark(&self, row: usize, col: usize) -> (r: bool)
        ensures
            r == self.spec_is_dark(row as int, col as int),
    {
        proof {
            use_type_invariant(&*self);
        }
        if row >= self.size || col >= self.size {
            return false;
        }
        proof {
            assert(row * self.size + col < self.size * self.size && row * self.size + col
                < 0x10000) by (nonlinear_arith)
                requires
                    row < self.size,
                    col < self.size,
                    self.size <= 177,
            ;
        }
        self.modules[row * self.size + col]
    }

    /// Whether a signed coordinate is in range and dark.
    pub fn is_dark_signed(&self, row: i32, col: i32) -> (r: bool)
        ensures
            r == self.spec_is_dark_signed(row as int, col as int),
    {
        if row < 0 || col < 0 {
            return false;
        }
        self.is_dark(row as usize, col as usize)
    }

    /// The state of the module offset from `(row, col)` by the signed
    /// offsets, column offset first; out of range is light.
    pub fn get_neighbor(&self, row: i32, col: i32, offset_x: i32, offset_y: i32) -> (r: bool)
        requires
            i32::MIN <= row + offset_y <= i32::MAX,
            i32::MIN <= col + offset_x <= i32::MAX,
        ensures
            r == self.spec_is_dark_signed(row + offset_y, col + offset_x),
    {
        self.is_dark_signed(row + offset_y, col + offset_x)
    }

    /// Whether `(row, col)` lies in one of the three finder regions.
    pub fn is_finder_pattern(&self, row: usize, col: usize) -> (r: bool)
        ensures
            r == spec_is_finder(self.spec_size(), row as int, col as int),
    {
        proof {
            use_type_invariant(&*self);
        }
        let size = self.size;
        (row < 7 && col < 7) || (row < 7 && col >= size - 7) || (row >= size - 7 && col < 7)
    }

    /// Whether `(row, col)` lies on the border ring of a finder region.
    pub fn is_finder_pattern_outer(&self, row: usize, col: usize) -> (r: bool)
        ensures
            r == spec_is_finder_outer(self.spec_size(), row as int, col as int),
    {
        proof {
            use_type_invariant(&*self);
        }
        let size = self.size;
        if row < 7 && col < 7 {
            row == 0 || row == 6 || col == 0 || col == 6
        } else if row < 7 && col >= size - 7 {
            let local_col = col - (size - 7);
            row == 0 || row == 6 || local_col == 0 || local_col == 6
        } else if row >= size - 7 && col < 7 {
            let local_row = row - (size - 7);
            local_row == 0 || local_row == 6 || col == 0 || col == 6
        } else {
            false
        }
    }

    /// Whether `(row, col)` lies in the 3-by-3 center of a finder region.
    pub fn is_finder_pattern_inner(&self, row: usize, col: usize) -> (r: bool)
        ensures
            r == spec_is_finder_inner(self.spec_size(), row as int, col as int),
    {
        proof {
            use_type_invariant(&*self);
        }
        let size = self.size;
        if row < 7 && col < 7 {
            2 <= row && row <= 4 && 2 <= col && col <= 4
        } else if row < 7 && col >= size - 7 {
            let local_col = col - (size - 7);
            2 <= row && row <= 4 && 2 <= local_col && local_col <= 4
        } else if row >= size - 7 && col < 7 {
            let local_row = row - (size - 7);
            2 <= local_row && local_row <= 4 && 2 <= col && col <= 4
        } else {
            false
        }
    }
}

} // verus!
