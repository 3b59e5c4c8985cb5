//! The main entry point: configuration plus an encoded matrix, rendered to
//! markup on demand.

use vstd::prelude::*;
use vstd::string::StringExecFns;
use crate::composer::{document_post, render_markup, spec_render_req};
use crate::error::{QRError, QRResult};
use crate::matrix::{qr_encoded_modules, qr_encodes, QRMatrix};
use crate::options::{QRCodeStylingBuilder, QRCodeStylingOptions};

verus! {

/// A styled code: its configuration and its encoded matrix, rebuilt
/// whenever the data or generation options change.
pub struct QRCodeStyling {
    options: QRCodeStylingOptions,
    matrix: QRMatrix,
}

impl QRCodeStyling {
    /// The configuration rendered.
    pub closed spec fn spec_options(&self) -> QRCodeStylingOptions {
        self.options
    }

    /// The wrapped matrix.
    pub closed spec fn spec_matrix(&self) -> QRMatrix {
        self.matrix
    }

    /// A fresh builder.
    pub fn builder() -> (r: QRCodeStylingBuilder)
        ensures
            r == QRCodeStylingBuilder::spec_empty(),
    {
        QRCodeStylingBuilder::new()
    }

    /// Encodes the configured data and wraps the result: success comes
    /// exactly where the version is admissible and the encoder succeeds
    /// on the configured data and level.
    pub fn new(options: QRCodeStylingOptions) -> (res: QRResult<QRCodeStyling>)
        ensures
            res is Ok <==> options.qr_options.type_number <= 40 && qr_encodes(
                options.data@,
                options.qr_options.type_number as int,
                options.qr_options.error_correction_level,
            ),
            res matches Ok(q) ==> q.spec_options() == options && q.spec_matrix()@
                == qr_encoded_modules(
                options.data@,
                options.qr_options.type_number as int,
                options.qr_options.error_correction_level,
            ),
            res matches Err(e) ==> (e matches QRError::QRGenerationError(_) || e matches
                QRError::InvalidVersion(_)),
    {
        let matrix = match QRMatrix::new(options.data.as_str(), &options.qr_options) {
            Ok(m) => m,
            Err(e) => {
                return Err(e);
            },
        };
        Ok(QRCodeStyling { options, matrix })
    }

    /// Replaces the data and re-encodes the matrix.
    ///
    /// Success comes exactly where the encoder succeeds on the new data;
    /// a failure leaves the whole state unchanged, so no partial mutation
    /// survives it.
    pub fn update(&mut self, data: String) -> (res: QRResult<()>)
        ensures
            res is Ok <==> old(self).spec_options().qr_options.type_number <= 40 && qr_encodes(
                data@,
                old(self).spec_options().qr_options.type_number as int,
                old(self).spec_options().qr_options.error_correction_level,
            ),
            res is Ok ==> final(self).spec_options().data@ == data@
                && final(self).spec_matrix()@ == qr_encoded_modules(
                data@,
                old(self).spec_options().qr_options.type_number as int,
                old(self).spec_options().qr_options.error_correction_level,
            ),
            res is Err ==> *final(self) == *old(self),
            res matches Err(e) ==> (e matches QRError::QRGenerationError(_) || e matches
                QRError::InvalidVersion(_)),
    {
        match QRMatrix::new(data.as_str(), &self.options.qr_options) {
            Ok(m) => {
                self.options.data = data;
                self.matrix = m;
                Ok(())
            },
            Err(e) => Err(e),
        }
    }

    /// Re-encodes the matrix from the current configuration, as after a
    /// change made through `set_options`.
    pub fn regenerate(&mut self) -> (res: QRResult<()>)
        ensures
            final(self).spec_options() == old(self).spec_options(),
            res is Ok <==> old(self).spec_options().qr_options.type_number <= 40 && qr_encodes(
                old(self).spec_options().data@,
                old(self).spec_options().qr_options.type_number as int,
                old(self).spec_options().qr_options.error_correction_level,
            ),
            res is Ok ==> final(self).spec_matrix()@ == qr_encoded_modules(
                old(self).spec_options().data@,
                old(self).spec_options().qr_options.type_number as int,
                old(self).spec_options().qr_options.error_correction_level,
            ),
            res is Err ==> final(self).spec_matrix() == old(self).spec_matrix(),
            res matches Err(e) ==> (e matches QRError::QRGenerationError(_) || e matches
                QRError::InvalidVersion(_)),
    {
        match QRMatrix::new(self.options.data.as_str(), &self.options.qr_options) {
            Ok(m) => {
                self.matrix = m;
                Ok(())
            },
            Err(e) => Err(e),
        }
    }

    /// The number of modules per side of the encoded matrix.
    pub fn module_count(&self) -> (r: usize)
        ensures
            21 <= r <= 177,
            r == self.spec_matrix().spec_size(),
    {
        self.matrix.module_count()
    }

    /// The current configuration.
    pub fn options(&self) -> (r: &QRCodeStylingOptions)
        ensures
            *r == self.spec_options(),
    {
        &self.options
    }

    /// Replaces the configuration, leaving the matrix as it was; call
    /// `regenerate` afterwards when the data or generation options
    /// changed.
    pub fn set_options(&mut self, options: QRCodeStylingOptions)
        ensures
            final(self).spec_options() == options,
            final(self).spec_matrix() == old(self).spec_matrix(),
    {
        self.options = options;
    }

    /// Renders the code as complete markup, with instance number zero in
    /// the definition names: documents that will be concatenated should
    /// be rendered through `render_svg_with_id` with distinct numbers
    /// instead, so their definition names never clash.
    pub fn render_svg(&self) -> (res: QRResult<String>)
        requires
            spec_render_req(self.spec_options()),
        ensures
            res matches Ok(s) && exists|doc: crate::svg::SvgDocument|
                #[trigger] document_post(self.spec_options(), 0, self.spec_matrix(), doc) && s@
                    == crate::svg::spec_document_markup(doc),
    {
        let res = render_markup(&self.options, 0, &self.matrix);
        proof {
            let s = res->Ok_0;
            let doc = choose|doc: crate::svg::SvgDocument|
                #[trigger] document_post(self.options, 0, self.matrix, doc) && s@
                    == crate::svg::spec_document_markup(doc);
            assert(document_post(self.spec_options(), 0, self.spec_matrix(), doc) && s@
                == crate::svg::spec_document_markup(doc));
        }
        res
    }

    /// Renders the code as complete markup with an explicit instance
    /// number, for callers producing several documents.
    pub fn render_svg_with_id(&self, instance_id: u64) -> (res: QRResult<String>)
        requires
            spec_render_req(self.spec_options()),
        ensures
            res matches Ok(s) && exists|doc: crate::svg::SvgDocument|
                #[trigger] document_post(self.spec_options(), instance_id as int, self.spec_matrix(), doc)
                    && s@ == crate::svg::spec_document_markup(doc),
    {
        let res = render_markup(&self.options, instance_id, &self.matrix);
        proof {
            let s = res->Ok_0;
            let doc = choose|doc: crate::svg::SvgDocument|
                #[trigger] document_post(self.options, instance_id as int, self.matrix, doc) && s@
                    == crate::svg::spec_document_markup(doc);
            assert(document_post(self.spec_options(), instance_id as int, self.spec_matrix(), doc)
                && s@ == crate::svg::spec_document_markup(doc));
        }
        res
    }
}

impl QRCodeStylingBuilder {
    /// Validates the configuration and encodes the data.
    ///
    /// Success comes exactly where data was set and non-empty, both canvas
    /// dimensions reach the smallest module count, the version is
    /// admissible, and the encoder succeeds on the configured data.
    pub fn build(self) -> (res: QRResult<QRCodeStyling>)
        ensures
            res is Ok <==> self.data is Some && self.data->Some_0@.len() > 0 && self.spec_width()
                >= 21 && self.spec_height() >= 21 && self.spec_qr_options().type_number <= 40
                && qr_encodes(
                self.data->Some_0@,
                self.spec_qr_options().type_number as int,
                self.spec_qr_options().error_correction_level,
            ),
            res matches Ok(q) ==> q.spec_options().width >= 21 && q.spec_options().height >= 21
                && q.spec_options().data@.len() > 0,
            (self.data is None || self.data->Some_0@.len() == 0) ==> (res matches Err(e) && e
                == QRError::MissingData),
            self.data is Some && self.data->Some_0@.len() > 0 && (self.spec_width() < 21
                || self.spec_height() < 21) ==> (res matches Err(e) && (e matches
                QRError::CanvasTooSmall { width, height } && width == self.spec_width() && height
                == self.spec_height())),
    {
        let options = match self.build_options() {
            Ok(o) => o,
            Err(e) => {
                return Err(e);
            },
        };
        QRCodeStyling::new(options)
    }
}

} // verus!
