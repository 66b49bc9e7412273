//! Core of an office-document-to-page-image conversion pipeline.
//!
//! The heart of this crate is the resource-bounded worker pool that manages
//! concurrent invocations of an external document converter, and the
//! orchestration rules that compose pool access with a rasterize/encode
//! stage under several concurrency modes. The external tools themselves
//! (document-to-PDF conversion, PDF rasterization) are collaborators that a
//! host program drives; this crate holds and verifies every decision the
//! pipeline makes: admission control, instance bookkeeping, error
//! classification, batch aggregation, progress reporting, pixel scaling,
//! background compositing and output naming.

use vstd::prelude::*;

pub mod config;
pub mod converter;
pub mod error;
pub mod fonts;
pub mod pdf_renderer;
pub mod pool;
pub mod styles;
pub mod text;
pub mod xlsx;

pub use config::{
    BatchResult, ConversionProgress, ConversionRequest, ConversionStage, ConverterConfig,
    FailedFile, FileResult, PngPage, PoolConfig, RenderConfig, Rgb,
};
pub use converter::{ConversionOutcome, Converter, ConverterBuilder, ConverterStats};
pub use error::{ConvResult, ConversionError};
pub use fonts::{FontData, FontManager, FontStyle, FontVariant, FontWeight};
pub use pdf_renderer::{PageInfo, PdfInfo, PdfRenderer, RawPage};
pub use pool::{InstanceHealth, LibreOfficeInstance, LibreOfficePool, PoolHealth, ToolOutcome};
pub use styles::{BorderType, HorizontalAlign, PatternType, TextAlign, VerticalAlign};
pub use xlsx::{column_to_letter, parse_cell_range, parse_cell_ref, XlsxError};

verus! {

/// Holds exactly when `ext` names one of the supported office formats,
/// compared ASCII-case-insensitively.
pub open spec fn supported_extension(ext: Seq<char>) -> bool {
    ||| text::eq_ignore_ascii_case(ext, "docx"@)
    ||| text::eq_ignore_ascii_case(ext, "doc"@)
    ||| text::eq_ignore_ascii_case(ext, "xlsx"@)
    ||| text::eq_ignore_ascii_case(ext, "xls"@)
}

/// Check if a file extension is supported.
pub fn is_supported_extension(ext: &str) -> (r: bool)
    ensures
        r == supported_extension(ext@),
{
    text::str_eq_ignore_ascii_case(ext, "docx") || text::str_eq_ignore_ascii_case(ext, "doc")
        || text::str_eq_ignore_ascii_case(ext, "xlsx")
        || text::str_eq_ignore_ascii_case(ext, "xls")
}

} // verus!
