//! Error taxonomy for the conversion pipeline.
//!
//! Configuration errors fail fast before any work starts; input errors fail
//! fast without consuming an admission slot; external-tool and rasterizer
//! errors are per-job and recoverable at the batch level; pool-lifecycle
//! errors are typed rather than undefined behaviour.

use vstd::prelude::*;

use crate::text;

verus! {

/// Main error type for the conversion pipeline.
#[derive(Debug, Clone)]
pub enum ConversionError {
    /// The external conversion tool is not installed or cannot be found.
    LibreOfficeNotFound,
    /// The external tool's process failed to start.
    ProcessStartFailed(String),
    /// The external tool ran and failed; carries its diagnostic output.
    ConversionFailed { path: String, message: String },
    /// The external tool exceeded the configured per-job timeout.
    Timeout { path: String, timeout_secs: u64 },
    /// Input file not found.
    InputNotFound(String),
    /// Unsupported file format.
    UnsupportedFormat { extension: String },
    /// PDF rendering failed.
    PdfRenderError(String),
    /// Rasterizer library error.
    PdfiumError(String),
    /// PNG encoding failed.
    PngEncodingError(String),
    /// Output directory creation or file write failed.
    OutputDirError { path: String, message: String },
    /// No idle instance was found although a slot was granted; should be
    /// unreachable under the pool invariant, but typed rather than a panic.
    PoolExhausted { pool_size: usize },
    /// The pool has been shut down.
    PoolShutdown,
    /// Instance health check failed.
    HealthCheckFailed(String),
    /// Invalid configuration.
    InvalidConfig(String),
    /// Internal channel error.
    ChannelError(String),
}

/// Result type alias for the pipeline.
pub type ConvResult<T> = Result<T, ConversionError>;

impl ConversionError {
    /// The user-visible description of this error.
    pub open spec fn message_spec(&self) -> Seq<char> {
        match self {
            ConversionError::LibreOfficeNotFound => {
                "LibreOffice not found. Please install LibreOffice and ensure 'soffice' is in PATH"@
            },
            ConversionError::ProcessStartFailed(e) => {
                "Failed to start LibreOffice process: "@ + e@
            },
            ConversionError::ConversionFailed { path, message } => {
                "LibreOffice conversion failed for '"@ + path@ + "': "@ + message@
            },
            ConversionError::Timeout { path, timeout_secs } => {
                "LibreOffice conversion timed out after "@ + text::dec_rep(*timeout_secs as nat)
                    + " seconds for '"@ + path@ + "'"@
            },
            ConversionError::InputNotFound(p) => "Input file not found: "@ + p@,
            ConversionError::UnsupportedFormat { extension } => {
                "Unsupported file format: "@ + extension@
                    + ". Supported: .docx, .doc, .xlsx, .xls"@
            },
            ConversionError::PdfRenderError(e) => "PDF rendering failed: "@ + e@,
            ConversionError::PdfiumError(e) => "Pdfium error: "@ + e@,
            ConversionError::PngEncodingError(e) => "PNG encoding failed: "@ + e@,
            ConversionError::OutputDirError { path, message } => {
                "Failed to create output directory '"@ + path@ + "': "@ + message@
            },
            ConversionError::PoolExhausted { pool_size } => {
                "LibreOffice pool exhausted, all "@ + text::dec_rep(*pool_size as nat)
                    + " instances are busy"@
            },
            ConversionError::PoolShutdown => "LibreOffice pool has been shut down"@,
            ConversionError::HealthCheckFailed(e) => {
                "LibreOffice instance health check failed: "@ + e@
            },
            ConversionError::InvalidConfig(e) => "Invalid configuration: "@ + e@,
            ConversionError::ChannelError(e) => "Internal channel error: "@ + e@,
        }
    }

    /// Render the user-visible description of this error.
    pub fn message(&self) -> (m: String)
        ensures
            m@ == self.message_spec(),
    {
        match self {
            ConversionError::LibreOfficeNotFound => {
                String::from_str(
                    "LibreOffice not found. Please install LibreOffice and ensure 'soffice' is in PATH",
                )
            },
            ConversionError::ProcessStartFailed(e) => {
                let mut m = String::from_str("Failed to start LibreOffice process: ");
                m.append(e.as_str());
                m
            },
            ConversionError::ConversionFailed { path, message } => {
                let mut m = String::from_str("LibreOffice conversion failed for '");
                m.append(path.as_str());
                m.append("': ");
                m.append(message.as_str());
                proof {
                    assert(m@ =~= self.message_spec());
                }
                m
            },
            ConversionError::Timeout { path, timeout_secs } => {
                let mut m = String::from_str("LibreOffice conversion timed out after ");
                let secs = text::u64_to_string(*timeout_secs);
                m.append(secs.as_str());
                m.append(" seconds for '");
                m.append(path.as_str());
                m.append("'");
                proof {
                    assert(m@ =~= self.message_spec());
                }
                m
            },
            ConversionError::InputNotFound(p) => {
                let mut m = String::from_str("Input file not found: ");
                m.append(p.as_str());
                m
            },
            ConversionError::UnsupportedFormat { extension } => {
                let mut m = String::from_str("Unsupported file format: ");
                m.append(extension.as_str());
                m.append(". Supported: .docx, .doc, .xlsx, .xls");
                proof {
                    assert(m@ =~= self.message_spec());
                }
                m
            },
            ConversionError::PdfRenderError(e) => {
                let mut m = String::from_str("PDF rendering failed: ");
                m.append(e.as_str());
                m
            },
            ConversionError::PdfiumError(e) => {
                let mut m = String::from_str("Pdfium error: ");
                m.append(e.as_str());
                m
            },
            ConversionError::PngEncodingError(e) => {
                let mut m = String::from_str("PNG encoding failed: ");
                m.append(e.as_str());
                m
            },
            ConversionError::OutputDirError { path, message } => {
                let mut m = String::from_str("Failed to create output directory '");
                m.append(path.as_str());
                m.append("': ");
                m.append(message.as_str());
                proof {
                    assert(m@ =~= self.message_spec());
                }
                m
            },
            ConversionError::PoolExhausted { pool_size } => {
                let mut m = String::from_str("LibreOffice pool exhausted, all ");
                let n = text::usize_to_string(*pool_size);
                m.append(n.as_str());
                m.append(" instances are busy");
                proof {
                    assert(m@ =~= self.message_spec());
                }
                m
            },
            ConversionError::PoolShutdown => {
                String::from_str("LibreOffice pool has been shut down")
            },
            ConversionError::HealthCheckFailed(e) => {
                let mut m = String::from_str("LibreOffice instance health check failed: ");
                m.append(e.as_str());
                m
            },
            ConversionError::InvalidConfig(e) => {
                let mut m = String::from_str("Invalid configuration: ");
                m.append(e.as_str());
                m
            },
            ConversionError::ChannelError(e) => {
                let mut m = String::from_str("Internal channel error: ");
                m.append(e.as_str());
                m
            },
        }
    }
}

} // verus!
