//! Configuration and value types for the conversion pipeline.

use vstd::prelude::*;

use crate::error::{ConvResult, ConversionError};
use crate::text;

verus! {

/// Relies on num_cpus::get; its documentation states the result is always
/// at least 1.
#[verifier::external_body]
fn cpu_count() -> (n: usize)
    ensures
        n >= 1,
{
    num_cpus::get()
}

/// Configuration for the external-converter process pool.
#[derive(Debug, Clone)]
pub struct PoolConfig {
    /// Number of converter instances in the pool.
    pub pool_size: usize,
    /// Timeout for individual document conversions, in seconds.
    pub conversion_timeout_secs: u64,
    /// Maximum number of documents to process per instance before the
    /// instance is flagged as recycling-eligible.
    pub max_docs_per_instance: u32,
    /// Base port for socket connections when running persistent instances.
    pub base_port: u16,
    /// Directory for temporary files; the system default when `None`.
    pub temp_dir: Option<String>,
    /// Path to the external tool. If `None`, the host searches for it.
    pub soffice_path: Option<String>,
    /// Whether to use persistent converter instances.
    pub use_persistent_instances: bool,
    /// Time to wait for instance startup, in seconds.
    pub instance_startup_timeout_secs: u64,
}

impl PoolConfig {
    /// A pool configuration is valid when it admits at least one instance
    /// and a positive per-job timeout.
    pub open spec fn valid(&self) -> bool {
        self.pool_size >= 1 && self.conversion_timeout_secs >= 1
    }

    /// All fields other than the pool size hold their default values.
    pub open spec fn other_fields_default(&self) -> bool {
        &&& self.conversion_timeout_secs == 120
        &&& self.max_docs_per_instance == 100
        &&& self.base_port == 2002
        &&& self.temp_dir is None
        &&& self.soffice_path is None
        &&& !self.use_persistent_instances
        &&& self.instance_startup_timeout_secs == 30
    }

    /// Create a new pool config with the specified pool size.
    pub fn with_pool_size(pool_size: usize) -> (c: Self)
        ensures
            c.pool_size == pool_size,
            c.other_fields_default(),
    {
        let mut c = Self::default();
        c.pool_size = pool_size;
        c
    }

    /// Set the conversion timeout, in seconds.
    pub fn conversion_timeout(self, timeout_secs: u64) -> (c: Self)
        ensures
            c == (Self { conversion_timeout_secs: timeout_secs, ..self }),
    {
        Self { conversion_timeout_secs: timeout_secs, ..self }
    }

    /// Set the maximum documents per instance before recycling.
    pub fn max_docs_per_instance(self, max: u32) -> (c: Self)
        ensures
            c == (Self { max_docs_per_instance: max, ..self }),
    {
        Self { max_docs_per_instance: max, ..self }
    }

    /// Set the temporary directory.
    pub fn temp_dir(self, dir: String) -> (c: Self)
        ensures
            c == (Self { temp_dir: Some(dir), ..self }),
    {
        Self { temp_dir: Some(dir), ..self }
    }

    /// Set the external tool's path.
    pub fn soffice_path(self, path: String) -> (c: Self)
        ensures
            c == (Self { soffice_path: Some(path), ..self }),
    {
        Self { soffice_path: Some(path), ..self }
    }

    /// Enable persistent instances.
    pub fn use_persistent_instances(self, enabled: bool) -> (c: Self)
        ensures
            c == (Self { use_persistent_instances: enabled, ..self }),
    {
        Self { use_persistent_instances: enabled, ..self }
    }

    /// A field-for-field copy of this configuration.
    pub fn clone_config(&self) -> (c: Self)
        ensures
            c == *self,
    {
        Self {
            pool_size: self.pool_size,
            conversion_timeout_secs: self.conversion_timeout_secs,
            max_docs_per_instance: self.max_docs_per_instance,
            base_port: self.base_port,
            temp_dir: match &self.temp_dir {
                Some(d) => Some(d.clone()),
                None => None,
            },
            soffice_path: match &self.soffice_path {
                Some(p) => Some(p.clone()),
                None => None,
            },
            use_persistent_instances: self.use_persistent_instances,
            instance_startup_timeout_secs: self.instance_startup_timeout_secs,
        }
    }

    /// Validate the configuration: `Ok` exactly on valid configurations,
    /// otherwise the first violated rule.
    pub fn validate(&self) -> (r: ConvResult<()>)
        ensures
            r is Ok <==> self.valid(),
            self.pool_size == 0 ==> (r matches Err(ConversionError::InvalidConfig(m))
                && m@ == "pool_size must be at least 1"@),
            self.pool_size >= 1 && self.conversion_timeout_secs == 0 ==> (r matches Err(
                ConversionError::InvalidConfig(m),
            ) && m@ == "conversion_timeout must be greater than 0"@),
    {
        if self.pool_size == 0 {
            return Err(
                ConversionError::InvalidConfig(
                    String::from_str("pool_size must be at least 1"),
                ),
            );
        }
        if self.conversion_timeout_secs == 0 {
            return Err(
                ConversionError::InvalidConfig(
                    String::from_str("conversion_timeout must be greater than 0"),
                ),
            );
        }
        Ok(())
    }
}

impl Default for PoolConfig {
    /// Defaults: one instance per CPU, two-minute timeout, recycling after
    /// one hundred documents.
    fn default() -> (c: Self)
        ensures
            c.pool_size >= 1,
            c.other_fields_default(),
            c.valid(),
    {
        Self {
            pool_size: cpu_count(),
            conversion_timeout_secs: 120,
            max_docs_per_instance: 100,
            base_port: 2002,
            temp_dir: None,
            soffice_path: None,
            use_persistent_instances: false,
            instance_startup_timeout_secs: 30,
        }
    }
}

/// An opaque RGB colour.
#[derive(Debug, Clone, Copy, PartialEq, Eq, Structural)]
pub struct Rgb {
    /// Red component.
    pub r: u8,
    /// Green component.
    pub g: u8,
    /// Blue component.
    pub b: u8,
}

/// Configuration for rasterizing intermediate pages to images.
#[derive(Debug, Clone, Copy)]
pub struct RenderConfig {
    /// Output resolution in dots per inch.
    pub dpi: u32,
    /// Number of workers for parallel page encoding.
    pub render_threads: usize,
    /// PNG compression level (0-9).
    pub png_compression: u8,
    /// Whether to keep the alpha channel.
    pub use_alpha: bool,
    /// Background colour composited under transparent pixels when alpha is
    /// disabled.
    pub background_color: Rgb,
}

impl RenderConfig {
    /// A render configuration is valid when the resolution lies in 1-1200
    /// and at least one encode worker is configured.
    pub open spec fn valid(&self) -> bool {
        1 <= self.dpi <= 1200 && self.render_threads >= 1
    }

    /// All fields other than the resolution hold their default values.
    pub open spec fn other_fields_default(&self) -> bool {
        &&& self.render_threads >= 1
        &&& self.png_compression == 6
        &&& !self.use_alpha
        &&& self.background_color == (Rgb { r: 255, g: 255, b: 255 })
    }

    /// Create a render config with the specified resolution.
    pub fn with_dpi(dpi: u32) -> (c: Self)
        ensures
            c.dpi == dpi,
            c.other_fields_default(),
    {
        let mut c = Self::default();
        c.dpi = dpi;
        c
    }

    /// Set the number of encode workers.
    pub fn render_threads(self, threads: usize) -> (c: Self)
        ensures
            c == (Self { render_threads: threads, ..self }),
    {
        Self { render_threads: threads, ..self }
    }

    /// Set the PNG compression level, clamped to at most 9.
    pub fn png_compression(self, level: u8) -> (c: Self)
        ensures
            c == (Self { png_compression: if level > 9 { 9u8 } else { level }, ..self }),
    {
        let clamped: u8 = if level > 9 {
            9
        } else {
            level
        };
        Self { png_compression: clamped, ..self }
    }

    /// Enable or disable the alpha channel.
    pub fn use_alpha(self, enabled: bool) -> (c: Self)
        ensures
            c == (Self { use_alpha: enabled, ..self }),
    {
        Self { use_alpha: enabled, ..self }
    }

    /// Validate the configuration: `Ok` exactly on valid configurations,
    /// otherwise the first violated rule.
    pub fn validate(&self) -> (r: ConvResult<()>)
        ensures
            r is Ok <==> self.valid(),
            self.dpi == 0 || self.dpi > 1200 ==> (r matches Err(ConversionError::InvalidConfig(m))
                && m@ == "dpi must be between 1 and 1200"@),
            1 <= self.dpi <= 1200 && self.render_threads == 0 ==> (r matches Err(
                ConversionError::InvalidConfig(m),
            ) && m@ == "render_threads must be at least 1"@),
    {
        if self.dpi == 0 || self.dpi > 1200 {
            return Err(
                ConversionError::InvalidConfig(
                    String::from_str("dpi must be between 1 and 1200"),
                ),
            );
        }
        if self.render_threads == 0 {
            return Err(
                ConversionError::InvalidConfig(
                    String::from_str("render_threads must be at least 1"),
                ),
            );
        }
        Ok(())
    }
}

impl Default for RenderConfig {
    /// Defaults: 300 DPI, one encode worker per CPU, moderate compression,
    /// opaque white background.
    fn default() -> (c: Self)
        ensures
            c.dpi == 300,
            c.other_fields_default(),
            c.valid(),
    {
        Self {
            dpi: 300,
            render_threads: cpu_count(),
            png_compression: 6,
            use_alpha: false,
            background_color: Rgb { r: 255, g: 255, b: 255 },
        }
    }
}

/// Combined configuration for the converter.
#[derive(Debug, Clone)]
pub struct ConverterConfig {
    /// Pool configuration.
    pub pool: PoolConfig,
    /// Render configuration.
    pub render: RenderConfig,
}

impl ConverterConfig {
    /// Both halves are valid.
    pub open spec fn valid(&self) -> bool {
        self.pool.valid() && self.render.valid()
    }

    /// Create a new converter config with the specified pool size and
    /// resolution.
    pub fn new(pool_size: usize, dpi: u32) -> (c: Self)
        ensures
            c.pool.pool_size == pool_size,
            c.pool.other_fields_default(),
            c.render.dpi == dpi,
            c.render.other_fields_default(),
    {
        Self { pool: PoolConfig::with_pool_size(pool_size), render: RenderConfig::with_dpi(dpi) }
    }

    /// Validate the entire configuration; the pool is checked first.
    pub fn validate(&self) -> (r: ConvResult<()>)
        ensures
            r is Ok <==> self.valid(),
            !self.pool.valid() ==> r matches Err(ConversionError::InvalidConfig(_)),
            self.pool.valid() && !self.render.valid() ==> r matches Err(
                ConversionError::InvalidConfig(_),
            ),
    {
        match self.pool.validate() {
            Ok(_) => (),
            Err(e) => {
                return Err(e);
            },
        }
        match self.render.validate() {
            Ok(_) => (),
            Err(e) => {
                return Err(e);
            },
        }
        Ok(())
    }
}

impl Default for ConverterConfig {
    /// Component-wise defaults.
    fn default() -> (c: Self)
        ensures
            c.pool.pool_size >= 1,
            c.pool.other_fields_default(),
            c.render.dpi == 300,
            c.render.other_fields_default(),
            c.valid(),
    {
        Self { pool: PoolConfig::default(), render: RenderConfig::default() }
    }
}

/// A single conversion request. Immutable value, constructed per call.
#[derive(Debug, Clone)]
pub struct ConversionRequest {
    /// Path to the input document.
    pub input_path: String,
    /// Directory to write output images.
    pub output_dir: String,
    /// Optional prefix for output filenames; defaults to the input's file
    /// name without its extension.
    pub output_prefix: Option<String>,
    /// Override resolution for this specific conversion.
    pub dpi_override: Option<u32>,
}

impl ConversionRequest {
    /// The output prefix this request resolves to: the explicit prefix if
    /// set, else the input file's stem, else `output`.
    pub open spec fn output_prefix_spec(&self) -> Seq<char> {
        match self.output_prefix {
            Some(p) => p@,
            None => {
                if text::path_stem(self.input_path@).len() > 0 {
                    text::path_stem(self.input_path@)
                } else {
                    "output"@
                }
            },
        }
    }

    /// Create a new conversion request.
    pub fn new(input_path: &str, output_dir: &str) -> (r: Self)
        ensures
            r.input_path@ == input_path@,
            r.output_dir@ == output_dir@,
            r.output_prefix is None,
            r.dpi_override is None,
    {
        Self {
            input_path: String::from_str(input_path),
            output_dir: String::from_str(output_dir),
            output_prefix: None,
            dpi_override: None,
        }
    }

    /// Set a custom output prefix.
    pub fn with_prefix(self, prefix: &str) -> (r: Self)
        ensures
            r.input_path == self.input_path,
            r.output_dir == self.output_dir,
            r.output_prefix matches Some(p) && p@ == prefix@,
            r.dpi_override == self.dpi_override,
    {
        Self { output_prefix: Some(String::from_str(prefix)), ..self }
    }

    /// Override the resolution for this conversion.
    pub fn with_dpi(self, dpi: u32) -> (r: Self)
        ensures
            r == (Self { dpi_override: Some(dpi), ..self }),
    {
        Self { dpi_override: Some(dpi), ..self }
    }

    /// Get the output prefix, defaulting to the input's file name.
    pub fn get_output_prefix(&self) -> (r: String)
        ensures
            r@ == self.output_prefix_spec(),
    {
        match &self.output_prefix {
            Some(p) => p.clone(),
            None => {
                let stem = text::stem_of(self.input_path.as_str());
                if stem.as_str().unicode_len() > 0 {
                    stem
                } else {
                    String::from_str("output")
                }
            },
        }
    }
}

/// Stage of the conversion process: a small state machine whose terminal
/// states are `Completed` and `Failed`.
#[derive(Debug, Clone, Copy, PartialEq, Eq, Structural)]
pub enum ConversionStage {
    /// Queued, waiting to start.
    Queued,
    /// Converting to the intermediate document via the external tool.
    ConvertingToPdf,
    /// Rasterizing intermediate pages.
    RenderingPages,
    /// Encoding page images.
    EncodingPng,
    /// Completed successfully.
    Completed,
    /// Failed with an error.
    Failed,
}

impl ConversionStage {
    /// Position of this stage along the pipeline.
    pub open spec fn order(self) -> int {
        match self {
            ConversionStage::Queued => 0,
            ConversionStage::ConvertingToPdf => 1,
            ConversionStage::RenderingPages => 2,
            ConversionStage::EncodingPng => 3,
            ConversionStage::Completed => 4,
            ConversionStage::Failed => 4,
        }
    }

    /// Terminal stages: no transition leaves them.
    pub open spec fn is_terminal(self) -> bool {
        self == ConversionStage::Completed || self == ConversionStage::Failed
    }

    /// The stage machine's transition relation: stages only move forward,
    /// a failure may interrupt any non-terminal stage, and nothing follows
    /// a terminal stage.
    pub open spec fn may_follow(self, next: ConversionStage) -> bool {
        &&& !self.is_terminal()
        &&& self.order() <= next.order()
    }

    /// No transition leaves a terminal stage.
    pub proof fn lemma_terminal_is_final(self, next: ConversionStage)
        requires
            self.is_terminal(),
        ensures
            !self.may_follow(next),
    {
    }
}

/// Progress information for a conversion operation.
#[derive(Debug, Clone)]
pub struct ConversionProgress {
    /// Index of the file currently being processed.
    pub file_index: usize,
    /// Total number of files to process.
    pub total_files: usize,
    /// Name of the current file.
    pub current_file: String,
    /// Number of pages completed for the current file.
    pub pages_completed: usize,
    /// Total pages in the current file, once rasterization has started.
    pub total_pages: Option<usize>,
    /// Current stage of processing.
    pub stage: ConversionStage,
}

/// Result of a batch conversion operation.
#[derive(Debug, Clone)]
pub struct BatchResult {
    /// Successfully converted files.
    pub successful: Vec<FileResult>,
    /// Failed conversions.
    pub failed: Vec<FailedFile>,
    /// Total processing time, in milliseconds.
    pub total_duration_ms: u64,
    /// Total pages rendered.
    pub total_pages: usize,
}

/// Result for a single successfully converted file.
#[derive(Debug, Clone)]
pub struct FileResult {
    /// Original input path.
    pub input_path: String,
    /// Output image paths.
    pub output_paths: Vec<String>,
    /// Number of pages.
    pub page_count: usize,
    /// Processing time for this file, in milliseconds.
    pub duration_ms: u64,
}

/// Information about a failed conversion.
#[derive(Debug, Clone)]
pub struct FailedFile {
    /// Original input path.
    pub input_path: String,
    /// Error message.
    pub error: String,
}

/// A single rendered page.
#[derive(Debug, Clone)]
pub struct PngPage {
    /// Page number (1-indexed).
    pub page_number: usize,
    /// Encoded image data.
    pub data: Vec<u8>,
    /// Image width in pixels.
    pub width: u32,
    /// Image height in pixels.
    pub height: u32,
    /// Path where the image was written, if saved to disk.
    pub output_path: Option<String>,
}

} // verus!
