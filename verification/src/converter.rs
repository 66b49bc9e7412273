//! The pipeline orchestrator's decision core.
//!
//! The public conversion modes (single, sequential batch,
//! progress-reporting batch, bounded-parallel batch, page streaming) are
//! driven by a host that awaits the pool and the rasterizer. Every
//! decision those modes make is here and verified: which resolution a
//! request renders at, how per-file outcomes aggregate into a batch
//! result that never drops an item, and which progress events a file's
//! lifecycle emits.

use vstd::prelude::*;

use crate::config::{
    BatchResult, ConversionProgress, ConversionRequest, ConversionStage, ConverterConfig,
    FailedFile, FileResult,
};
use crate::error::{ConvResult, ConversionError};
use crate::pdf_renderer::PdfRenderer;
use crate::pool::LibreOfficePool;

verus! {

/// The outcome of one conversion request, as captured by a batch: either
/// a per-file success record or a per-file failure record. A batch never
/// lets one item's failure abort the rest.
#[derive(Debug, Clone)]
pub enum ConversionOutcome {
    /// The request converted; its success record.
    Success(FileResult),
    /// The request failed; its input path and error text.
    Failure(FailedFile),
}

/// The success records of a list of outcomes, in list order.
pub open spec fn successes_of(outcomes: Seq<ConversionOutcome>) -> Seq<FileResult>
    decreases outcomes.len(),
{
    if outcomes.len() == 0 {
        Seq::empty()
    } else {
        successes_of(outcomes.drop_last()) + match outcomes.last() {
            ConversionOutcome::Success(f) => seq![f],
            ConversionOutcome::Failure(_) => Seq::empty(),
        }
    }
}

/// The failure records of a list of outcomes, in list order.
pub open spec fn failures_of(outcomes: Seq<ConversionOutcome>) -> Seq<FailedFile>
    decreases outcomes.len(),
{
    if outcomes.len() == 0 {
        Seq::empty()
    } else {
        failures_of(outcomes.drop_last()) + match outcomes.last() {
            ConversionOutcome::Success(_) => Seq::empty(),
            ConversionOutcome::Failure(f) => seq![f],
        }
    }
}

/// The total page count over the successes of a list of outcomes.
pub open spec fn total_pages_of(outcomes: Seq<ConversionOutcome>) -> int
    decreases outcomes.len(),
{
    if outcomes.len() == 0 {
        0
    } else {
        total_pages_of(outcomes.drop_last()) + match outcomes.last() {
            ConversionOutcome::Success(f) => f.page_count as int,
            ConversionOutcome::Failure(_) => 0int,
        }
    }
}

/// Batch completeness: every outcome of a batch lands in exactly one of
/// the two lists, so `|successful| + |failed|` always equals the number
/// of requests, whatever each outcome was and in whatever order the
/// outcomes arrived.
pub proof fn lemma_batch_completeness(outcomes: Seq<ConversionOutcome>)
    ensures
        successes_of(outcomes).len() + failures_of(outcomes).len() == outcomes.len(),
    decreases outcomes.len(),
{
    if outcomes.len() > 0 {
        lemma_batch_completeness(outcomes.drop_last());
    }
}

/// Where outcome `i`'s success record lands in the batch's successful
/// list: after exactly the successes among the outcomes before it.
pub open spec fn success_position(outcomes: Seq<ConversionOutcome>, i: int) -> int {
    successes_of(outcomes.take(i)).len() as int
}

/// Where outcome `i`'s failure record lands in the batch's failed list.
pub open spec fn failure_position(outcomes: Seq<ConversionOutcome>, i: int) -> int {
    failures_of(outcomes.take(i)).len() as int
}

/// The records of a prefix of the outcomes open both result lists.
pub proof fn lemma_outcome_lists_prefix(outcomes: Seq<ConversionOutcome>, k: int)
    requires
        0 <= k <= outcomes.len(),
    ensures
        successes_of(outcomes.take(k)).len() <= successes_of(outcomes).len(),
        forall|p: int|
            0 <= p < successes_of(outcomes.take(k)).len() ==> successes_of(outcomes)[p]
                == successes_of(outcomes.take(k))[p],
        failures_of(outcomes.take(k)).len() <= failures_of(outcomes).len(),
        forall|p: int|
            0 <= p < failures_of(outcomes.take(k)).len() ==> failures_of(outcomes)[p]
                == failures_of(outcomes.take(k))[p],
    decreases outcomes.len() - k,
{
    if k == outcomes.len() {
        assert(outcomes.take(k) =~= outcomes);
    } else {
        assert(outcomes.take(k + 1).drop_last() =~= outcomes.take(k));
        assert(outcomes.take(k + 1).last() == outcomes[k]);
        lemma_outcome_lists_prefix(outcomes, k + 1);
    }
}

/// Order-preserving aggregation: two requests that both succeed appear in
/// the successful list in the order their outcomes were recorded, each at
/// its [`success_position`], and likewise for two failures. With outcomes
/// recorded in request order (as the sequential modes do), both result
/// lists preserve the input order.
pub proof fn lemma_batch_preserves_order(outcomes: Seq<ConversionOutcome>, i: int, j: int)
    requires
        0 <= i < j < outcomes.len(),
    ensures
        outcomes[i] matches ConversionOutcome::Success(f) ==> (0 <= success_position(outcomes, i)
            < successes_of(outcomes).len() && successes_of(outcomes)[success_position(outcomes, i)]
            == f),
        (outcomes[i] matches ConversionOutcome::Success(_) && outcomes[j] matches
            ConversionOutcome::Success(_)) ==> success_position(outcomes, i) < success_position(
            outcomes,
            j,
        ),
        outcomes[i] matches ConversionOutcome::Failure(f) ==> (0 <= failure_position(outcomes, i)
            < failures_of(outcomes).len() && failures_of(outcomes)[failure_position(outcomes, i)]
            == f),
        (outcomes[i] matches ConversionOutcome::Failure(_) && outcomes[j] matches
            ConversionOutcome::Failure(_)) ==> failure_position(outcomes, i) < failure_position(
            outcomes,
            j,
        ),
{
    assert(outcomes.take(i + 1).drop_last() =~= outcomes.take(i));
    assert(outcomes.take(i + 1).last() == outcomes[i]);
    assert(outcomes.take(j).take(i + 1) =~= outcomes.take(i + 1));
    lemma_outcome_lists_prefix(outcomes, i + 1);
    lemma_outcome_lists_prefix(outcomes.take(j), i + 1);
}

/// Assemble per-file outcomes into a batch result.
///
/// The batch is complete: the successes and failures partition the
/// outcomes, each list in outcome order (for the sequential modes the
/// host feeds outcomes in request order, so both lists preserve input
/// order). The page total sums the successes' page counts, saturating at
/// the machine limit.
pub fn assemble_batch(outcomes: Vec<ConversionOutcome>, total_duration_ms: u64) -> (r: BatchResult)
    ensures
        r.successful@ == successes_of(outcomes@),
        r.failed@ == failures_of(outcomes@),
        r.successful@.len() + r.failed@.len() == outcomes@.len(),
        r.total_pages == if total_pages_of(outcomes@) <= usize::MAX {
            total_pages_of(outcomes@)
        } else {
            usize::MAX as int
        },
        r.total_duration_ms == total_duration_ms,
{
    let n = outcomes.len();
    let mut outcomes = outcomes;
    let ghost all = outcomes@;
    let mut successful: Vec<FileResult> = Vec::new();
    let mut failed: Vec<FailedFile> = Vec::new();
    let mut total_pages: usize = 0;
    let mut i: usize = 0;
    while i < n
        invariant
            n == all.len(),
            outcomes@ =~= all.skip(i as int),
            i <= n,
            successful@ == successes_of(all.take(i as int)),
            failed@ == failures_of(all.take(i as int)),
            total_pages == if total_pages_of(all.take(i as int)) <= usize::MAX {
                total_pages_of(all.take(i as int))
            } else {
                usize::MAX as int
            },
        decreases n - i,
    {
        let o = outcomes.remove(0);
        proof {
            assert(all.skip(i as int)[0] == all[i as int]);
            assert(o == all[i as int]);
            assert(outcomes@ =~= all.skip(i as int + 1));
            assert(all.take(i as int + 1).drop_last() =~= all.take(i as int));
            assert(all.take(i as int + 1).last() == all[i as int]);
        }
        match o {
            ConversionOutcome::Success(f) => {
                total_pages = total_pages.saturating_add(f.page_count);
                successful.push(f);
            },
            ConversionOutcome::Failure(f) => {
                failed.push(f);
            },
        }
        i = i + 1;
    }
    proof {
        assert(all.take(n as int) =~= all);
        lemma_batch_completeness(all);
    }
    BatchResult { successful, failed, total_duration_ms, total_pages }
}

impl ConversionProgress {
    /// The event emitted when a file's conversion starts.
    pub fn starting(file_index: usize, total_files: usize, current_file: &str) -> (p: Self)
        ensures
            p.file_index == file_index,
            p.total_files == total_files,
            p.current_file@ == current_file@,
            p.pages_completed == 0,
            p.total_pages is None,
            p.stage == ConversionStage::ConvertingToPdf,
    {
        ConversionProgress {
            file_index,
            total_files,
            current_file: String::from_str(current_file),
            pages_completed: 0,
            total_pages: None,
            stage: ConversionStage::ConvertingToPdf,
        }
    }

    /// The event emitted after each page of a file has been rendered.
    pub fn page_rendered(
        file_index: usize,
        total_files: usize,
        current_file: &str,
        pages_completed: usize,
        total_pages: usize,
    ) -> (p: Self)
        ensures
            p.file_index == file_index,
            p.total_files == total_files,
            p.current_file@ == current_file@,
            p.pages_completed == pages_completed,
            p.total_pages == Some(total_pages),
            p.stage == ConversionStage::RenderingPages,
    {
        ConversionProgress {
            file_index,
            total_files,
            current_file: String::from_str(current_file),
            pages_completed,
            total_pages: Some(total_pages),
            stage: ConversionStage::RenderingPages,
        }
    }

    /// The terminal event for a file that converted.
    pub fn completed(file_index: usize, total_files: usize, current_file: &str, page_count: usize) -> (p:
        Self)
        ensures
            p.file_index == file_index,
            p.total_files == total_files,
            p.current_file@ == current_file@,
            p.pages_completed == page_count,
            p.total_pages == Some(page_count),
            p.stage == ConversionStage::Completed,
            p.stage.is_terminal(),
    {
        ConversionProgress {
            file_index,
            total_files,
            current_file: String::from_str(current_file),
            pages_completed: page_count,
            total_pages: Some(page_count),
            stage: ConversionStage::Completed,
        }
    }

    /// The terminal event for a file that failed.
    pub fn failed(file_index: usize, total_files: usize, current_file: &str) -> (p: Self)
        ensures
            p.file_index == file_index,
            p.total_files == total_files,
            p.current_file@ == current_file@,
            p.pages_completed == 0,
            p.total_pages is None,
            p.stage == ConversionStage::Failed,
            p.stage.is_terminal(),
    {
        ConversionProgress {
            file_index,
            total_files,
            current_file: String::from_str(current_file),
            pages_completed: 0,
            total_pages: None,
            stage: ConversionStage::Failed,
        }
    }
}

/// A stage sequence is a run of the stage machine when every step is a
/// permitted transition.
pub open spec fn stage_run_valid(stages: Seq<ConversionStage>) -> bool {
    forall|k: int| 0 <= k < stages.len() - 1 ==> #[trigger] stages[k].may_follow(stages[k + 1])
}

/// The stages of the events one file's lifecycle emits: a start event,
/// one page event per rendered page, and one terminal event.
pub open spec fn file_progress_stages(pages: nat, ok: bool) -> Seq<ConversionStage> {
    seq![ConversionStage::ConvertingToPdf] + Seq::new(pages, |i: int| ConversionStage::RenderingPages)
        + seq![
        if ok {
            ConversionStage::Completed
        } else {
            ConversionStage::Failed
        },
    ]
}

/// The progress protocol is a run of the stage machine, whatever the page
/// count and whether the file succeeded: stages only move forward and the
/// single terminal event comes last, so no event ever follows a terminal
/// stage.
pub proof fn lemma_file_progress_valid(pages: nat, ok: bool)
    ensures
        stage_run_valid(file_progress_stages(pages, ok)),
{
    let stages = file_progress_stages(pages, ok);
    assert forall|k: int| 0 <= k < stages.len() - 1 implies #[trigger] stages[k].may_follow(
        stages[k + 1],
    ) by {
        assert(stages.len() == pages + 2);
        if k == 0 {
            assert(stages[0] == ConversionStage::ConvertingToPdf);
        }
    }
}

/// Statistics about the converter.
#[derive(Debug, Clone, Copy, PartialEq, Eq, Structural)]
pub struct ConverterStats {
    /// Total documents processed since creation.
    pub total_documents_processed: usize,
    /// Pool size.
    pub pool_size: usize,
    /// Configured resolution.
    pub dpi: u32,
}

/// The pipeline orchestrator: composes the worker pool and the
/// rasterize/encode stage. It contains no pooling logic itself; the
/// conversion modes a host runs on top of it differ only in how they
/// schedule calls into those two components.
#[derive(Debug, Clone)]
pub struct Converter {
    /// The worker pool's state machine.
    pub pool: LibreOfficePool,
    /// The rasterize/encode stage.
    pub renderer: PdfRenderer,
    /// The configuration both were built from.
    pub config: ConverterConfig,
}

impl Converter {
    /// Create a new converter over a validated configuration.
    pub fn new(config: ConverterConfig) -> (r: ConvResult<Converter>)
        ensures
            config.valid() ==> (r matches Ok(c) && c.config == config && c.pool.wf()
                && c.pool.config == config.pool && c.renderer.config == config.render
                && !c.pool.is_shutdown && c.pool.total_processed == 0),
            !config.valid() ==> (r matches Err(e) && e matches ConversionError::InvalidConfig(_)),
    {
        match config.validate() {
            Ok(_) => (),
            Err(e) => {
                return Err(e);
            },
        }
        let pool = match LibreOfficePool::new(config.pool.clone_config()) {
            Ok(p) => p,
            Err(e) => {
                return Err(e);
            },
        };
        let renderer = match PdfRenderer::new(config.render) {
            Ok(p) => p,
            Err(e) => {
                return Err(e);
            },
        };
        Ok(Converter { pool, renderer, config })
    }

    /// The resolution a request renders at: its override if set, else the
    /// pipeline's configured resolution.
    pub fn effective_dpi(&self, request: &ConversionRequest) -> (r: u32)
        ensures
            r == match request.dpi_override {
                Some(d) => d,
                None => self.config.render.dpi,
            },
    {
        match request.dpi_override {
            Some(d) => d,
            None => self.config.render.dpi,
        }
    }

    /// The current configuration.
    pub fn config(&self) -> (c: &ConverterConfig)
        ensures
            c == &self.config,
    {
        &self.config
    }

    /// Statistics about processing so far.
    pub fn stats(&self) -> (s: ConverterStats)
        ensures
            s.total_documents_processed == self.pool.total_processed,
            s.pool_size == self.config.pool.pool_size,
            s.dpi == self.config.render.dpi,
    {
        ConverterStats {
            total_documents_processed: self.pool.total_processed(),
            pool_size: self.config.pool.pool_size,
            dpi: self.config.render.dpi,
        }
    }

    /// Shut down the pool; future admissions fail fast.
    pub fn shutdown(&mut self)
        ensures
            final(self).pool.is_shutdown,
            final(self).pool.config == old(self).pool.config,
            final(self).pool.instances == old(self).pool.instances,
            final(self).pool.available_permits == old(self).pool.available_permits,
            final(self).pool.total_processed == old(self).pool.total_processed,
            final(self).renderer == old(self).renderer,
            final(self).config == old(self).config,
    {
        self.pool.shutdown();
    }
}

/// Builder for creating a [`Converter`] with custom settings.
#[derive(Debug, Clone)]
pub struct ConverterBuilder {
    /// The configuration under construction.
    pub config: ConverterConfig,
}

impl ConverterBuilder {
    /// Start from the default configuration.
    pub fn new() -> (b: Self)
        ensures
            b.config.pool.pool_size >= 1,
            b.config.pool.other_fields_default(),
            b.config.render.dpi == 300,
            b.config.render.other_fields_default(),
            b.config.valid(),
    {
        Self { config: ConverterConfig::default() }
    }

    /// Set the pool size.
    pub fn pool_size(self, size: usize) -> (b: Self)
        ensures
            b.config.pool == (crate::config::PoolConfig { pool_size: size, ..self.config.pool }),
            b.config.render == self.config.render,
    {
        let mut b = self;
        b.config.pool.pool_size = size;
        b
    }

    /// Set the resolution.
    pub fn dpi(self, dpi: u32) -> (b: Self)
        ensures
            b.config.render == (crate::config::RenderConfig { dpi, ..self.config.render }),
            b.config.pool == self.config.pool,
    {
        let mut b = self;
        b.config.render.dpi = dpi;
        b
    }

    /// Set the conversion timeout, in seconds.
    pub fn conversion_timeout(self, timeout_secs: u64) -> (b: Self)
        ensures
            b.config.pool == (crate::config::PoolConfig {
                conversion_timeout_secs: timeout_secs,
                ..self.config.pool
            }),
            b.config.render == self.config.render,
    {
        let mut b = self;
        b.config.pool.conversion_timeout_secs = timeout_secs;
        b
    }

    /// Set the number of encode workers.
    pub fn render_threads(self, threads: usize) -> (b: Self)
        ensures
            b.config.render == (crate::config::RenderConfig {
                render_threads: threads,
                ..self.config.render
            }),
            b.config.pool == self.config.pool,
    {
        let mut b = self;
        b.config.render.render_threads = threads;
        b
    }

    /// Set the external tool's path.
    pub fn soffice_path(self, path: String) -> (b: Self)
        ensures
            b.config.pool == (crate::config::PoolConfig {
                soffice_path: Some(path),
                ..self.config.pool
            }),
            b.config.render == self.config.render,
    {
        let mut b = self;
        b.config.pool.soffice_path = Some(path);
        b
    }

    /// Set the temporary directory.
    pub fn temp_dir(self, dir: String) -> (b: Self)
        ensures
            b.config.pool == (crate::config::PoolConfig { temp_dir: Some(dir), ..self.config.pool }),
            b.config.render == self.config.render,
    {
        let mut b = self;
        b.config.pool.temp_dir = Some(dir);
        b
    }

    /// Build the converter.
    pub fn build(self) -> (r: ConvResult<Converter>)
        ensures
            self.config.valid() ==> (r matches Ok(c) && c.config == self.config),
            !self.config.valid() ==> r is Err,
    {
        Converter::new(self.config)
    }
}

impl Default for ConverterBuilder {
    /// The same starting point as [`ConverterBuilder::new`].
    fn default() -> (b: Self)
        ensures
            b.config.pool.pool_size >= 1,
            b.config.pool.other_fields_default(),
            b.config.render.dpi == 300,
            b.config.render.other_fields_default(),
    {
        Self::new()
    }
}

} // verus!
