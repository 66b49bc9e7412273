//! The resource-bounded worker pool.
//!
//! The pool owns a fixed set of worker instances, a counting admission limiter
//! sized to the pool, and the bookkeeping that spec-level properties rest
//! on: at most `pool_size` jobs are ever in flight at once, an instance is
//! never claimed by two jobs, and processed-document counters only grow.
//!
//! The pool itself is a synchronous state machine. A host drives it: it
//! performs the blocking work (waiting for admission, starting the external
//! tool, scanning the file system) and feeds every result back in as a
//! plain value, so that each decision the pool makes is verified.

use vstd::prelude::*;

use crate::config::PoolConfig;
use crate::error::{ConvResult, ConversionError};
use crate::is_supported_extension;
use crate::supported_extension;
use crate::text;

verus! {

/// A single worker instance in the pool: one isolated external-process
/// execution context. The host pairs each instance with an exclusively
/// owned working directory; the pool tracks its id, busy flag and
/// processed-document counter.
#[derive(Debug, Clone)]
pub struct LibreOfficeInstance {
    /// Instance id; equals the instance's index in the pool.
    pub id: usize,
    /// Number of documents processed by this instance. Monotonically
    /// increasing; never reset.
    pub docs_processed: u32,
    /// Whether this instance is currently claimed by a job.
    pub is_busy: bool,
}

impl LibreOfficeInstance {
    /// A fresh, idle instance.
    pub fn new(id: usize) -> (r: Self)
        ensures
            r.id == id,
            r.docs_processed == 0,
            !r.is_busy,
    {
        Self { id, docs_processed: 0, is_busy: false }
    }

    /// Record one more processed document; the counter saturates rather
    /// than wrapping. Returns the new count.
    pub fn increment_docs(&mut self) -> (n: u32)
        ensures
            final(self).docs_processed == old(self).docs_processed.saturating_add(1),
            final(self).docs_processed >= old(self).docs_processed,
            final(self).id == old(self).id,
            final(self).is_busy == old(self).is_busy,
            n == final(self).docs_processed,
    {
        self.docs_processed = self.docs_processed.saturating_add(1);
        self.docs_processed
    }

    /// An instance is recycling-eligible exactly when it has processed at
    /// least `max_docs` documents. The flag is monotonic because the
    /// counter is: see [`lemma_recycling_monotonic`].
    pub fn needs_recycling(&self, max_docs: u32) -> (r: bool)
        ensures
            r == (self.docs_processed >= max_docs),
    {
        self.docs_processed >= max_docs
    }

    /// Set or clear the busy flag.
    pub fn set_busy(&mut self, busy: bool)
        ensures
            *final(self) == (LibreOfficeInstance { is_busy: busy, ..*old(self) }),
    {
        self.is_busy = busy;
    }
}

/// Idempotent recycling flag: once the processed count has reached the
/// configured maximum it can only stay there, since no pool operation ever
/// decreases a counter.
pub proof fn lemma_recycling_monotonic(earlier: LibreOfficeInstance, later: LibreOfficeInstance, max_docs: u32)
    requires
        earlier.docs_processed <= later.docs_processed,
        earlier.docs_processed >= max_docs,
    ensures
        later.docs_processed >= max_docs,
{
}

/// How many instances are currently claimed.
pub open spec fn busy_count(s: Seq<LibreOfficeInstance>) -> int
    decreases s.len(),
{
    if s.len() == 0 {
        0
    } else {
        busy_count(s.drop_last()) + if s.last().is_busy {
            1int
        } else {
            0int
        }
    }
}

/// `busy_count` counts a subset of the instances.
pub proof fn lemma_busy_count_bounds(s: Seq<LibreOfficeInstance>)
    ensures
        0 <= busy_count(s) <= s.len(),
    decreases s.len(),
{
    if s.len() > 0 {
        lemma_busy_count_bounds(s.drop_last());
    }
}

/// Replacing one instance changes the busy count by exactly the change in
/// that instance's busy flag.
pub proof fn lemma_busy_count_update(s: Seq<LibreOfficeInstance>, i: int, v: LibreOfficeInstance)
    requires
        0 <= i < s.len(),
    ensures
        busy_count(s.update(i, v)) == busy_count(s) - (if s[i].is_busy {
            1int
        } else {
            0int
        }) + (if v.is_busy {
            1int
        } else {
            0int
        }),
    decreases s.len(),
{
    if i == s.len() - 1 {
        assert(s.update(i, v).drop_last() =~= s.drop_last());
    } else {
        lemma_busy_count_update(s.drop_last(), i, v);
        assert(s.update(i, v).drop_last() =~= s.drop_last().update(i, v));
    }
}

/// Index of the first idle instance, or `-1` when every instance is busy.
/// This is exactly the instance a checkout hands out.
pub open spec fn first_idle(s: Seq<LibreOfficeInstance>) -> int
    decreases s.len(),
{
    if s.len() == 0 {
        -1
    } else if !s[0].is_busy {
        0
    } else if first_idle(s.subrange(1, s.len() as int)) == -1 {
        -1
    } else {
        first_idle(s.subrange(1, s.len() as int)) + 1
    }
}

/// What [`first_idle`] returns: an idle instance preceded only by busy
/// ones, or `-1` exactly when all are busy.
pub proof fn lemma_first_idle(s: Seq<LibreOfficeInstance>)
    ensures
        -1 <= first_idle(s) < s.len(),
        first_idle(s) >= 0 ==> !s[first_idle(s)].is_busy,
        forall|j: int| 0 <= j < first_idle(s) ==> s[j].is_busy,
        first_idle(s) == -1 ==> forall|j: int| 0 <= j < s.len() ==> s[j].is_busy,
    decreases s.len(),
{
    if s.len() > 0 && s[0].is_busy {
        let t = s.subrange(1, s.len() as int);
        lemma_first_idle(t);
        assert(forall|j: int| 0 <= j < t.len() ==> t[j] == s[j + 1]);
        if first_idle(t) >= 0 {
            assert(first_idle(s) == first_idle(t) + 1);
            assert forall|j: int| 0 <= j < first_idle(s) implies s[j].is_busy by {
                if j > 0 {
                    assert(t[j - 1] == s[j]);
                }
            }
        } else {
            assert forall|j: int| 0 <= j < s.len() implies s[j].is_busy by {
                if j > 0 {
                    assert(t[j - 1] == s[j]);
                }
            }
        }
    }
}

/// A busy instance makes the busy count positive.
pub proof fn lemma_busy_count_member(s: Seq<LibreOfficeInstance>, i: int)
    requires
        0 <= i < s.len(),
        s[i].is_busy,
    ensures
        busy_count(s) >= 1,
    decreases s.len(),
{
    lemma_busy_count_bounds(s.drop_last());
    if i < s.len() - 1 {
        lemma_busy_count_member(s.drop_last(), i);
    }
}

/// Instance exclusivity: an instance that is marked busy is never the one
/// a checkout hands out, so no instance is ever claimed by two in-flight
/// jobs at once.
pub proof fn lemma_instance_exclusivity(s: Seq<LibreOfficeInstance>, i: int)
    requires
        0 <= i < s.len(),
        s[i].is_busy,
    ensures
        first_idle(s) != i,
{
    lemma_first_idle(s);
}

/// Instance exclusivity across consecutive claims: once a checkout has
/// claimed the first idle instance, a second checkout on the resulting
/// state cannot hand out the same instance until it is released.
pub proof fn lemma_two_checkouts_distinct(s: Seq<LibreOfficeInstance>)
    requires
        first_idle(s) >= 0,
    ensures
        first_idle(
            s.update(
                first_idle(s),
                LibreOfficeInstance { is_busy: true, ..s[first_idle(s)] },
            ),
        ) != first_idle(s),
{
    let i = first_idle(s);
    lemma_first_idle(s);
    let t = s.update(i, LibreOfficeInstance { is_busy: true, ..s[i] });
    lemma_instance_exclusivity(t, i);
}

/// Relies on uuid::Uuid::new_v4 and its display form: a freshly drawn
/// random identifier always renders hyphenated as exactly 36 characters.
/// Nothing more can be said of a random value; distinct calls are
/// expected, not promised.
#[verifier::external_body]
fn fresh_job_id() -> (r: String)
    ensures
        r@.len() == 36,
{
    uuid::Uuid::new_v4().to_string()
}

/// A fresh, uniquely named output directory path for one job under
/// `base`, so that concurrent jobs sharing an instance's invocation path
/// never collide: `base` itself, a separator, then a 36-character job
/// identifier. The host creates the directory.
pub fn job_output_dir(base: &str) -> (r: String)
    ensures
        r@.len() == base@.len() + 37,
        r@.subrange(0, base@.len() as int) == base@,
        r@[base@.len() as int] == '/',
{
    let id = fresh_job_id();
    let mut r = String::from_str(base);
    r.append("/");
    r.append(id.as_str());
    proof {
        reveal_strlit("/");
        assert(r@.subrange(0, base@.len() as int) =~= base@);
    }
    r
}

/// Health snapshot for one instance.
#[derive(Debug, Clone, Copy, PartialEq, Eq, Structural)]
pub struct InstanceHealth {
    /// Instance id.
    pub id: usize,
    /// Documents processed by this instance.
    pub docs_processed: u32,
    /// Whether currently busy.
    pub is_busy: bool,
    /// Whether the instance is recycling-eligible.
    pub needs_recycling: bool,
}

/// Health snapshot for the pool.
#[derive(Debug, Clone)]
pub struct PoolHealth {
    /// Total pool size.
    pub pool_size: usize,
    /// Total documents processed.
    pub total_processed: usize,
    /// Whether the pool is shut down.
    pub is_shutdown: bool,
    /// Per-instance health.
    pub instances: Vec<InstanceHealth>,
}

/// What the host observed of one external-tool run. The pool never sees
/// the subprocess itself, only this plain summary of its outcome.
#[derive(Debug, Clone)]
pub enum ToolOutcome {
    /// The process could not be started; carries the host error text.
    SpawnFailed(String),
    /// The process exceeded the configured per-job timeout and was killed.
    TimedOut,
    /// The process ran to completion.
    Exited {
        /// Whether it exited with status zero.
        success: bool,
        /// Its diagnostic output.
        stderr: String,
    },
}

/// Pool of worker instances for parallel document conversion.
#[derive(Debug, Clone)]
pub struct LibreOfficePool {
    /// Pool configuration.
    pub config: PoolConfig,
    /// Instances in the pool; instance ids equal indices.
    pub instances: Vec<LibreOfficeInstance>,
    /// Permits still available for admission. A job holds a permit from
    /// acquisition until its instance is released.
    pub available_permits: usize,
    /// Whether the pool is shut down.
    pub is_shutdown: bool,
    /// Total documents processed across all instances.
    pub total_processed: usize,
}

impl LibreOfficePool {
    /// Pool well-formedness: the admission counter is sized to the pool, so permits
    /// still available plus instances claimed never exceed the pool size,
    /// and instance ids equal their indices.
    pub open spec fn wf(&self) -> bool {
        &&& self.config.valid()
        &&& self.instances@.len() == self.config.pool_size
        &&& self.available_permits + busy_count(self.instances@) <= self.config.pool_size
        &&& forall|i: int| 0 <= i < self.instances@.len() ==> self.instances@[i].id == i
    }

    /// Admission bound: in any well-formed pool state, at most
    /// `pool_size` instances are claimed at once; more precisely, claimed
    /// instances and available permits together never exceed the
    /// admission capacity.
    pub proof fn lemma_admission_bound(&self)
        requires
            self.wf(),
        ensures
            busy_count(self.instances@) <= self.config.pool_size - self.available_permits,
            busy_count(self.instances@) <= self.config.pool_size,
    {
    }

    /// Create a new pool: validation, instance bookkeeping and the
    /// admission limiter. The host pairs it with working directories and the
    /// external tool's location.
    pub fn new(config: PoolConfig) -> (r: ConvResult<LibreOfficePool>)
        ensures
            config.valid() ==> (r matches Ok(p) && p.wf() && p.config == config
                && p.available_permits == config.pool_size && !p.is_shutdown
                && p.total_processed == 0 && p.instances@.len() == config.pool_size && (
            forall|i: int|
                0 <= i < config.pool_size ==> !p.instances@[i].is_busy
                    && p.instances@[i].docs_processed == 0)),
            !config.valid() ==> (r matches Err(e) && e matches ConversionError::InvalidConfig(_)),
    {
        match config.validate() {
            Ok(_) => (),
            Err(e) => {
                return Err(e);
            },
        }
        let pool_size = config.pool_size;
        let mut instances: Vec<LibreOfficeInstance> = Vec::new();
        let mut i: usize = 0;
        while i < pool_size
            invariant
                i <= pool_size,
                instances@.len() == i,
                forall|j: int|
                    0 <= j < i ==> instances@[j].id == j && !instances@[j].is_busy
                        && instances@[j].docs_processed == 0,
            decreases pool_size - i,
        {
            instances.push(LibreOfficeInstance::new(i));
            i = i + 1;
        }
        proof {
            lemma_busy_count_all_idle(instances@);
        }
        Ok(
            LibreOfficePool {
                config,
                instances,
                available_permits: pool_size,
                is_shutdown: false,
                total_processed: 0,
            },
        )
    }

    /// Pre-admission validation: a request is rejected without consuming
    /// an admission slot when the pool is shut down, the input is missing,
    /// or its extension is unsupported. The host reports whether the input
    /// exists; everything else is decided here.
    pub fn check_request(&self, input_path: &str, input_exists: bool) -> (r: ConvResult<()>)
        ensures
            self.is_shutdown ==> (r matches Err(e) && e matches ConversionError::PoolShutdown),
            !self.is_shutdown && !input_exists ==> (r matches Err(e) && (e matches
            ConversionError::InputNotFound(p) && p@ == input_path@)),
            !self.is_shutdown && input_exists && !supported_extension(
                text::path_extension(input_path@),
            ) ==> (r matches Err(e) && (e matches ConversionError::UnsupportedFormat { extension }
                && extension@ == text::path_extension(input_path@))),
            !self.is_shutdown && input_exists && supported_extension(
                text::path_extension(input_path@),
            ) ==> r is Ok,
    {
        if self.is_shutdown {
            return Err(ConversionError::PoolShutdown);
        }
        if !input_exists {
            return Err(ConversionError::InputNotFound(String::from_str(input_path)));
        }
        let ext = text::extension_of(input_path);
        if !is_supported_extension(ext.as_str()) {
            return Err(ConversionError::UnsupportedFormat { extension: ext });
        }
        Ok(())
    }

    /// Try to take one admission permit. `Ok(true)` takes a permit,
    /// `Ok(false)` means no permit is currently free and the host must
    /// wait and retry; a shut-down pool fails instead of blocking.
    pub fn try_acquire_permit(&mut self) -> (r: ConvResult<bool>)
        requires
            old(self).wf(),
        ensures
            final(self).wf(),
            old(self).is_shutdown ==> (r matches Err(e) && e matches ConversionError::PoolShutdown)
                && *final(self) == *old(self),
            !old(self).is_shutdown && old(self).available_permits == 0 ==> (r matches Ok(false)
                && *final(self) == *old(self)),
            !old(self).is_shutdown && old(self).available_permits > 0 ==> (r matches Ok(true)
                && *final(self) == (LibreOfficePool {
                available_permits: (old(self).available_permits - 1) as usize,
                ..*old(self)
            })),
    {
        if self.is_shutdown {
            return Err(ConversionError::PoolShutdown);
        }
        if self.available_permits == 0 {
            return Ok(false);
        }
        self.available_permits = self.available_permits - 1;
        Ok(true)
    }

    /// Claim the first idle instance for the calling job, marking it busy.
    /// Under the pool invariant a caller holding a permit always finds
    /// one; an all-busy pool is surfaced as a typed error, never a block
    /// or a panic.
    pub fn checkout_instance(&mut self) -> (r: ConvResult<usize>)
        requires
            old(self).wf(),
        ensures
            first_idle(old(self).instances@) >= 0 ==> (r matches Ok(i)
                && i == first_idle(old(self).instances@) && i < old(self).instances@.len()
                && !old(self).instances@[i as int].is_busy && final(self).instances@ == old(self).instances@.update(
                i as int,
                LibreOfficeInstance { is_busy: true, ..old(self).instances@[i as int] },
            ) && final(self).config == old(self).config && final(self).available_permits == old(self).available_permits && final(self).is_shutdown == old(self).is_shutdown && final(self).total_processed == old(self).total_processed),
            first_idle(old(self).instances@) == -1 ==> (r matches Err(e) && e matches
                ConversionError::PoolExhausted { pool_size } && pool_size == old(self).config.pool_size) && *final(self) == *old(self),
            old(self).available_permits + busy_count(old(self).instances@) < old(self).config.pool_size ==> r is Ok && final(self).wf(),
    {
        proof {
            lemma_first_idle(self.instances@);
            lemma_busy_count_bounds(self.instances@);
        }
        let n = self.instances.len();
        let mut i: usize = 0;
        while i < n
            invariant
                old(self).wf(),
                *self == *old(self),
                n == self.instances@.len(),
                i <= n,
                forall|j: int| 0 <= j < i ==> self.instances@[j].is_busy,
                -1 <= first_idle(self.instances@) < n,
                first_idle(self.instances@) >= 0 ==> !self.instances@[first_idle(
                    self.instances@,
                )].is_busy,
                forall|j: int| 0 <= j < first_idle(self.instances@) ==> self.instances@[j].is_busy,
                first_idle(self.instances@) == -1 ==> forall|j: int|
                    0 <= j < n ==> self.instances@[j].is_busy,
            decreases n - i,
        {
            if !self.instances[i].is_busy {
                let ghost s = self.instances@;
                let ghost v = LibreOfficeInstance { is_busy: true, ..s[i as int] };
                proof {
                    assert(first_idle(s) == i);
                    lemma_busy_count_update(s, i as int, v);
                }
                let inst = &mut self.instances[i];
                inst.set_busy(true);
                proof {
                    assert(self.instances@ =~= s.update(i as int, v));
                    assert(busy_count(self.instances@) == busy_count(s) + 1);
                    assert forall|j: int|
                        0 <= j < self.instances@.len() implies self.instances@[j].id == j by {
                        assert(s[j].id == j);
                    }
                    if self.available_permits + busy_count(s) < self.config.pool_size {
                        assert(self.wf());
                    }
                }
                return Ok(i);
            }
            i = i + 1;
        }
        proof {
            lemma_busy_count_all_busy(self.instances@);
        }
        Err(ConversionError::PoolExhausted { pool_size: self.config.pool_size })
    }

    /// Release a claimed instance and its admission permit. On success the
    /// instance's counter and the pool total advance; both saturate rather
    /// than wrapping, and neither ever decreases.
    pub fn release_instance(&mut self, idx: usize, success: bool)
        requires
            old(self).wf(),
            idx < old(self).instances@.len(),
            old(self).instances@[idx as int].is_busy,
        ensures
            final(self).wf(),
            final(self).instances@.len() == old(self).instances@.len(),
            !final(self).instances@[idx as int].is_busy,
            final(self).instances@[idx as int].id == old(self).instances@[idx as int].id,
            final(self).instances@[idx as int].docs_processed == if success {
                old(self).instances@[idx as int].docs_processed.saturating_add(1)
            } else {
                old(self).instances@[idx as int].docs_processed
            },
            forall|j: int|
                0 <= j < old(self).instances@.len() && j != idx ==> final(self).instances@[j]
                    == old(self).instances@[j],
            final(self).available_permits == old(self).available_permits + 1,
            final(self).total_processed == if success {
                old(self).total_processed.saturating_add(1)
            } else {
                old(self).total_processed
            },
            final(self).config == old(self).config,
            final(self).is_shutdown == old(self).is_shutdown,
            final(self).instances@[idx as int].docs_processed >= old(self).instances@[
                idx as int
            ].docs_processed,
    {
        proof {
            lemma_busy_count_bounds(self.instances@);
            lemma_busy_count_member(self.instances@, idx as int);
            lemma_busy_count_update(
                self.instances@,
                idx as int,
                LibreOfficeInstance {
                    is_busy: false,
                    docs_processed: if success {
                        self.instances@[idx as int].docs_processed.saturating_add(1)
                    } else {
                        self.instances@[idx as int].docs_processed
                    },
                    ..self.instances@[idx as int]
                },
            );
        }
        let inst = &mut self.instances[idx];
        if success {
            inst.increment_docs();
        }
        inst.set_busy(false);
        if success {
            self.total_processed = self.total_processed.saturating_add(1);
        }
        self.available_permits = self.available_permits + 1;
    }

    /// Classify what the host observed of one external-tool run, and
    /// resolve the produced intermediate file. `produced_pdf` is the
    /// intermediate file the host located after a successful exit (by
    /// expected name, falling back to scanning the job's output
    /// directory).
    pub fn resolve_tool_result(
        &self,
        input_path: &str,
        outcome: ToolOutcome,
        produced_pdf: Option<String>,
    ) -> (r: ConvResult<String>)
        ensures
            outcome matches ToolOutcome::TimedOut ==> (r matches Err(e) && (e matches
            ConversionError::Timeout { path, timeout_secs } && path@ == input_path@
                && timeout_secs == self.config.conversion_timeout_secs)),
            outcome matches ToolOutcome::SpawnFailed(m) ==> (r matches Err(e) && (e matches
            ConversionError::ProcessStartFailed(pm) && pm == m)),
            outcome matches ToolOutcome::Exited { success: false, stderr } ==> (r matches Err(e)
                && (e matches ConversionError::ConversionFailed { path, message } && path@
                == input_path@ && message == stderr)),
            (outcome matches ToolOutcome::Exited { success: true, .. }) && produced_pdf is None
                ==> (r matches Err(e) && (e matches ConversionError::ConversionFailed {
                path,
                message,
            } && path@ == input_path@ && message@ == "PDF output file not found"@)),
            outcome matches ToolOutcome::Exited { success: true, .. } ==> (produced_pdf matches
                Some(p) ==> r == Ok::<String, ConversionError>(p)),
    {
        match outcome {
            ToolOutcome::TimedOut => {
                Err(
                    ConversionError::Timeout {
                        path: String::from_str(input_path),
                        timeout_secs: self.config.conversion_timeout_secs,
                    },
                )
            },
            ToolOutcome::SpawnFailed(m) => Err(ConversionError::ProcessStartFailed(m)),
            ToolOutcome::Exited { success: false, stderr } => {
                Err(
                    ConversionError::ConversionFailed {
                        path: String::from_str(input_path),
                        message: stderr,
                    },
                )
            },
            ToolOutcome::Exited { success: true, .. } => {
                match produced_pdf {
                    Some(p) => Ok(p),
                    None => {
                        Err(
                            ConversionError::ConversionFailed {
                                path: String::from_str(input_path),
                                message: String::from_str("PDF output file not found"),
                            },
                        )
                    },
                }
            },
        }
    }

    /// The intermediate file the external tool is expected to produce
    /// for an input: the input's stem (or `output`) with the intermediate
    /// extension, inside the job's output directory.
    pub fn expected_pdf_path(&self, output_dir: &str, input_path: &str) -> (r: String)
        ensures
            r@ == output_dir@ + "/"@ + text::stem_or_default(input_path@) + ".pdf"@,
    {
        let mut r = String::from_str(output_dir);
        r.append("/");
        let stem = text::stem_of_or_default(input_path);
        r.append(stem.as_str());
        r.append(".pdf");
        proof {
            assert(r@ =~= output_dir@ + "/"@ + text::stem_or_default(input_path@) + ".pdf"@);
        }
        r
    }

    /// A consistent snapshot of the pool: per-instance counters, busy
    /// flags and recycling eligibility, plus the pool totals.
    pub fn health(&self) -> (h: PoolHealth)
        ensures
            h.pool_size == self.config.pool_size,
            h.total_processed == self.total_processed,
            h.is_shutdown == self.is_shutdown,
            h.instances@.len() == self.instances@.len(),
            forall|i: int|
                0 <= i < self.instances@.len() ==> h.instances@[i] == (InstanceHealth {
                    id: self.instances@[i].id,
                    docs_processed: self.instances@[i].docs_processed,
                    is_busy: self.instances@[i].is_busy,
                    needs_recycling: self.instances@[i].docs_processed
                        >= self.config.max_docs_per_instance,
                }),
    {
        let n = self.instances.len();
        let mut infos: Vec<InstanceHealth> = Vec::new();
        let mut i: usize = 0;
        while i < n
            invariant
                n == self.instances@.len(),
                i <= n,
                infos@.len() == i,
                forall|j: int|
                    0 <= j < i ==> infos@[j] == (InstanceHealth {
                        id: self.instances@[j].id,
                        docs_processed: self.instances@[j].docs_processed,
                        is_busy: self.instances@[j].is_busy,
                        needs_recycling: self.instances@[j].docs_processed
                            >= self.config.max_docs_per_instance,
                    }),
            decreases n - i,
        {
            let inst = &self.instances[i];
            infos.push(
                InstanceHealth {
                    id: inst.id,
                    docs_processed: inst.docs_processed,
                    is_busy: inst.is_busy,
                    needs_recycling: inst.needs_recycling(self.config.max_docs_per_instance),
                },
            );
            i = i + 1;
        }
        PoolHealth {
            pool_size: self.config.pool_size,
            total_processed: self.total_processed,
            is_shutdown: self.is_shutdown,
            instances: infos,
        }
    }

    /// Shut the pool down: future admissions fail fast; in-flight jobs are
    /// unaffected and may still be released.
    pub fn shutdown(&mut self)
        ensures
            *final(self) == (LibreOfficePool { is_shutdown: true, ..*old(self) }),
    {
        self.is_shutdown = true;
    }

    /// The total number of documents processed.
    pub fn total_processed(&self) -> (n: usize)
        ensures
            n == self.total_processed,
    {
        self.total_processed
    }
}

/// A pool of fresh instances has no busy ones.
proof fn lemma_busy_count_all_idle(s: Seq<LibreOfficeInstance>)
    requires
        forall|j: int| 0 <= j < s.len() ==> !s[j].is_busy,
    ensures
        busy_count(s) == 0,
    decreases s.len(),
{
    if s.len() > 0 {
        lemma_busy_count_all_idle(s.drop_last());
    }
}

/// When every instance is busy the count is the whole pool.
proof fn lemma_busy_count_all_busy(s: Seq<LibreOfficeInstance>)
    requires
        forall|j: int| 0 <= j < s.len() ==> s[j].is_busy,
    ensures
        busy_count(s) == s.len(),
    decreases s.len(),
{
    if s.len() > 0 {
        lemma_busy_count_all_busy(s.drop_last());
    }
}

} // verus!
