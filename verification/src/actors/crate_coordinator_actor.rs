//! Processing-state tracking for the crates that move through the pipeline.
//!
//! The coordinator keeps one [`CrateProcessingState`] per crate, moves it
//! through the pipeline stages as events arrive, counts persisted chunks and
//! embeddings (each counted once, however often it is reported), asks for
//! retries after download and extraction failures, announces completion,
//! and reports crates whose processing has not advanced for too long.
//!
//! Time is a number of milliseconds on a monotonic clock that the caller
//! reads and hands to every operation.

use vstd::prelude::*;
use vstd::string::StringExecFns;

use crate::actors::config::CoordinatorConfig;
use crate::crate_specifier::{CrateSpecifier, CrateSpecifierView};
use crate::text::{clone_strings, decimal, push_decimal, strings_view};

verus! {

/// Processing status enum tracking pipeline progression
#[derive(Debug, Clone, Copy, PartialEq, Eq, Structural)]
pub enum ProcessingStatus {
    /// Initial state - crate received for processing
    Received,
    /// Downloading crate from crates.io
    Downloading,
    /// Download completed successfully
    Downloaded,
    /// Download failed
    DownloadFailed,
    /// Extracting documentation
    Extracting,
    /// Documentation extraction completed
    Extracted,
    /// Documentation extraction failed
    ExtractionFailed,
    /// Chunking documentation
    Chunking,
    /// Documentation chunked successfully
    Chunked,
    /// Vectorizing documentation
    Vectorizing,
    /// Documentation vectorized successfully
    Vectorized,
    /// Processing completed successfully
    Complete,
    /// Processing failed permanently
    Failed,
}

/// The failure states.
pub open spec fn status_is_failure(s: ProcessingStatus) -> bool {
    s == ProcessingStatus::DownloadFailed || s == ProcessingStatus::ExtractionFailed || s
        == ProcessingStatus::Failed
}

/// The terminal states.
pub open spec fn status_is_terminal(s: ProcessingStatus) -> bool {
    s == ProcessingStatus::Complete || s == ProcessingStatus::Failed
}

/// The name of a status as reported for a timed-out stage: its variant name
/// in lower case.
pub open spec fn status_stage_name(s: ProcessingStatus) -> Seq<char> {
    match s {
        ProcessingStatus::Received => "received"@,
        ProcessingStatus::Downloading => "downloading"@,
        ProcessingStatus::Downloaded => "downloaded"@,
        ProcessingStatus::DownloadFailed => "downloadfailed"@,
        ProcessingStatus::Extracting => "extracting"@,
        ProcessingStatus::Extracted => "extracted"@,
        ProcessingStatus::ExtractionFailed => "extractionfailed"@,
        ProcessingStatus::Chunking => "chunking"@,
        ProcessingStatus::Chunked => "chunked"@,
        ProcessingStatus::Vectorizing => "vectorizing"@,
        ProcessingStatus::Vectorized => "vectorized"@,
        ProcessingStatus::Complete => "complete"@,
        ProcessingStatus::Failed => "failed"@,
    }
}

impl ProcessingStatus {
    /// Returns true if this status represents a failure state
    pub fn is_failure(&self) -> (r: bool)
        ensures
            r == status_is_failure(*self),
    {
        match self {
            ProcessingStatus::DownloadFailed | ProcessingStatus::ExtractionFailed
            | ProcessingStatus::Failed => true,
            _ => false,
        }
    }

    /// Returns true if this status represents a terminal state
    pub fn is_terminal(&self) -> (r: bool)
        ensures
            r == status_is_terminal(*self),
    {
        match self {
            ProcessingStatus::Complete | ProcessingStatus::Failed => true,
            _ => false,
        }
    }

    /// The name of this status as reported for a timed-out stage.
    pub fn stage_name(&self) -> (s: &'static str)
        ensures
            s@ == status_stage_name(*self),
    {
        match self {
            ProcessingStatus::Received => "received",
            ProcessingStatus::Downloading => "downloading",
            ProcessingStatus::Downloaded => "downloaded",
            ProcessingStatus::DownloadFailed => "downloadfailed",
            ProcessingStatus::Extracting => "extracting",
            ProcessingStatus::Extracted => "extracted",
            ProcessingStatus::ExtractionFailed => "extractionfailed",
            ProcessingStatus::Chunking => "chunking",
            ProcessingStatus::Chunked => "chunked",
            ProcessingStatus::Vectorizing => "vectorizing",
            ProcessingStatus::Vectorized => "vectorized",
            ProcessingStatus::Complete => "complete",
            ProcessingStatus::Failed => "failed",
        }
    }
}

/// Processing state for a single crate
#[derive(Debug, Clone)]
pub struct CrateProcessingState {
    /// Crate specifier
    pub specifier: CrateSpecifier,
    /// Requested features
    pub features: Vec<String>,
    /// Current processing status
    pub status: ProcessingStatus,
    /// When processing started (milliseconds)
    pub started_at: u64,
    /// When state was last updated (milliseconds)
    pub last_updated: u64,
    /// Number of retry attempts
    pub retry_count: u32,
    /// Error message if failed
    pub error: Option<String>,
    /// Expected number of chunks to be persisted (None until chunking is reported)
    pub expected_chunks: Option<u32>,
    /// Identifiers of the chunks persisted so far, each once
    pub persisted_chunks: Vec<String>,
    /// Expected number of embeddings to be persisted (None until vectorization is reported)
    pub expected_vectors: Option<u32>,
    /// Identifiers of the chunks whose embeddings were persisted so far, each once
    pub persisted_vectors: Vec<String>,
    /// Embedding model name (captured when vectorization is reported)
    pub embedding_model: Option<String>,
}

/// The mathematical content of a [`CrateProcessingState`].
pub struct StateView {
    pub specifier: CrateSpecifierView,
    pub features: Seq<Seq<char>>,
    pub status: ProcessingStatus,
    pub started_at: u64,
    pub last_updated: u64,
    pub retry_count: u32,
    pub error: Option<Seq<char>>,
    pub expected_chunks: Option<u32>,
    pub persisted_chunks: Seq<Seq<char>>,
    pub expected_vectors: Option<u32>,
    pub persisted_vectors: Seq<Seq<char>>,
    pub embedding_model: Option<Seq<char>>,
}

pub open spec fn opt_view(o: Option<String>) -> Option<Seq<char>> {
    match o {
        Some(s) => Some(s@),
        None => None,
    }
}

impl View for CrateProcessingState {
    type V = StateView;

    open spec fn view(&self) -> StateView {
        StateView {
            specifier: self.specifier@,
            features: strings_view(self.features@),
            status: self.status,
            started_at: self.started_at,
            last_updated: self.last_updated,
            retry_count: self.retry_count,
            error: opt_view(self.error),
            expected_chunks: self.expected_chunks,
            persisted_chunks: strings_view(self.persisted_chunks@),
            expected_vectors: self.expected_vectors,
            persisted_vectors: strings_view(self.persisted_vectors@),
            embedding_model: opt_view(self.embedding_model),
        }
    }
}

/// `s` with `k` added at the end unless it already holds it.
pub open spec fn insert_distinct(s: Seq<Seq<char>>, k: Seq<char>) -> Seq<Seq<char>> {
    if s.contains(k) {
        s
    } else {
        s.push(k)
    }
}

/// A count as a `u32`, saturating at `u32::MAX`.
pub open spec fn sat_u32(n: nat) -> u32 {
    if n <= u32::MAX {
        n as u32
    } else {
        u32::MAX
    }
}

/// `a - b`, or 0 when `b > a`.
pub open spec fn sat_sub(a: u64, b: u64) -> u64 {
    if a >= b {
        (a - b) as u64
    } else {
        0
    }
}

/// `n + 1`, saturating at `u32::MAX`.
pub open spec fn sat_inc(n: u32) -> u32 {
    if n < u32::MAX {
        (n + 1) as u32
    } else {
        u32::MAX
    }
}

/// The state of a crate just received: it starts downloading at once.
pub open spec fn received_state(
    specifier: CrateSpecifierView,
    features: Seq<Seq<char>>,
    now: u64,
) -> StateView {
    StateView {
        specifier,
        features,
        status: ProcessingStatus::Downloading,
        started_at: now,
        last_updated: now,
        retry_count: 0,
        error: None,
        expected_chunks: None,
        persisted_chunks: Seq::empty(),
        expected_vectors: None,
        persisted_vectors: Seq::empty(),
        embedding_model: None,
    }
}

/// Whole seconds elapsed since the state was last updated.
pub open spec fn seconds_since_update(st: StateView, now: u64) -> u64 {
    (sat_sub(now, st.last_updated) / 1000) as u64
}

/// A state that has not advanced for longer than the timeout and is not terminal.
pub open spec fn timed_out(st: StateView, timeout_secs: u64, now: u64) -> bool {
    !status_is_terminal(st.status) && seconds_since_update(st, now) > timeout_secs
}

/// The pipeline stage whose failure asks for a retry.
#[derive(Debug, Clone, Copy, PartialEq, Eq, Structural)]
pub enum RetryStage {
    /// The download failed (reported as a retryable network failure)
    Download,
    /// The extraction failed (reported as a corrupted archive)
    Extraction,
}

impl RetryStage {
    /// Whether a failure at this stage may be retried: a failed download is
    /// reported as a retryable network failure, a failed extraction as a
    /// corrupted archive, which a retry would not mend.
    pub fn is_retryable(&self) -> (r: bool)
        ensures
            r == (*self == RetryStage::Download),
    {
        match self {
            RetryStage::Download => true,
            RetryStage::Extraction => false,
        }
    }
}

/// A message that the coordinator sends in reaction to an event.
#[derive(Debug, Clone)]
pub enum CoordinatorAction {
    /// Ask the retry coordinator to schedule another attempt.
    ScheduleRetry {
        specifier: CrateSpecifier,
        features: Vec<String>,
        stage: RetryStage,
        details: String,
    },
    /// Progress of chunk persistence.
    ChunkPersistenceProgress {
        specifier: CrateSpecifier,
        chunk_index: usize,
        persisted_count: u32,
        total_chunks: u32,
    },
    /// All chunks were persisted.
    ChunksPersistenceComplete { specifier: CrateSpecifier, chunk_count: u32 },
    /// Progress of embedding persistence.
    EmbeddingPersistenceProgress {
        specifier: CrateSpecifier,
        chunk_id: String,
        persisted_count: u32,
        total_vectors: u32,
        embedding_model: String,
    },
    /// All embeddings were persisted.
    EmbeddingsPersistenceComplete {
        specifier: CrateSpecifier,
        vector_count: u32,
        embedding_model: String,
    },
    /// The crate went through every stage.
    CrateProcessingComplete {
        specifier: CrateSpecifier,
        features: Vec<String>,
        total_duration_ms: u64,
        stages_completed: u32,
    },
    /// The crate's processing failed (here: timed out in a stage).
    CrateProcessingFailed { specifier: CrateSpecifier, stage: String, error: String },
}

/// The mathematical content of a [`CoordinatorAction`].
pub enum ActionView {
    ScheduleRetry {
        specifier: CrateSpecifierView,
        features: Seq<Seq<char>>,
        stage: RetryStage,
        details: Seq<char>,
    },
    ChunkPersistenceProgress {
        specifier: CrateSpecifierView,
        chunk_index: usize,
        persisted_count: u32,
        total_chunks: u32,
    },
    ChunksPersistenceComplete { specifier: CrateSpecifierView, chunk_count: u32 },
    EmbeddingPersistenceProgress {
        specifier: CrateSpecifierView,
        chunk_id: Seq<char>,
        persisted_count: u32,
        total_vectors: u32,
        embedding_model: Seq<char>,
    },
    EmbeddingsPersistenceComplete {
        specifier: CrateSpecifierView,
        vector_count: u32,
        embedding_model: Seq<char>,
    },
    CrateProcessingComplete {
        specifier: CrateSpecifierView,
        features: Seq<Seq<char>>,
        total_duration_ms: u64,
        stages_completed: u32,
    },
    CrateProcessingFailed { specifier: CrateSpecifierView, stage: Seq<char>, error: Seq<char> },
}

impl View for CoordinatorAction {
    type V = ActionView;

    open spec fn view(&self) -> ActionView {
        match self {
            CoordinatorAction::ScheduleRetry { specifier, features, stage, details } =>
                ActionView::ScheduleRetry {
                specifier: specifier@,
                features: strings_view(features@),
                stage: *stage,
                details: details@,
            },
            CoordinatorAction::ChunkPersistenceProgress {
                specifier,
                chunk_index,
                persisted_count,
                total_chunks,
            } => ActionView::ChunkPersistenceProgress {
                specifier: specifier@,
                chunk_index: *chunk_index,
                persisted_count: *persisted_count,
                total_chunks: *total_chunks,
            },
            CoordinatorAction::ChunksPersistenceComplete { specifier, chunk_count } =>
                ActionView::ChunksPersistenceComplete {
                specifier: specifier@,
                chunk_count: *chunk_count,
            },
            CoordinatorAction::EmbeddingPersistenceProgress {
                specifier,
                chunk_id,
                persisted_count,
                total_vectors,
                embedding_model,
            } => ActionView::EmbeddingPersistenceProgress {
                specifier: specifier@,
                chunk_id: chunk_id@,
                persisted_count: *persisted_count,
                total_vectors: *total_vectors,
                embedding_model: embedding_model@,
            },
            CoordinatorAction::EmbeddingsPersistenceComplete {
                specifier,
                vector_count,
                embedding_model,
            } => ActionView::EmbeddingsPersistenceComplete {
                specifier: specifier@,
                vector_count: *vector_count,
                embedding_model: embedding_model@,
            },
            CoordinatorAction::CrateProcessingComplete {
                specifier,
                features,
                total_duration_ms,
                stages_completed,
            } => ActionView::CrateProcessingComplete {
                specifier: specifier@,
                features: strings_view(features@),
                total_duration_ms: *total_duration_ms,
                stages_completed: *stages_completed,
            },
            CoordinatorAction::CrateProcessingFailed { specifier, stage, error } =>
                ActionView::CrateProcessingFailed {
                specifier: specifier@,
                stage: stage@,
                error: error@,
            },
        }
    }
}

pub open spec fn actions_view(v: Seq<CoordinatorAction>) -> Seq<ActionView> {
    Seq::new(v.len(), |i: int| v[i]@)
}

/// The events that the coordinator follows.
pub enum PipelineEvent {
    /// A crate was submitted for processing.
    CrateReceived { specifier: CrateSpecifier, features: Vec<String> },
    /// The crate was downloaded.
    CrateDownloaded { specifier: CrateSpecifier },
    /// The download failed.
    CrateDownloadFailed { specifier: CrateSpecifier, error_message: String },
    /// Documentation was extracted.
    DocumentationExtracted { specifier: CrateSpecifier },
    /// Documentation extraction failed.
    DocumentationExtractionFailed { specifier: CrateSpecifier, error_message: String },
    /// Documentation was split into `chunk_count` chunks.
    DocumentationChunked { specifier: CrateSpecifier, chunk_count: u32 },
    /// One chunk was persisted; `content_hash` is the key it is counted by
    /// (the store reports the chunk's identifier, which is unique per crate
    /// and position), so a chunk reported twice is counted once.
    DocChunkPersisted { specifier: CrateSpecifier, content_hash: String, chunk_index: usize },
    /// The embedding of one chunk was persisted.
    EmbeddingPersisted { specifier: CrateSpecifier, chunk_id: String },
    /// Embeddings were generated for `vector_count` chunks.
    DocumentationVectorized {
        specifier: CrateSpecifier,
        vector_count: u32,
        embedding_model: String,
    },
    /// Processing failed permanently.
    CrateProcessingFailed { specifier: CrateSpecifier, error: String },
    /// Time to look for crates whose processing stalled.
    CheckProcessingTimeouts,
}

/// The mathematical content of a [`PipelineEvent`].
pub enum EventView {
    CrateReceived { specifier: CrateSpecifierView, features: Seq<Seq<char>> },
    CrateDownloaded { specifier: CrateSpecifierView },
    CrateDownloadFailed { specifier: CrateSpecifierView, error_message: Seq<char> },
    DocumentationExtracted { specifier: CrateSpecifierView },
    DocumentationExtractionFailed { specifier: CrateSpecifierView, error_message: Seq<char> },
    DocumentationChunked { specifier: CrateSpecifierView, chunk_count: u32 },
    DocChunkPersisted {
        specifier: CrateSpecifierView,
        content_hash: Seq<char>,
        chunk_index: usize,
    },
    EmbeddingPersisted { specifier: CrateSpecifierView, chunk_id: Seq<char> },
    DocumentationVectorized {
        specifier: CrateSpecifierView,
        vector_count: u32,
        embedding_model: Seq<char>,
    },
    CrateProcessingFailed { specifier: CrateSpecifierView, error: Seq<char> },
    CheckProcessingTimeouts,
}

impl View for PipelineEvent {
    type V = EventView;

    open spec fn view(&self) -> EventView {
        match self {
            PipelineEvent::CrateReceived { specifier, features } => EventView::CrateReceived {
                specifier: specifier@,
                features: strings_view(features@),
            },
            PipelineEvent::CrateDownloaded { specifier } => EventView::CrateDownloaded {
                specifier: specifier@,
            },
            PipelineEvent::CrateDownloadFailed { specifier, error_message } =>
                EventView::CrateDownloadFailed {
                specifier: specifier@,
                error_message: error_message@,
            },
            PipelineEvent::DocumentationExtracted { specifier } =>
                EventView::DocumentationExtracted { specifier: specifier@ },
            PipelineEvent::DocumentationExtractionFailed { specifier, error_message } =>
                EventView::DocumentationExtractionFailed {
                specifier: specifier@,
                error_message: error_message@,
            },
            PipelineEvent::DocumentationChunked { specifier, chunk_count } =>
                EventView::DocumentationChunked { specifier: specifier@, chunk_count: *chunk_count },
            PipelineEvent::DocChunkPersisted { specifier, content_hash, chunk_index } =>
                EventView::DocChunkPersisted {
                specifier: specifier@,
                content_hash: content_hash@,
                chunk_index: *chunk_index,
            },
            PipelineEvent::EmbeddingPersisted { specifier, chunk_id } =>
                EventView::EmbeddingPersisted { specifier: specifier@, chunk_id: chunk_id@ },
            PipelineEvent::DocumentationVectorized { specifier, vector_count, embedding_model } =>
                EventView::DocumentationVectorized {
                specifier: specifier@,
                vector_count: *vector_count,
                embedding_model: embedding_model@,
            },
            PipelineEvent::CrateProcessingFailed { specifier, error } =>
                EventView::CrateProcessingFailed { specifier: specifier@, error: error@ },
            PipelineEvent::CheckProcessingTimeouts => EventView::CheckProcessingTimeouts,
        }
    }
}

/// A state, and the messages that an event made the coordinator send.
pub struct Reaction {
    pub state: StateView,
    pub actions: Seq<ActionView>,
}

/// What an event about a tracked crate does to its state.
pub open spec fn crate_reaction(st: StateView, e: EventView, now: u64) -> Reaction {
    match e {
        EventView::CrateDownloaded { .. } => Reaction {
            state: StateView { status: ProcessingStatus::Extracting, last_updated: now, ..st },
            actions: Seq::empty(),
        },
        EventView::CrateDownloadFailed { error_message, .. } => Reaction {
            state: StateView {
                status: ProcessingStatus::DownloadFailed,
                error: Some(error_message),
                retry_count: sat_inc(st.retry_count),
                last_updated: now,
                ..st
            },
            actions: seq![
                ActionView::ScheduleRetry {
                    specifier: st.specifier,
                    features: st.features,
                    stage: RetryStage::Download,
                    details: error_message,
                },
            ],
        },
        EventView::DocumentationExtracted { .. } => Reaction {
            state: StateView { status: ProcessingStatus::Chunking, last_updated: now, ..st },
            actions: Seq::empty(),
        },
        EventView::DocumentationExtractionFailed { error_message, .. } => Reaction {
            state: StateView {
                status: ProcessingStatus::ExtractionFailed,
                error: Some(error_message),
                retry_count: sat_inc(st.retry_count),
                last_updated: now,
                ..st
            },
            actions: seq![
                ActionView::ScheduleRetry {
                    specifier: st.specifier,
                    features: st.features,
                    stage: RetryStage::Extraction,
                    details: error_message,
                },
            ],
        },
        EventView::DocumentationChunked { chunk_count, .. } => Reaction {
            state: StateView {
                expected_chunks: Some(chunk_count),
                status: ProcessingStatus::Chunking,
                last_updated: now,
                ..st
            },
            actions: Seq::empty(),
        },
        EventView::DocChunkPersisted { content_hash, chunk_index, .. } => chunk_persisted(
            st,
            content_hash,
            chunk_index,
            now,
        ),
        EventView::EmbeddingPersisted { chunk_id, .. } => embedding_persisted(st, chunk_id, now),
        EventView::DocumentationVectorized { vector_count, embedding_model, .. } => Reaction {
            state: StateView {
                expected_vectors: Some(vector_count),
                embedding_model: Some(embedding_model),
                ..st
            },
            actions: Seq::empty(),
        },
        EventView::CrateProcessingFailed { error, .. } => Reaction {
            state: StateView {
                status: ProcessingStatus::Failed,
                error: Some(error),
                last_updated: now,
                ..st
            },
            actions: Seq::empty(),
        },
        _ => Reaction { state: st, actions: Seq::empty() },
    }
}

/// A chunk was persisted: it is counted once; when a new chunk brings the
/// count to the expected number the crate moves on to vectorizing. A chunk
/// already counted changes nothing and only progress is reported.
pub open spec fn chunk_persisted(
    st: StateView,
    key: Seq<char>,
    chunk_index: usize,
    now: u64,
) -> Reaction {
    let fresh = !st.persisted_chunks.contains(key);
    let chunks = insert_distinct(st.persisted_chunks, key);
    let counted = StateView { persisted_chunks: chunks, ..st };
    match st.expected_chunks {
        None => Reaction { state: counted, actions: Seq::empty() },
        Some(total) => {
            let count = sat_u32(chunks.len());
            let progress = ActionView::ChunkPersistenceProgress {
                specifier: st.specifier,
                chunk_index,
                persisted_count: count,
                total_chunks: total,
            };
            if count == total && fresh {
                Reaction {
                    state: StateView {
                        status: ProcessingStatus::Vectorizing,
                        last_updated: now,
                        ..counted
                    },
                    actions: seq![
                        progress,
                        ActionView::ChunksPersistenceComplete {
                            specifier: st.specifier,
                            chunk_count: total,
                        },
                    ],
                }
            } else {
                Reaction { state: counted, actions: seq![progress] }
            }
        },
    }
}

/// The embedding model reported for a crate (`unknown` until vectorization is reported).
pub open spec fn model_or_unknown(m: Option<Seq<char>>) -> Seq<char> {
    match m {
        Some(m) => m,
        None => "unknown"@,
    }
}

/// An embedding was persisted: it is counted once; when a new embedding
/// brings the count to the expected number the crate is complete. An
/// embedding already counted changes nothing and only progress is reported.
pub open spec fn embedding_persisted(st: StateView, chunk_id: Seq<char>, now: u64) -> Reaction {
    let fresh = !st.persisted_vectors.contains(chunk_id);
    let vectors = insert_distinct(st.persisted_vectors, chunk_id);
    let counted = StateView { persisted_vectors: vectors, ..st };
    match st.expected_vectors {
        None => Reaction { state: counted, actions: Seq::empty() },
        Some(total) => {
            let count = sat_u32(vectors.len());
            let model = model_or_unknown(st.embedding_model);
            let progress = ActionView::EmbeddingPersistenceProgress {
                specifier: st.specifier,
                chunk_id,
                persisted_count: count,
                total_vectors: total,
                embedding_model: model,
            };
            if count == total && fresh {
                Reaction {
                    state: StateView {
                        status: ProcessingStatus::Complete,
                        last_updated: now,
                        ..counted
                    },
                    actions: seq![
                        progress,
                        ActionView::EmbeddingsPersistenceComplete {
                            specifier: st.specifier,
                            vector_count: total,
                            embedding_model: model,
                        },
                        ActionView::CrateProcessingComplete {
                            specifier: st.specifier,
                            features: st.features,
                            total_duration_ms: sat_sub(now, st.started_at),
                            stages_completed: 4,
                        },
                    ],
                }
            } else {
                Reaction { state: counted, actions: seq![progress] }
            }
        },
    }
}

/// The message reported for a crate that timed out.
pub open spec fn timeout_message(timeout_secs: u64) -> Seq<char> {
    "Processing timeout after "@ + decimal(timeout_secs as nat) + "s"@
}

/// The failures reported by a timeout check, in the order of the states.
pub open spec fn timeout_actions(states: Seq<StateView>, timeout_secs: u64, now: u64) -> Seq<
    ActionView,
>
    decreases states.len(),
{
    if states.len() == 0 {
        Seq::empty()
    } else {
        let earlier = timeout_actions(states.drop_last(), timeout_secs, now);
        let st = states.last();
        if timed_out(st, timeout_secs, now) {
            earlier.push(
                ActionView::CrateProcessingFailed {
                    specifier: st.specifier,
                    stage: status_stage_name(st.status),
                    error: timeout_message(timeout_secs),
                },
            )
        } else {
            earlier
        }
    }
}

/// The position of the state of a crate, if it is tracked.
pub open spec fn find_state(states: Seq<StateView>, s: CrateSpecifierView) -> Option<int>
    decreases states.len(),
{
    if states.len() == 0 {
        None
    } else if states[0].specifier == s {
        Some(0)
    } else {
        match find_state(states.drop_first(), s) {
            Some(i) => Some(i + 1),
            None => None,
        }
    }
}

/// The crate that an event is about.
pub open spec fn event_specifier(e: EventView) -> CrateSpecifierView {
    match e {
        EventView::CrateReceived { specifier, .. } => specifier,
        EventView::CrateDownloaded { specifier } => specifier,
        EventView::CrateDownloadFailed { specifier, .. } => specifier,
        EventView::DocumentationExtracted { specifier } => specifier,
        EventView::DocumentationExtractionFailed { specifier, .. } => specifier,
        EventView::DocumentationChunked { specifier, .. } => specifier,
        EventView::DocChunkPersisted { specifier, .. } => specifier,
        EventView::EmbeddingPersisted { specifier, .. } => specifier,
        EventView::DocumentationVectorized { specifier, .. } => specifier,
        EventView::CrateProcessingFailed { specifier, .. } => specifier,
        EventView::CheckProcessingTimeouts => arbitrary(),
    }
}

/// The tracked states and the messages sent after an event.
pub struct CoordinatorStep {
    pub states: Seq<StateView>,
    pub actions: Seq<ActionView>,
}

/// What an event does to the coordinator: a received crate (re)starts its
/// tracking, a timeout check reports stalled crates, and any other event
/// updates the state of its crate; events about untracked crates are ignored.
pub open spec fn coordinator_step(
    states: Seq<StateView>,
    timeout_secs: u64,
    e: EventView,
    now: u64,
) -> CoordinatorStep {
    match e {
        EventView::CrateReceived { specifier, features } => {
            let fresh = received_state(specifier, features, now);
            match find_state(states, specifier) {
                Some(i) => CoordinatorStep { states: states.update(i, fresh), actions: Seq::empty() },
                None => CoordinatorStep { states: states.push(fresh), actions: Seq::empty() },
            }
        },
        EventView::CheckProcessingTimeouts => CoordinatorStep {
            states,
            actions: timeout_actions(states, timeout_secs, now),
        },
        _ => match find_state(states, event_specifier(e)) {
            None => CoordinatorStep { states, actions: Seq::empty() },
            Some(i) => {
                let r = crate_reaction(states[i], e, now);
                CoordinatorStep { states: states.update(i, r.state), actions: r.actions }
            },
        },
    }
}

/// No two states track the same crate.
pub open spec fn distinct_crates(states: Seq<StateView>) -> bool {
    forall|i: int, j: int|
        0 <= i < states.len() && 0 <= j < states.len() && i != j ==> states[i].specifier
            != states[j].specifier
}

/// No identifier occurs twice.
pub open spec fn no_repeats(s: Seq<Seq<char>>) -> bool {
    forall|i: int, j: int| 0 <= i < s.len() && 0 <= j < s.len() && i != j ==> s[i] != s[j]
}

/// A count of strings as a `u32`, saturating.
fn count_u32(n: usize) -> (c: u32)
    ensures
        c == sat_u32(n as nat),
{
    if n <= 0xffff_ffffusize {
        n as u32
    } else {
        0xffff_ffffu32
    }
}

/// Whether `v` holds a string with the characters of `k`.
fn contains_string(v: &Vec<String>, k: &String) -> (r: bool)
    ensures
        r == strings_view(v@).contains(k@),
{
    let mut i: usize = 0;
    while i < v.len()
        invariant
            i <= v.len(),
            forall|j: int| 0 <= j < i ==> v@[j]@ != k@,
        decreases v.len() - i,
    {
        if v[i] == *k {
            assert(strings_view(v@)[i as int] == k@);
            return true;
        }
        i = i + 1;
    }
    assert forall|j: int| 0 <= j < strings_view(v@).len() implies strings_view(v@)[j] != k@ by {
        assert(strings_view(v@)[j] == v@[j]@);
    }
    false
}

/// Adds `k` to `v` unless it is already there.
fn insert_distinct_exec(v: &mut Vec<String>, k: String)
    ensures
        strings_view(final(v)@) == insert_distinct(strings_view(old(v)@), k@),
{
    if !contains_string(v, &k) {
        let ghost before = v@;
        let ghost kv = k@;
        v.push(k);
        assert(strings_view(v@) =~= strings_view(before).push(kv));
    }
}

impl CrateProcessingState {
    /// Creates new processing state for a received crate, at time `now`.
    pub fn new(specifier: CrateSpecifier, features: Vec<String>, now: u64) -> (st: Self)
        ensures
            st@ == (StateView { status: ProcessingStatus::Received, ..received_state(specifier@, strings_view(features@), now) }),
    {
        let st = Self {
            specifier,
            features,
            status: ProcessingStatus::Received,
            started_at: now,
            last_updated: now,
            retry_count: 0,
            error: None,
            expected_chunks: None,
            persisted_chunks: Vec::new(),
            expected_vectors: None,
            persisted_vectors: Vec::new(),
            embedding_model: None,
        };
        assert(st@.persisted_chunks =~= Seq::<Seq<char>>::empty());
        assert(st@.persisted_vectors =~= Seq::<Seq<char>>::empty());
        st
    }

    /// Updates state to new status at time `now`.
    pub fn update_status(&mut self, status: ProcessingStatus, now: u64)
        ensures
            final(self)@ == (StateView { status, last_updated: now, ..old(self)@ }),
    {
        self.status = status;
        self.last_updated = now;
    }

    /// Updates state to new status with error, at time `now`.
    pub fn update_with_error(&mut self, status: ProcessingStatus, error: String, now: u64)
        ensures
            final(self)@ == (StateView {
                status,
                last_updated: now,
                error: Some(error@),
                ..old(self)@
            }),
    {
        self.status = status;
        self.last_updated = now;
        self.error = Some(error);
    }

    /// Increments retry count (saturating), at time `now`.
    pub fn increment_retry(&mut self, now: u64)
        ensures
            final(self)@ == (StateView {
                retry_count: sat_inc(old(self).retry_count),
                last_updated: now,
                ..old(self)@
            }),
    {
        if self.retry_count < u32::MAX {
            self.retry_count = self.retry_count + 1;
        }
        self.last_updated = now;
    }

    /// Returns whole seconds since the last update.
    pub fn time_since_update(&self, now: u64) -> (secs: u64)
        ensures
            secs == seconds_since_update(self@, now),
    {
        now.saturating_sub(self.last_updated) / 1000
    }

    /// Returns total processing time in milliseconds.
    pub fn total_duration_ms(&self, now: u64) -> (ms: u64)
        ensures
            ms == sat_sub(now, self.started_at),
    {
        now.saturating_sub(self.started_at)
    }

    /// Records a persisted chunk and reports progress (see [`chunk_persisted`]).
    fn on_chunk_persisted(&mut self, key: String, chunk_index: usize, now: u64) -> (actions: Vec<
        CoordinatorAction,
    >)
        ensures
            final(self)@ == chunk_persisted(old(self)@, key@, chunk_index, now).state,
            actions_view(actions@) == chunk_persisted(old(self)@, key@, chunk_index, now).actions,
    {
        let ghost key_view = key@;
        let fresh = !contains_string(&self.persisted_chunks, &key);
        insert_distinct_exec(&mut self.persisted_chunks, key);
        let mut actions: Vec<CoordinatorAction> = Vec::new();
        match self.expected_chunks {
            None => {},
            Some(total) => {
                let count = count_u32(self.persisted_chunks.len());
                actions.push(
                    CoordinatorAction::ChunkPersistenceProgress {
                        specifier: self.specifier.duplicate(),
                        chunk_index,
                        persisted_count: count,
                        total_chunks: total,
                    },
                );
                if count == total && fresh {
                    self.update_status(ProcessingStatus::Vectorizing, now);
                    actions.push(
                        CoordinatorAction::ChunksPersistenceComplete {
                            specifier: self.specifier.duplicate(),
                            chunk_count: total,
                        },
                    );
                }
            },
        }
        assert(actions_view(actions@) =~= chunk_persisted(old(self)@, key_view, chunk_index, now).actions);
        actions
    }

    /// Records a persisted embedding and reports progress and completion
    /// (see [`embedding_persisted`]).
    fn on_embedding_persisted(&mut self, chunk_id: String, now: u64) -> (actions: Vec<
        CoordinatorAction,
    >)
        ensures
            final(self)@ == embedding_persisted(old(self)@, chunk_id@, now).state,
            actions_view(actions@) == embedding_persisted(old(self)@, chunk_id@, now).actions,
    {
        let ghost id_view = chunk_id@;
        let id_copy = chunk_id.clone();
        let fresh = !contains_string(&self.persisted_vectors, &chunk_id);
        insert_distinct_exec(&mut self.persisted_vectors, chunk_id);
        let mut actions: Vec<CoordinatorAction> = Vec::new();
        match self.expected_vectors {
            None => {},
            Some(total) => {
                let count = count_u32(self.persisted_vectors.len());
                let model = match &self.embedding_model {
                    Some(m) => m.clone(),
                    None => String::from_str("unknown"),
                };
                actions.push(
                    CoordinatorAction::EmbeddingPersistenceProgress {
                        specifier: self.specifier.duplicate(),
                        chunk_id: id_copy,
                        persisted_count: count,
                        total_vectors: total,
                        embedding_model: model.clone(),
                    },
                );
                if count == total && fresh {
                    let duration = self.total_duration_ms(now);
                    self.update_status(ProcessingStatus::Complete, now);
                    actions.push(
                        CoordinatorAction::EmbeddingsPersistenceComplete {
                            specifier: self.specifier.duplicate(),
                            vector_count: total,
                            embedding_model: model,
                        },
                    );
                    actions.push(
                        CoordinatorAction::CrateProcessingComplete {
                            specifier: self.specifier.duplicate(),
                            features: clone_strings(&self.features),
                            total_duration_ms: duration,
                            stages_completed: 4,
                        },
                    );
                }
            },
        }
        assert(actions_view(actions@) =~= embedding_persisted(old(self)@, id_view, now).actions);
        actions
    }
}

/// The crate processing coordinator: the tracked states, one per crate.
pub struct CrateCoordinatorActor {
    /// Configuration
    config: CoordinatorConfig,
    /// In-memory state tracking, one state per crate
    processing_states: Vec<CrateProcessingState>,
}

pub open spec fn states_view(v: Seq<CrateProcessingState>) -> Seq<StateView> {
    Seq::new(v.len(), |i: int| v[i]@)
}

impl CrateCoordinatorActor {
    /// The tracked states.
    pub closed spec fn states(&self) -> Seq<StateView> {
        states_view(self.processing_states@)
    }

    /// The configured processing timeout in seconds.
    pub closed spec fn timeout_secs(&self) -> u64 {
        self.config.timeout_secs
    }

    /// The configuration.
    pub closed spec fn spec_config(&self) -> CoordinatorConfig {
        self.config
    }

    /// A coordinator tracks each crate once.
    pub open spec fn wf(&self) -> bool {
        distinct_crates(self.states())
    }

    /// A coordinator that tracks no crate yet.
    pub fn new(config: CoordinatorConfig) -> (c: Self)
        ensures
            c.states() == Seq::<StateView>::empty(),
            c.spec_config() == config,
            c.timeout_secs() == config.timeout_secs,
            c.wf(),
    {
        let c = Self { config, processing_states: Vec::new() };
        assert(c.states() =~= Seq::<StateView>::empty());
        c
    }

    /// The configuration.
    pub fn config(&self) -> (c: &CoordinatorConfig)
        ensures
            *c == self.spec_config(),
    {
        &self.config
    }

    /// The tracked states.
    pub fn processing_states(&self) -> (v: &Vec<CrateProcessingState>)
        ensures
            states_view(v@) == self.states(),
    {
        &self.processing_states
    }

    /// The position of the state of a crate, if it is tracked.
    fn find(&self, specifier: &CrateSpecifier) -> (r: Option<usize>)
        ensures
            match r {
                Some(i) => find_state(self.states(), specifier@) == Some(i as int),
                None => find_state(self.states(), specifier@) is None,
            },
    {
        let ghost states = self.states();
        assert(states.subrange(0, states.len() as int) =~= states);
        let mut i: usize = 0;
        while i < self.processing_states.len()
            invariant
                i <= self.processing_states.len(),
                states == self.states(),
                states.len() == self.processing_states.len(),
                find_state(states, specifier@) == match find_state(
                    states.subrange(i as int, states.len() as int),
                    specifier@,
                ) {
                    Some(k) => Some(k + i),
                    None => None::<int>,
                },
            decreases self.processing_states.len() - i,
        {
            let ghost rest = states.subrange(i as int, states.len() as int);
            assert(rest[0] == self.processing_states@[i as int]@);
            if self.processing_states[i].specifier.same_as(specifier) {
                return Some(i);
            }
            assert(rest.drop_first() =~= states.subrange(i + 1, states.len() as int));
            i = i + 1;
        }
        None
    }

    /// Reports the crates whose processing stalled (see [`timeout_actions`]).
    fn check_timeouts(&self, now: u64) -> (actions: Vec<CoordinatorAction>)
        ensures
            actions_view(actions@) == timeout_actions(self.states(), self.timeout_secs(), now),
    {
        let timeout_secs = self.config.timeout_secs;
        let ghost states = self.states();
        let mut actions: Vec<CoordinatorAction> = Vec::new();
        let mut i: usize = 0;
        while i < self.processing_states.len()
            invariant
                i <= self.processing_states.len(),
                states == self.states(),
                states.len() == self.processing_states.len(),
                timeout_secs == self.timeout_secs(),
                actions_view(actions@) == timeout_actions(states.take(i as int), timeout_secs, now),
            decreases self.processing_states.len() - i,
        {
            let st = &self.processing_states[i];
            assert(states.take(i + 1).drop_last() =~= states.take(i as int));
            assert(states.take(i + 1).last() == st@);
            if !st.status.is_terminal() && st.time_since_update(now) > timeout_secs {
                let mut error = String::from_str("Processing timeout after ");
                push_decimal(&mut error, timeout_secs);
                error.append("s");
                let ghost before = actions@;
                actions.push(
                    CoordinatorAction::CrateProcessingFailed {
                        specifier: st.specifier.duplicate(),
                        stage: String::from_str(st.status.stage_name()),
                        error,
                    },
                );
                assert(actions_view(actions@) =~= actions_view(before).push(actions@.last()@));
            }
            i = i + 1;
        }
        assert(states.take(i as int) =~= states);
        actions
    }

    /// Reacts to an event at time `now`: updates the tracked states and
    /// returns the messages to send (see [`coordinator_step`]).
    pub fn handle(&mut self, event: PipelineEvent, now: u64) -> (actions: Vec<CoordinatorAction>)
        requires
            old(self).wf(),
        ensures
            final(self).wf(),
            final(self).spec_config() == old(self).spec_config(),
            final(self).states() == coordinator_step(
                old(self).states(),
                old(self).timeout_secs(),
                event@,
                now,
            ).states,
            actions_view(actions@) == coordinator_step(
                old(self).states(),
                old(self).timeout_secs(),
                event@,
                now,
            ).actions,
    {
        let ghost e = event@;
        let ghost states0 = self.states();
        match event {
            PipelineEvent::CrateReceived { specifier, features } => {
                let found = self.find(&specifier);
                proof {
                    lemma_find_state(states0, specifier@);
                }
                let mut fresh = CrateProcessingState::new(specifier, features, now);
                fresh.update_status(ProcessingStatus::Downloading, now);
                match found {
                    Some(i) => {
                        self.processing_states.set(i, fresh);
                    },
                    None => {
                        self.processing_states.push(fresh);
                    },
                }
                proof {
                    lemma_find_state(states0, e->CrateReceived_specifier);
                }
                assert(self.states() =~= coordinator_step(states0, self.timeout_secs(), e, now).states);
                Vec::new()
            },
            PipelineEvent::CheckProcessingTimeouts => self.check_timeouts(now),
            other => {
                let found = match &other {
                    PipelineEvent::CrateReceived { specifier, .. } => self.find(specifier),
                    PipelineEvent::CrateDownloaded { specifier } => self.find(specifier),
                    PipelineEvent::CrateDownloadFailed { specifier, .. } => self.find(specifier),
                    PipelineEvent::DocumentationExtracted { specifier } => self.find(specifier),
                    PipelineEvent::DocumentationExtractionFailed { specifier, .. } => self.find(
                        specifier,
                    ),
                    PipelineEvent::DocumentationChunked { specifier, .. } => self.find(specifier),
                    PipelineEvent::DocChunkPersisted { specifier, .. } => self.find(specifier),
                    PipelineEvent::EmbeddingPersisted { specifier, .. } => self.find(specifier),
                    PipelineEvent::DocumentationVectorized { specifier, .. } => self.find(
                        specifier,
                    ),
                    PipelineEvent::CrateProcessingFailed { specifier, .. } => self.find(specifier),
                    PipelineEvent::CheckProcessingTimeouts => None,
                };
                match found {
                    None => Vec::new(),
                    Some(i) => {
                        proof {
                            lemma_find_state(states0, event_specifier(e));
                        }
                        let mut st = self.processing_states.remove(i);
                        let ghost st0 = st@;
                        assert(st0 == states0[i as int]);
                        let actions = react(&mut st, other, now);
                        self.processing_states.insert(i, st);
                        assert(self.states() =~= states0.update(i as int, crate_reaction(st0, e, now).state));
                        proof {
                            lemma_update_keeps_distinct(states0, i as int, crate_reaction(st0, e, now).state);
                        }
                        actions
                    },
                }
            },
        }
    }
}

/// What an event does to the state of its crate (see [`crate_reaction`]).
fn react(st: &mut CrateProcessingState, event: PipelineEvent, now: u64) -> (actions: Vec<
    CoordinatorAction,
>)
    requires
        !(event is CrateReceived),
        !(event is CheckProcessingTimeouts),
    ensures
        final(st)@ == crate_reaction(old(st)@, event@, now).state,
        actions_view(actions@) == crate_reaction(old(st)@, event@, now).actions,
{
    let ghost e = event@;
    match event {
        PipelineEvent::CrateDownloaded { .. } => {
            st.update_status(ProcessingStatus::Extracting, now);
            Vec::new()
        },
        PipelineEvent::CrateDownloadFailed { error_message, .. } => {
            let details = error_message.clone();
            st.update_with_error(ProcessingStatus::DownloadFailed, error_message, now);
            st.increment_retry(now);
            let mut actions = Vec::new();
            actions.push(
                CoordinatorAction::ScheduleRetry {
                    specifier: st.specifier.duplicate(),
                    features: clone_strings(&st.features),
                    stage: RetryStage::Download,
                    details,
                },
            );
            assert(actions_view(actions@) =~= crate_reaction(old(st)@, e, now).actions);
            actions
        },
        PipelineEvent::DocumentationExtracted { .. } => {
            st.update_status(ProcessingStatus::Chunking, now);
            Vec::new()
        },
        PipelineEvent::DocumentationExtractionFailed { error_message, .. } => {
            let details = error_message.clone();
            st.update_with_error(ProcessingStatus::ExtractionFailed, error_message, now);
            st.increment_retry(now);
            let mut actions = Vec::new();
            actions.push(
                CoordinatorAction::ScheduleRetry {
                    specifier: st.specifier.duplicate(),
                    features: clone_strings(&st.features),
                    stage: RetryStage::Extraction,
                    details,
                },
            );
            assert(actions_view(actions@) =~= crate_reaction(old(st)@, e, now).actions);
            actions
        },
        PipelineEvent::DocumentationChunked { chunk_count, .. } => {
            st.expected_chunks = Some(chunk_count);
            st.update_status(ProcessingStatus::Chunking, now);
            Vec::new()
        },
        PipelineEvent::DocChunkPersisted { content_hash, chunk_index, .. } => {
            st.on_chunk_persisted(content_hash, chunk_index, now)
        },
        PipelineEvent::EmbeddingPersisted { chunk_id, .. } => {
            st.on_embedding_persisted(chunk_id, now)
        },
        PipelineEvent::DocumentationVectorized { vector_count, embedding_model, .. } => {
            st.expected_vectors = Some(vector_count);
            st.embedding_model = Some(embedding_model);
            Vec::new()
        },
        PipelineEvent::CrateProcessingFailed { error, .. } => {
            st.update_with_error(ProcessingStatus::Failed, error, now);
            Vec::new()
        },
        PipelineEvent::CrateReceived { .. } => Vec::new(),
        PipelineEvent::CheckProcessingTimeouts => Vec::new(),
    }
}

/// `find_state` gives the first position of a crate.
pub proof fn lemma_find_state(states: Seq<StateView>, s: CrateSpecifierView)
    ensures
        match find_state(states, s) {
            Some(i) => 0 <= i < states.len() && states[i].specifier == s && forall|j: int|
                0 <= j < i ==> states[j].specifier != s,
            None => forall|j: int| 0 <= j < states.len() ==> states[j].specifier != s,
        },
    decreases states.len(),
{
    if states.len() > 0 {
        lemma_find_state(states.drop_first(), s);
        if states[0].specifier != s {
            assert forall|j: int| 1 <= j < states.len() implies states[j] == states.drop_first()[j
                - 1] by {}
        }
    }
}

/// Replacing a state by one for the same crate keeps the crates distinct.
proof fn lemma_update_keeps_distinct(states: Seq<StateView>, i: int, st: StateView)
    requires
        distinct_crates(states),
        0 <= i < states.len(),
        st.specifier == states[i].specifier,
    ensures
        distinct_crates(states.update(i, st)),
{
}


/// Reporting a chunk that is already counted is a no-op: the state stays as
/// it is, and at most a progress report is sent (never a second
/// completion); reporting the same chunk twice leaves the state as the
/// first report left it.
pub proof fn law_chunk_persisted_idempotent(
    st: StateView,
    key: Seq<char>,
    i: usize,
    j: usize,
    now: u64,
    later: u64,
)
    ensures
        st.persisted_chunks.contains(key) ==> {
            let r = chunk_persisted(st, key, j, later);
            &&& r.state == st
            &&& r.actions.len() <= 1
            &&& forall|k: int| 0 <= k < r.actions.len() ==> (#[trigger] r.actions[k]) is ChunkPersistenceProgress
        },
        ({
            let once = chunk_persisted(st, key, i, now).state;
            chunk_persisted(once, key, j, later).state == once
        }),
{
    lemma_insert_distinct_twice(st.persisted_chunks, key);
    let once = chunk_persisted(st, key, i, now).state;
    assert(once.persisted_chunks == insert_distinct(st.persisted_chunks, key));
    lemma_insert_distinct_contains(st.persisted_chunks, key);
}

/// Reporting an embedding that is already counted is a no-op: the state
/// stays as it is, and at most a progress report is sent (never a second
/// completion); reporting the same embedding twice leaves the state as the
/// first report left it.
pub proof fn law_embedding_persisted_idempotent(
    st: StateView,
    chunk_id: Seq<char>,
    now: u64,
    later: u64,
)
    ensures
        st.persisted_vectors.contains(chunk_id) ==> {
            let r = embedding_persisted(st, chunk_id, later);
            &&& r.state == st
            &&& r.actions.len() <= 1
            &&& forall|k: int| 0 <= k < r.actions.len() ==> (#[trigger] r.actions[k]) is EmbeddingPersistenceProgress
        },
        ({
            let once = embedding_persisted(st, chunk_id, now).state;
            embedding_persisted(once, chunk_id, later).state == once
        }),
{
    lemma_insert_distinct_twice(st.persisted_vectors, chunk_id);
    lemma_insert_distinct_contains(st.persisted_vectors, chunk_id);
}

/// After adding an identifier, it is there.
proof fn lemma_insert_distinct_contains(s: Seq<Seq<char>>, k: Seq<char>)
    ensures
        insert_distinct(s, k).contains(k),
{
    if !s.contains(k) {
        assert(s.push(k)[s.len() as int] == k);
    }
}

/// Adding an identifier a second time leaves the identifiers as they were.
proof fn lemma_insert_distinct_twice(s: Seq<Seq<char>>, k: Seq<char>)
    ensures
        insert_distinct(insert_distinct(s, k), k) == insert_distinct(s, k),
{
    if !s.contains(k) {
        assert(s.push(k)[s.len() as int] == k);
    }
}

/// Persisted identifiers are kept without repeats, and each report adds
/// at most one.
pub proof fn law_persisted_without_repeats(s: Seq<Seq<char>>, k: Seq<char>)
    requires
        no_repeats(s),
    ensures
        no_repeats(insert_distinct(s, k)),
        insert_distinct(s, k).contains(k),
        insert_distinct(s, k).len() == s.len() + (if s.contains(k) { 0int } else { 1int }),
        forall|x: Seq<char>| s.contains(x) ==> insert_distinct(s, k).contains(x),
{
    if !s.contains(k) {
        let t = s.push(k);
        assert(t[s.len() as int] == k);
        assert forall|x: Seq<char>| s.contains(x) implies t.contains(x) by {
            let w = choose|w: int| 0 <= w < s.len() && s[w] == x;
            assert(t[w] == x);
        }
    }
}

/// Chunk persistence completes (the crate moves on to vectorizing and the
/// completion is announced) exactly when a chunk not yet counted brings the
/// number of distinct persisted chunks to the expected number; before the
/// expected number is known nothing is announced.
pub proof fn law_chunks_complete_iff_count_reached(
    st: StateView,
    key: Seq<char>,
    i: usize,
    now: u64,
)
    ensures
        ({
            let r = chunk_persisted(st, key, i, now);
            let count = sat_u32(insert_distinct(st.persisted_chunks, key).len());
            &&& st.expected_chunks is None ==> r.actions.len() == 0 && r.state.status == st.status
            &&& st.expected_chunks matches Some(total) ==> {
                &&& (count == total && !st.persisted_chunks.contains(key)) ==> (r.state.status
                    == ProcessingStatus::Vectorizing && r.actions.len() == 2)
                &&& !(count == total && !st.persisted_chunks.contains(key)) ==> r.state.status
                    == st.status && r.actions.len() == 1
                &&& r.actions[0] == (ActionView::ChunkPersistenceProgress {
                    specifier: st.specifier,
                    chunk_index: i,
                    persisted_count: count,
                    total_chunks: total,
                })
            }
        }),
{
}

/// Embedding persistence completes the crate exactly when an embedding not
/// yet counted brings the number of distinct persisted embeddings to the
/// expected number; the crate is then announced complete after all four
/// stages.
pub proof fn law_crate_complete_iff_count_reached(st: StateView, chunk_id: Seq<char>, now: u64)
    ensures
        ({
            let r = embedding_persisted(st, chunk_id, now);
            let count = sat_u32(insert_distinct(st.persisted_vectors, chunk_id).len());
            &&& st.expected_vectors is None ==> r.actions.len() == 0 && r.state.status == st.status
            &&& st.expected_vectors matches Some(total) ==> {
                &&& (count == total && !st.persisted_vectors.contains(chunk_id)) ==> r.state.status
                    == ProcessingStatus::Complete
                    && r.actions.len() == 3 && r.actions[2] == (ActionView::CrateProcessingComplete {
                    specifier: st.specifier,
                    features: st.features,
                    total_duration_ms: sat_sub(now, st.started_at),
                    stages_completed: 4,
                })
                &&& !(count == total && !st.persisted_vectors.contains(chunk_id)) ==> r.state.status
                    == st.status && r.actions.len() == 1
            }
        }),
{
}

/// A timeout check changes no state and reports only crates that are not
/// terminal and have not advanced for longer than the timeout, each at most
/// once, with the stage it was stuck in.
pub proof fn law_timeouts_report_stalled_crates(
    states: Seq<StateView>,
    timeout_secs: u64,
    now: u64,
)
    ensures
        coordinator_step(states, timeout_secs, EventView::CheckProcessingTimeouts, now).states
            == states,
        timeout_actions(states, timeout_secs, now).len() <= states.len(),
        forall|k: int|
            0 <= k < timeout_actions(states, timeout_secs, now).len() ==> exists|j: int|
                0 <= j < states.len() && timed_out(states[j], timeout_secs, now)
                    && #[trigger] timeout_actions(states, timeout_secs, now)[k]
                    == (ActionView::CrateProcessingFailed {
                    specifier: states[j].specifier,
                    stage: status_stage_name(states[j].status),
                    error: timeout_message(timeout_secs),
                }),
        (forall|j: int| 0 <= j < states.len() ==> !timed_out(#[trigger] states[j], timeout_secs, now))
            ==> timeout_actions(states, timeout_secs, now).len() == 0,
    decreases states.len(),
{
    if states.len() > 0 {
        let front = states.drop_last();
        law_timeouts_report_stalled_crates(front, timeout_secs, now);
        let earlier = timeout_actions(front, timeout_secs, now);
        let all = timeout_actions(states, timeout_secs, now);
        assert forall|k: int| 0 <= k < all.len() implies exists|j: int|
            0 <= j < states.len() && timed_out(states[j], timeout_secs, now) && #[trigger] all[k]
                == (ActionView::CrateProcessingFailed {
                specifier: states[j].specifier,
                stage: status_stage_name(states[j].status),
                error: timeout_message(timeout_secs),
            }) by {
            if k < earlier.len() {
                assert(all[k] == earlier[k]);
                let j = choose|j: int|
                    0 <= j < front.len() && timed_out(front[j], timeout_secs, now) && earlier[k]
                        == (ActionView::CrateProcessingFailed {
                        specifier: front[j].specifier,
                        stage: status_stage_name(front[j].status),
                        error: timeout_message(timeout_secs),
                    });
                assert(front[j] == states[j]);
            } else {
                assert(states.last() == states[states.len() - 1]);
            }
        }
        if forall|j: int| 0 <= j < states.len() ==> !timed_out(#[trigger] states[j], timeout_secs, now) {
            assert forall|j: int| 0 <= j < front.len() implies !timed_out(#[trigger] front[j], timeout_secs, now) by {
                assert(front[j] == states[j]);
            }
            assert(!timed_out(states[states.len() - 1], timeout_secs, now));
        }
    }
}

/// A terminal crate is never reported as timed out.
pub proof fn law_terminal_never_times_out(st: StateView, timeout_secs: u64, now: u64)
    requires
        status_is_terminal(st.status),
    ensures
        !timed_out(st, timeout_secs, now),
{
}

/// A permanent failure leaves the crate in a state that is both terminal
/// and a failure, with the reported error.
pub proof fn law_failed_is_terminal_failure(st: StateView, s: CrateSpecifierView, error: Seq<char>, now: u64)
    ensures
        ({
            let r = crate_reaction(st, EventView::CrateProcessingFailed { specifier: s, error }, now);
            &&& status_is_terminal(r.state.status)
            &&& status_is_failure(r.state.status)
            &&& r.state.error == Some(error)
            &&& r.actions.len() == 0
        }),
        status_is_failure(ProcessingStatus::DownloadFailed),
        status_is_failure(ProcessingStatus::ExtractionFailed),
        !status_is_terminal(ProcessingStatus::DownloadFailed),
        !status_is_terminal(ProcessingStatus::ExtractionFailed),
{
}

/// A download or extraction failure records the error, counts one more
/// retry, and asks for exactly one retry of the same crate with its features.
pub proof fn law_failure_schedules_one_retry(st: StateView, s: CrateSpecifierView, msg: Seq<char>, now: u64)
    ensures
        ({
            let r = crate_reaction(st, EventView::CrateDownloadFailed { specifier: s, error_message: msg }, now);
            &&& r.state.status == ProcessingStatus::DownloadFailed
            &&& r.state.retry_count == sat_inc(st.retry_count)
            &&& r.state.error == Some(msg)
            &&& r.actions == seq![ActionView::ScheduleRetry {
                specifier: st.specifier,
                features: st.features,
                stage: RetryStage::Download,
                details: msg,
            }]
        }),
        ({
            let r = crate_reaction(st, EventView::DocumentationExtractionFailed { specifier: s, error_message: msg }, now);
            &&& r.state.status == ProcessingStatus::ExtractionFailed
            &&& r.state.retry_count == sat_inc(st.retry_count)
            &&& r.state.error == Some(msg)
            &&& r.actions == seq![ActionView::ScheduleRetry {
                specifier: st.specifier,
                features: st.features,
                stage: RetryStage::Extraction,
                details: msg,
            }]
        }),
{
}

/// Events about a crate that is not tracked change nothing and send nothing.
pub proof fn law_untracked_events_ignored(states: Seq<StateView>, timeout_secs: u64, e: EventView, now: u64)
    requires
        !(e is CrateReceived),
        !(e is CheckProcessingTimeouts),
        forall|j: int| 0 <= j < states.len() ==> states[j].specifier != event_specifier(e),
    ensures
        coordinator_step(states, timeout_secs, e, now).states == states,
        coordinator_step(states, timeout_secs, e, now).actions.len() == 0,
{
    lemma_find_state(states, event_specifier(e));
}

/// A received crate is tracked afresh, downloading, with nothing counted;
/// no other crate's state changes and the crates stay distinct.
pub proof fn law_received_crate_tracked(
    states: Seq<StateView>,
    timeout_secs: u64,
    s: CrateSpecifierView,
    features: Seq<Seq<char>>,
    now: u64,
)
    requires
        distinct_crates(states),
    ensures
        ({
            let next = coordinator_step(states, timeout_secs, EventView::CrateReceived { specifier: s, features }, now);
            &&& distinct_crates(next.states)
            &&& next.actions.len() == 0
            &&& find_state(next.states, s) matches Some(i) && next.states[i] == received_state(s, features, now)
            &&& forall|j: int| 0 <= j < states.len() && states[j].specifier != s ==> next.states.contains(#[trigger] states[j])
        }),
{
    lemma_find_state(states, s);
    let fresh = received_state(s, features, now);
    let next = coordinator_step(states, timeout_secs, EventView::CrateReceived { specifier: s, features }, now);
    match find_state(states, s) {
        Some(i) => {
            assert(next.states == states.update(i, fresh));
            lemma_update_keeps_distinct(states, i, fresh);
            assert forall|j: int| 0 <= j < states.len() && states[j].specifier != s implies next.states.contains(#[trigger] states[j]) by {
                assert(next.states[j] == states[j]);
            }
        },
        None => {
            assert(next.states == states.push(fresh));
            assert(next.states[states.len() as int] == fresh);
            assert forall|j: int| 0 <= j < states.len() && states[j].specifier != s implies next.states.contains(#[trigger] states[j]) by {
                assert(next.states[j] == states[j]);
            }
            assert(distinct_crates(next.states));
        },
    }
    lemma_find_state(next.states, s);
    match find_state(next.states, s) {
        Some(i2) => {
            assert(next.states[i2].specifier == s);
        },
        None => {
            match find_state(states, s) {
                Some(i) => { assert(next.states[i].specifier == s); },
                None => { assert(next.states[states.len() as int].specifier == s); },
            }
        },
    }
}


/// Every event other than the timeout check that changes a tracked crate's
/// status (or starts tracking it) stamps the crate with the event's time,
/// so a crate that has just advanced is not reported as stalled before the
/// timeout has passed again.
pub proof fn law_status_change_refreshes_time(
    states: Seq<StateView>,
    timeout_secs: u64,
    e: EventView,
    now: u64,
    later: u64,
)
    requires
        !(e is CheckProcessingTimeouts),
    ensures
        ({
            let r = coordinator_step(states, timeout_secs, e, now).states;
            &&& states.len() <= r.len()
            &&& forall|k: int|
                0 <= k < states.len() && (#[trigger] r[k]).status != states[k].status ==> r[k].last_updated
                    == now
            &&& forall|k: int| states.len() <= k < r.len() ==> (#[trigger] r[k]).last_updated == now
            &&& (now <= later && later - now <= timeout_secs * 1000) ==> forall|k: int|
                0 <= k < r.len() && (k >= states.len() || (#[trigger] r[k]).status != states[k].status)
                    ==> !timed_out(r[k], timeout_secs, later)
        }),
{
    let r = coordinator_step(states, timeout_secs, e, now).states;
    assert({
        &&& states.len() <= r.len()
        &&& forall|k: int|
            0 <= k < states.len() && (#[trigger] r[k]).status != states[k].status ==> r[k].last_updated == now
        &&& forall|k: int| states.len() <= k < r.len() ==> (#[trigger] r[k]).last_updated == now
    }) by {
        match e {
            EventView::CrateReceived { specifier, features } => {
                lemma_find_state(states, specifier);
            },
            _ => {
                lemma_find_state(states, event_specifier(e));
                match find_state(states, event_specifier(e)) {
                    None => {},
                    Some(i) => {
                        lemma_reaction_stamps(states[i], e, now);
                    },
                }
            },
        }
    }
    if now <= later && later - now <= timeout_secs * 1000 {
        let d = (later - now) as int;
        assert(d / 1000 <= timeout_secs) by (nonlinear_arith)
            requires
                0 <= d <= timeout_secs * 1000,
        ;
        assert forall|k: int|
            0 <= k < r.len() && (k >= states.len() || (#[trigger] r[k]).status != states[k].status) implies !timed_out(
            r[k],
            timeout_secs,
            later,
        ) by {
            assert(r[k].last_updated == now);
            assert(sat_sub(later, r[k].last_updated) == d);
        }
    }
}

/// A reaction that changes a crate's status stamps it with the event's time.
proof fn lemma_reaction_stamps(st: StateView, e: EventView, now: u64)
    ensures
        crate_reaction(st, e, now).state.status != st.status ==> crate_reaction(st, e, now).state.last_updated
            == now,
{
}

/// Where each pipeline event moves a tracked crate: a download on to
/// extracting, extracted documentation and chunking on to chunking, a
/// failed download or extraction to the matching failure, a permanent
/// failure to failed; a vectorization report leaves the status as it is.
/// Each event keeps the crate's identity, features and start time.
pub proof fn law_event_moves_crate(st: StateView, e: EventView, now: u64)
    ensures
        ({
            let r = crate_reaction(st, e, now).state;
            &&& r.specifier == st.specifier
            &&& r.features == st.features
            &&& r.started_at == st.started_at
            &&& e is CrateDownloaded ==> r.status == ProcessingStatus::Extracting
            &&& e is CrateDownloadFailed ==> r.status == ProcessingStatus::DownloadFailed
            &&& e is DocumentationExtracted ==> r.status == ProcessingStatus::Chunking
            &&& e is DocumentationExtractionFailed ==> r.status == ProcessingStatus::ExtractionFailed
            &&& e is DocumentationChunked ==> r.status == ProcessingStatus::Chunking
            &&& e is CrateProcessingFailed ==> r.status == ProcessingStatus::Failed
            &&& e is DocumentationVectorized ==> r.status == st.status
        }),
{
}

} // verus!
