//! The record kept for each crate, and how the pipeline's events change it.
//!
//! Each crate has one record whose status follows the pipeline: `pending`
//! when it is received, then `downloaded`, `extracted`, `chunked` (when the
//! documentation is chunked, and again when all its chunks are stored) and
//! `complete` (when it is vectorized, and again when all its embeddings are
//! stored), or `download_failed`, `extraction_failed` and `failed` (each
//! failure counting one more retry). This module decides the change each
//! event makes and what a failed write is reported as; the records are kept
//! by [`crate::actors::crate_store::CrateStore`].

use vstd::prelude::*;
use vstd::string::StringExecFns;

use crate::actors::downloader_actor::DownloadErrorKind;
use crate::actors::file_reader_actor::ExtractionErrorKind;
use crate::crate_specifier::{specifier_text, CrateSpecifier, CrateSpecifierView};
use crate::text::{decimal, push_decimal};

verus! {

/// The status of a crate's record.
#[derive(Debug, Clone, Copy, PartialEq, Eq, Structural)]
pub enum CrateStatus {
    Pending,
    Downloaded,
    DownloadFailed,
    Extracted,
    ExtractionFailed,
    Chunked,
    Complete,
    Failed,
}

/// The stored name of a status.
pub open spec fn status_name(s: CrateStatus) -> Seq<char> {
    match s {
        CrateStatus::Pending => "pending"@,
        CrateStatus::Downloaded => "downloaded"@,
        CrateStatus::DownloadFailed => "download_failed"@,
        CrateStatus::Extracted => "extracted"@,
        CrateStatus::ExtractionFailed => "extraction_failed"@,
        CrateStatus::Chunked => "chunked"@,
        CrateStatus::Complete => "complete"@,
        CrateStatus::Failed => "failed"@,
    }
}

impl CrateStatus {
    /// The stored name of this status.
    pub fn as_str(&self) -> (s: &'static str)
        ensures
            s@ == status_name(*self),
    {
        match self {
            CrateStatus::Pending => "pending",
            CrateStatus::Downloaded => "downloaded",
            CrateStatus::DownloadFailed => "download_failed",
            CrateStatus::Extracted => "extracted",
            CrateStatus::ExtractionFailed => "extraction_failed",
            CrateStatus::Chunked => "chunked",
            CrateStatus::Complete => "complete",
            CrateStatus::Failed => "failed",
        }
    }
}

/// The name of a download failure's kind.
pub open spec fn download_kind_name(k: DownloadErrorKind) -> Seq<char> {
    match k {
        DownloadErrorKind::NotFound => "NotFound"@,
        DownloadErrorKind::Timeout => "Timeout"@,
        DownloadErrorKind::ExtractionError => "ExtractionError"@,
        DownloadErrorKind::NetworkError => "NetworkError"@,
        DownloadErrorKind::Other => "Other"@,
    }
}

/// The name of an extraction failure's kind.
pub open spec fn extraction_kind_name(k: ExtractionErrorKind) -> Seq<char> {
    match k {
        ExtractionErrorKind::FileNotFound => "FileNotFound"@,
        ExtractionErrorKind::FileTooLarge => "FileTooLarge"@,
        ExtractionErrorKind::PermissionDenied => "PermissionDenied"@,
        ExtractionErrorKind::InvalidFormat => "InvalidFormat"@,
        ExtractionErrorKind::Other => "Other"@,
    }
}

fn download_kind_str(k: DownloadErrorKind) -> (s: &'static str)
    ensures
        s@ == download_kind_name(k),
{
    match k {
        DownloadErrorKind::NotFound => "NotFound",
        DownloadErrorKind::Timeout => "Timeout",
        DownloadErrorKind::ExtractionError => "ExtractionError",
        DownloadErrorKind::NetworkError => "NetworkError",
        DownloadErrorKind::Other => "Other",
    }
}

fn extraction_kind_str(k: ExtractionErrorKind) -> (s: &'static str)
    ensures
        s@ == extraction_kind_name(k),
{
    match k {
        ExtractionErrorKind::FileNotFound => "FileNotFound",
        ExtractionErrorKind::FileTooLarge => "FileTooLarge",
        ExtractionErrorKind::PermissionDenied => "PermissionDenied",
        ExtractionErrorKind::InvalidFormat => "InvalidFormat",
        ExtractionErrorKind::Other => "Other",
    }
}

/// The pipeline events that change a crate's record.
pub enum RecordEvent {
    Received { specifier: CrateSpecifier, features: Vec<String> },
    Downloaded { specifier: CrateSpecifier, extracted_path: String },
    DownloadFailed { specifier: CrateSpecifier, kind: DownloadErrorKind, message: String },
    Extracted { specifier: CrateSpecifier },
    ExtractionFailed {
        specifier: CrateSpecifier,
        kind: ExtractionErrorKind,
        message: String,
        elapsed_ms: u64,
    },
    Chunked { specifier: CrateSpecifier, chunk_count: u32 },
    ChunksPersisted { specifier: CrateSpecifier },
    Vectorized { specifier: CrateSpecifier, vector_count: u32, embedding_model: String },
    EmbeddingsPersisted { specifier: CrateSpecifier },
    ProcessingFailed { specifier: CrateSpecifier, stage: String, error: String },
}

/// The change an event makes to a crate's record: the new status, the stage
/// and message of a failure, whether one more retry is counted, and the
/// operation a failed write is reported as.
pub struct StatusChange {
    pub status: CrateStatus,
    pub error_stage: Option<String>,
    pub error_message: Option<String>,
    pub counts_retry: bool,
    pub operation: String,
}

/// The crate an event is about.
pub open spec fn record_event_specifier(e: RecordEvent) -> CrateSpecifierView {
    match e {
        RecordEvent::Received { specifier, .. } => specifier@,
        RecordEvent::Downloaded { specifier, .. } => specifier@,
        RecordEvent::DownloadFailed { specifier, .. } => specifier@,
        RecordEvent::Extracted { specifier } => specifier@,
        RecordEvent::ExtractionFailed { specifier, .. } => specifier@,
        RecordEvent::Chunked { specifier, .. } => specifier@,
        RecordEvent::ChunksPersisted { specifier } => specifier@,
        RecordEvent::Vectorized { specifier, .. } => specifier@,
        RecordEvent::EmbeddingsPersisted { specifier } => specifier@,
        RecordEvent::ProcessingFailed { specifier, .. } => specifier@,
    }
}

/// The status an event sets.
pub open spec fn event_status(e: RecordEvent) -> CrateStatus {
    match e {
        RecordEvent::Received { .. } => CrateStatus::Pending,
        RecordEvent::Downloaded { .. } => CrateStatus::Downloaded,
        RecordEvent::DownloadFailed { .. } => CrateStatus::DownloadFailed,
        RecordEvent::Extracted { .. } => CrateStatus::Extracted,
        RecordEvent::ExtractionFailed { .. } => CrateStatus::ExtractionFailed,
        RecordEvent::Chunked { .. } => CrateStatus::Chunked,
        RecordEvent::ChunksPersisted { .. } => CrateStatus::Chunked,
        RecordEvent::Vectorized { .. } => CrateStatus::Complete,
        RecordEvent::EmbeddingsPersisted { .. } => CrateStatus::Complete,
        RecordEvent::ProcessingFailed { .. } => CrateStatus::Failed,
    }
}

/// The failure an event records: its stage and message.
pub open spec fn event_failure(e: RecordEvent) -> Option<(Seq<char>, Seq<char>)> {
    match e {
        RecordEvent::DownloadFailed { kind, message, .. } => Some(
            ("download"@, download_kind_name(kind) + ": "@ + message@),
        ),
        RecordEvent::ExtractionFailed { kind, message, elapsed_ms, .. } => Some(
            (
                "extraction"@,
                extraction_kind_name(kind) + ": "@ + message@ + " (elapsed: "@ + decimal(
                    elapsed_ms as nat,
                ) + "ms)"@,
            ),
        ),
        RecordEvent::ProcessingFailed { stage, error, .. } => Some((stage@, error@)),
        _ => None,
    }
}

/// What a failed write for an event is reported as.
pub open spec fn event_operation(e: RecordEvent) -> Seq<char> {
    let s = specifier_text(record_event_specifier(e));
    match e {
        RecordEvent::Received { .. } => "create crate record for "@ + s,
        RecordEvent::Downloaded { .. } => "update download status for "@ + s,
        RecordEvent::DownloadFailed { .. } => "update download failure status for "@ + s,
        RecordEvent::Extracted { .. } => "update extraction status for "@ + s,
        RecordEvent::ExtractionFailed { .. } => "update extraction failure status for "@ + s,
        RecordEvent::Chunked { .. } => "update chunking status for "@ + s,
        RecordEvent::ChunksPersisted { .. } => "update chunking status for "@ + s,
        RecordEvent::Vectorized { .. } => "update completion status for "@ + s,
        RecordEvent::EmbeddingsPersisted { .. } => "update completion status for "@ + s,
        RecordEvent::ProcessingFailed { .. } => "record failure for "@ + s,
    }
}

/// The change an event makes to a crate's record.
pub fn status_change(e: &RecordEvent) -> (c: StatusChange)
    ensures
        c.status == event_status(*e),
        c.counts_retry == (event_failure(*e) is Some),
        match event_failure(*e) {
            Some((stage, message)) => c.error_stage is Some && c.error_stage->Some_0@ == stage
                && c.error_message is Some && c.error_message->Some_0@ == message,
            None => c.error_stage is None && c.error_message is None,
        },
        c.operation@ == event_operation(*e),
{
    match e {
        RecordEvent::Received { specifier, .. } => {
            let mut op = String::from_str("create crate record for ");
            op.append(specifier.to_text().as_str());
            StatusChange {
                status: CrateStatus::Pending,
                error_stage: None,
                error_message: None,
                counts_retry: false,
                operation: op,
            }
        },
        RecordEvent::Downloaded { specifier, .. } => {
            let mut op = String::from_str("update download status for ");
            op.append(specifier.to_text().as_str());
            StatusChange {
                status: CrateStatus::Downloaded,
                error_stage: None,
                error_message: None,
                counts_retry: false,
                operation: op,
            }
        },
        RecordEvent::DownloadFailed { specifier, kind, message } => {
            let mut op = String::from_str("update download failure status for ");
            op.append(specifier.to_text().as_str());
            let mut m = String::from_str(download_kind_str(*kind));
            m.append(": ");
            m.append(message.as_str());
            StatusChange {
                status: CrateStatus::DownloadFailed,
                error_stage: Some(String::from_str("download")),
                error_message: Some(m),
                counts_retry: true,
                operation: op,
            }
        },
        RecordEvent::Extracted { specifier } => {
            let mut op = String::from_str("update extraction status for ");
            op.append(specifier.to_text().as_str());
            StatusChange {
                status: CrateStatus::Extracted,
                error_stage: None,
                error_message: None,
                counts_retry: false,
                operation: op,
            }
        },
        RecordEvent::ExtractionFailed { specifier, kind, message, elapsed_ms } => {
            let mut op = String::from_str("update extraction failure status for ");
            op.append(specifier.to_text().as_str());
            let mut m = String::from_str(extraction_kind_str(*kind));
            m.append(": ");
            m.append(message.as_str());
            m.append(" (elapsed: ");
            push_decimal(&mut m, *elapsed_ms);
            m.append("ms)");
            StatusChange {
                status: CrateStatus::ExtractionFailed,
                error_stage: Some(String::from_str("extraction")),
                error_message: Some(m),
                counts_retry: true,
                operation: op,
            }
        },
        RecordEvent::Chunked { specifier, .. } => {
            let mut op = String::from_str("update chunking status for ");
            op.append(specifier.to_text().as_str());
            StatusChange {
                status: CrateStatus::Chunked,
                error_stage: None,
                error_message: None,
                counts_retry: false,
                operation: op,
            }
        },
        RecordEvent::Vectorized { specifier, .. } => {
            let mut op = String::from_str("update completion status for ");
            op.append(specifier.to_text().as_str());
            StatusChange {
                status: CrateStatus::Complete,
                error_stage: None,
                error_message: None,
                counts_retry: false,
                operation: op,
            }
        },
        RecordEvent::ChunksPersisted { specifier } => {
            let mut op = String::from_str("update chunking status for ");
            op.append(specifier.to_text().as_str());
            StatusChange {
                status: CrateStatus::Chunked,
                error_stage: None,
                error_message: None,
                counts_retry: false,
                operation: op,
            }
        },
        RecordEvent::EmbeddingsPersisted { specifier } => {
            let mut op = String::from_str("update completion status for ");
            op.append(specifier.to_text().as_str());
            StatusChange {
                status: CrateStatus::Complete,
                error_stage: None,
                error_message: None,
                counts_retry: false,
                operation: op,
            }
        },
        RecordEvent::ProcessingFailed { specifier, stage, error } => {
            let mut op = String::from_str("record failure for ");
            op.append(specifier.to_text().as_str());
            StatusChange {
                status: CrateStatus::Failed,
                error_stage: Some(stage.clone()),
                error_message: Some(error.clone()),
                counts_retry: true,
                operation: op,
            }
        },
    }
}

/// Every failure is recorded with a failure status and counts a retry;
/// every other event sets a status that is not a failure and counts none.
pub proof fn law_failures_count_retries(e: RecordEvent)
    ensures
        (event_failure(e) is Some) <==> (event_status(e) == CrateStatus::DownloadFailed
            || event_status(e) == CrateStatus::ExtractionFailed || event_status(e)
            == CrateStatus::Failed),
{
}

/// The answer to a query for one crate.
pub struct CrateQueryAnswer {
    pub specifier: Option<CrateSpecifier>,
    pub features: Vec<String>,
    pub status: String,
    pub created_at: String,
}

/// The operation reported when storing a chunk fails.
pub fn persist_chunk_operation(chunk_id: &str) -> (s: String)
    ensures
        s@ == "persist doc chunk "@ + chunk_id@,
{
    let mut s = String::from_str("persist doc chunk ");
    s.append(chunk_id);
    s
}

/// The error reported when a chunk's crate has no record.
pub fn missing_crate_error(specifier: &CrateSpecifier) -> (s: String)
    ensures
        s@ == "Crate "@ + specifier_text(specifier@) + " not found in database"@,
{
    let mut s = String::from_str("Crate ");
    s.append(specifier.to_text().as_str());
    s.append(" not found in database");
    s
}

} // verus!
