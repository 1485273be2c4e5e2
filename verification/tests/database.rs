use crately::actors::database::{missing_crate_error, status_change, CrateStatus, RecordEvent};
use crately::actors::downloader_actor::DownloadErrorKind;
use crately::actors::file_reader_actor::ExtractionErrorKind;
use crately::crate_specifier::CrateSpecifier;

fn spec(s: &str) -> CrateSpecifier {
    CrateSpecifier::parse(s).unwrap()
}

#[test]
fn received_crate_is_pending() {
    let c = status_change(&RecordEvent::Received {
        specifier: spec("serde@1.0.0"),
        features: vec![],
    });
    assert_eq!(c.status, CrateStatus::Pending);
    assert_eq!(c.status.as_str(), "pending");
    assert!(!c.counts_retry);
    assert_eq!(c.operation, "create crate record for serde@1.0.0");
}

#[test]
fn download_failure_is_recorded_with_its_kind() {
    let c = status_change(&RecordEvent::DownloadFailed {
        specifier: spec("serde@1.0.0"),
        kind: DownloadErrorKind::Timeout,
        message: "timed out".to_string(),
    });
    assert_eq!(c.status.as_str(), "download_failed");
    assert_eq!(c.error_stage.as_deref(), Some("download"));
    assert_eq!(c.error_message.as_deref(), Some("Timeout: timed out"));
    assert!(c.counts_retry);
}

#[test]
fn extraction_failure_includes_elapsed_time() {
    let c = status_change(&RecordEvent::ExtractionFailed {
        specifier: spec("serde@1.0.0"),
        kind: ExtractionErrorKind::FileTooLarge,
        message: "big".to_string(),
        elapsed_ms: 12,
    });
    assert_eq!(c.status, CrateStatus::ExtractionFailed);
    assert_eq!(c.error_message.as_deref(), Some("FileTooLarge: big (elapsed: 12ms)"));
    assert_eq!(c.operation, "update extraction failure status for serde@1.0.0");
}

#[test]
fn completion_and_failure_statuses() {
    let done = status_change(&RecordEvent::EmbeddingsPersisted { specifier: spec("a@1.0.0") });
    assert_eq!(done.status.as_str(), "complete");
    let failed = status_change(&RecordEvent::ProcessingFailed {
        specifier: spec("a@1.0.0"),
        stage: "downloading".to_string(),
        error: "Processing timeout after 300s".to_string(),
    });
    assert_eq!(failed.status.as_str(), "failed");
    assert_eq!(failed.error_stage.as_deref(), Some("downloading"));
    assert_eq!(failed.operation, "record failure for a@1.0.0");
}

#[test]
fn missing_crate_is_reported_by_name() {
    assert_eq!(
        missing_crate_error(&spec("serde@1.0.0")),
        "Crate serde@1.0.0 not found in database"
    );
}
