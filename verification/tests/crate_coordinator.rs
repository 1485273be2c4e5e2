use crately::actors::config::CoordinatorConfig;
use crately::actors::crate_coordinator_actor::{
    CoordinatorAction, CrateCoordinatorActor, CrateProcessingState, PipelineEvent,
    ProcessingStatus, RetryStage,
};
use crately::crate_specifier::CrateSpecifier;

fn spec(s: &str) -> CrateSpecifier {
    CrateSpecifier::parse(s).unwrap()
}

#[test]
fn test_processing_status_is_failure() {
    assert!(ProcessingStatus::DownloadFailed.is_failure());
    assert!(ProcessingStatus::ExtractionFailed.is_failure());
    assert!(ProcessingStatus::Failed.is_failure());
    assert!(!ProcessingStatus::Downloaded.is_failure());
    assert!(!ProcessingStatus::Complete.is_failure());
}

#[test]
fn test_processing_status_is_terminal() {
    assert!(ProcessingStatus::Complete.is_terminal());
    assert!(ProcessingStatus::Failed.is_terminal());
    assert!(!ProcessingStatus::Downloading.is_terminal());
    assert!(!ProcessingStatus::Chunking.is_terminal());
}

#[test]
fn test_crate_processing_state_new() {
    let specifier = spec("serde@1.0.0");
    let features = vec!["derive".to_string()];

    let state = CrateProcessingState::new(specifier.clone(), features.clone(), 0);

    assert_eq!(state.specifier, specifier);
    assert_eq!(state.features, features);
    assert_eq!(state.status, ProcessingStatus::Received);
    assert_eq!(state.retry_count, 0);
    assert!(state.error.is_none());
}

#[test]
fn test_crate_processing_state_update_status() {
    let mut state = CrateProcessingState::new(spec("tokio@1.0.0"), vec![], 0);

    state.update_status(ProcessingStatus::Downloading, 1);
    assert_eq!(state.status, ProcessingStatus::Downloading);

    state.update_status(ProcessingStatus::Downloaded, 2);
    assert_eq!(state.status, ProcessingStatus::Downloaded);
}

#[test]
fn test_crate_processing_state_update_with_error() {
    let mut state = CrateProcessingState::new(spec("axum@0.7.0"), vec![], 0);

    state.update_with_error(ProcessingStatus::DownloadFailed, "Network error".to_string(), 1);

    assert_eq!(state.status, ProcessingStatus::DownloadFailed);
    assert_eq!(state.error, Some("Network error".to_string()));
}

#[test]
fn test_crate_processing_state_increment_retry() {
    let mut state = CrateProcessingState::new(spec("hyper@1.0.0"), vec![], 0);

    assert_eq!(state.retry_count, 0);

    state.increment_retry(1);
    assert_eq!(state.retry_count, 1);

    state.increment_retry(2);
    assert_eq!(state.retry_count, 2);
}

#[test]
fn test_coordinator_is_send_sync() {
    fn assert_send<T: Send>() {}
    fn assert_sync<T: Sync>() {}
    assert_send::<CrateCoordinatorActor>();
    assert_sync::<CrateCoordinatorActor>();
}

#[test]
fn test_processing_state_is_send_sync() {
    fn assert_send<T: Send>() {}
    fn assert_sync<T: Sync>() {}
    assert_send::<CrateProcessingState>();
    assert_sync::<CrateProcessingState>();
}

#[test]
fn test_crate_processing_state_persistence_tracking_fields() {
    let state = CrateProcessingState::new(spec("serde@1.0.0"), vec![], 0);

    assert!(state.expected_chunks.is_none());
    assert!(state.persisted_chunks.is_empty());
    assert!(state.expected_vectors.is_none());
    assert!(state.persisted_vectors.is_empty());
}

fn coordinator_with(name: &str, now: u64) -> CrateCoordinatorActor {
    let mut c = CrateCoordinatorActor::new(CoordinatorConfig::default());
    let actions = c.handle(
        PipelineEvent::CrateReceived {
            specifier: spec(name),
            features: vec![],
        },
        now,
    );
    assert!(actions.is_empty());
    c
}

#[test]
fn test_coordinator_tracks_crate_received() {
    let c = coordinator_with("serde@1.0.0", 0);
    assert_eq!(c.processing_states().len(), 1);
    assert_eq!(c.processing_states()[0].status, ProcessingStatus::Downloading);
}

#[test]
fn test_coordinator_tracks_chunk_persistence() {
    let s = spec("test-crate@1.0.0");
    let mut c = coordinator_with("test-crate@1.0.0", 0);
    c.handle(
        PipelineEvent::DocumentationChunked {
            specifier: s.clone(),
            chunk_count: 3,
        },
        1,
    );
    let mut completions = 0;
    for i in 0..3usize {
        let actions = c.handle(
            PipelineEvent::DocChunkPersisted {
                specifier: s.clone(),
                content_hash: format!("test_hash_{:064x}", i),
                chunk_index: i,
            },
            2,
        );
        for a in &actions {
            if let CoordinatorAction::ChunksPersistenceComplete { chunk_count, .. } = a {
                assert_eq!(*chunk_count, 3);
                completions += 1;
            }
        }
    }
    assert_eq!(completions, 1);
    assert_eq!(c.processing_states()[0].status, ProcessingStatus::Vectorizing);
}

#[test]
fn test_coordinator_tracks_embedding_persistence() {
    let s = spec("test-crate@1.0.0");
    let mut c = coordinator_with("test-crate@1.0.0", 100);
    c.handle(
        PipelineEvent::DocumentationVectorized {
            specifier: s.clone(),
            vector_count: 3,
            embedding_model: "test-model".to_string(),
        },
        150,
    );
    let mut last = Vec::new();
    for i in 0..3 {
        last = c.handle(
            PipelineEvent::EmbeddingPersisted {
                specifier: s.clone(),
                chunk_id: format!("test-crate_1_0_0_{:03}", i),
            },
            1100,
        );
    }
    assert_eq!(last.len(), 3);
    match &last[2] {
        CoordinatorAction::CrateProcessingComplete {
            total_duration_ms,
            stages_completed,
            ..
        } => {
            assert_eq!(*total_duration_ms, 1000);
            assert_eq!(*stages_completed, 4);
        }
        _ => panic!("expected the completion announcement"),
    }
    assert_eq!(c.processing_states()[0].status, ProcessingStatus::Complete);
}

#[test]
fn test_coordinator_idempotency_duplicate_chunk_persisted() {
    let s = spec("test-crate@1.0.0");
    let mut c = coordinator_with("test-crate@1.0.0", 0);
    c.handle(
        PipelineEvent::DocumentationChunked {
            specifier: s.clone(),
            chunk_count: 2,
        },
        0,
    );
    for _ in 0..3 {
        let actions = c.handle(
            PipelineEvent::DocChunkPersisted {
                specifier: s.clone(),
                content_hash: "test_hash_0000000000000000000000000000000000000000000000000000000000000000".to_string(),
                chunk_index: 0,
            },
            0,
        );
        match &actions[0] {
            CoordinatorAction::ChunkPersistenceProgress { persisted_count, .. } => {
                assert_eq!(*persisted_count, 1)
            }
            _ => panic!("expected progress"),
        }
    }
    let actions = c.handle(
        PipelineEvent::DocChunkPersisted {
            specifier: s.clone(),
            content_hash: "test_hash_0000000000000000000000000000000000000000000000000000000000000001".to_string(),
            chunk_index: 1,
        },
        0,
    );
    assert_eq!(actions.len(), 2);
    assert_eq!(c.processing_states()[0].persisted_chunks.len(), 2);
}

#[test]
fn duplicate_chunk_after_completion_is_a_no_op() {
    let s = spec("test-crate@1.0.0");
    let mut c = coordinator_with("test-crate@1.0.0", 0);
    c.handle(PipelineEvent::DocumentationChunked { specifier: s.clone(), chunk_count: 1 }, 0);
    let first = c.handle(
        PipelineEvent::DocChunkPersisted { specifier: s.clone(), content_hash: "h0".to_string(), chunk_index: 0 },
        1,
    );
    assert_eq!(first.len(), 2);
    c.handle(
        PipelineEvent::DocumentationVectorized {
            specifier: s.clone(),
            vector_count: 1,
            embedding_model: "m".to_string(),
        },
        2,
    );
    let again = c.handle(
        PipelineEvent::DocChunkPersisted { specifier: s.clone(), content_hash: "h0".to_string(), chunk_index: 0 },
        3,
    );
    assert_eq!(again.len(), 1);
    assert!(matches!(again[0], CoordinatorAction::ChunkPersistenceProgress { .. }));
    assert_eq!(c.processing_states()[0].status, ProcessingStatus::Vectorizing);
    assert_eq!(c.processing_states()[0].persisted_chunks.len(), 1);
}

#[test]
fn download_failure_schedules_a_retry() {
    let s = spec("hyper@1.0.0");
    let mut c = CrateCoordinatorActor::new(CoordinatorConfig::default());
    c.handle(
        PipelineEvent::CrateReceived {
            specifier: s.clone(),
            features: vec!["http2".to_string()],
        },
        0,
    );
    let actions = c.handle(
        PipelineEvent::CrateDownloadFailed {
            specifier: s.clone(),
            error_message: "connection reset".to_string(),
        },
        5,
    );
    assert_eq!(actions.len(), 1);
    match &actions[0] {
        CoordinatorAction::ScheduleRetry {
            features,
            stage,
            details,
            ..
        } => {
            assert_eq!(features, &vec!["http2".to_string()]);
            assert_eq!(*stage, RetryStage::Download);
            assert_eq!(details, "connection reset");
        }
        _ => panic!("expected a retry"),
    }
    let st = &c.processing_states()[0];
    assert_eq!(st.status, ProcessingStatus::DownloadFailed);
    assert_eq!(st.retry_count, 1);
}

#[test]
fn events_for_untracked_crates_are_ignored() {
    let mut c = coordinator_with("serde@1.0.0", 0);
    let actions = c.handle(
        PipelineEvent::CrateDownloaded {
            specifier: spec("tokio@1.0.0"),
        },
        1,
    );
    assert!(actions.is_empty());
    assert_eq!(c.processing_states()[0].status, ProcessingStatus::Downloading);
}

#[test]
fn stalled_crates_time_out_but_terminal_ones_do_not() {
    let config = CoordinatorConfig {
        timeout_secs: 10,
        ..CoordinatorConfig::default()
    };
    let mut c = CrateCoordinatorActor::new(config);
    c.handle(
        PipelineEvent::CrateReceived {
            specifier: spec("slow@1.0.0"),
            features: vec![],
        },
        0,
    );
    c.handle(
        PipelineEvent::CrateReceived {
            specifier: spec("done@1.0.0"),
            features: vec![],
        },
        0,
    );
    c.handle(
        PipelineEvent::CrateProcessingFailed {
            specifier: spec("done@1.0.0"),
            error: "gave up".to_string(),
        },
        0,
    );
    assert!(c.handle(PipelineEvent::CheckProcessingTimeouts, 10_999).is_empty());
    let actions = c.handle(PipelineEvent::CheckProcessingTimeouts, 11_000);
    assert_eq!(actions.len(), 1);
    match &actions[0] {
        CoordinatorAction::CrateProcessingFailed {
            specifier,
            stage,
            error,
        } => {
            assert_eq!(specifier.to_text(), "slow@1.0.0");
            assert_eq!(stage, "downloading");
            assert_eq!(error, "Processing timeout after 10s");
        }
        _ => panic!("expected a timeout"),
    }
}

#[test]
fn only_download_failures_are_retried() {
    assert!(RetryStage::Download.is_retryable());
    assert!(!RetryStage::Extraction.is_retryable());
}
