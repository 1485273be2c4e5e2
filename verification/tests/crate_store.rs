use crately::actors::crate_store::{
    CodeSampleMetadata, CrateStore, PersistCodeSample,
};
use crately::actors::database::RecordEvent;
use crately::actors::downloader_actor::DownloadErrorKind;
use crately::actors::file_reader_actor::ExtractionErrorKind;
use crately::actors::processor_actor::{ChunkMetadata, PersistDocChunk};
use crately::crate_specifier::CrateSpecifier;

const NOW: &str = "2024-05-01T12:00:00Z";

fn spec(s: &str) -> CrateSpecifier {
    CrateSpecifier::parse(s).unwrap()
}

fn metadata(content_type: &str, token_count: usize, char_count: usize) -> ChunkMetadata {
    ChunkMetadata {
        content_type: content_type.to_string(),
        start_line: None,
        end_line: None,
        token_count,
        char_count,
        parent_module: None,
        item_type: None,
        item_name: None,
    }
}

fn chunk(s: &str, index: usize, id: &str, content: &str) -> PersistDocChunk {
    PersistDocChunk {
        specifier: spec(s),
        chunk_index: index,
        chunk_id: id.to_string(),
        content: content.to_string(),
        source_file: "README.md".to_string(),
        metadata: metadata("markdown", 50, 200),
        features: None,
    }
}

#[test]
fn test_database_actor_query_crate_specific_version() {
    let mut store = CrateStore::new();
    store.persist_crate(&spec("serde@1.0.0"), &vec!["derive".to_string()], NOW).unwrap();
    let a = store.query_crate("serde", &Some("1.0.0".to_string()));
    let s = a.specifier.expect("the crate is found");
    assert_eq!(s.name(), "serde");
    assert_eq!(s.version().to_text(), "1.0.0");
    assert_eq!(a.features, vec!["derive"]);
    assert_eq!(a.status, "pending");
    assert!(!a.created_at.is_empty());
}

#[test]
fn test_database_actor_query_crate_latest_version() {
    let mut store = CrateStore::new();
    store.persist_crate(&spec("tokio@1.35.0"), &vec![], NOW).unwrap();
    store.persist_crate(&spec("tokio@1.36.0"), &vec!["full".to_string()], NOW).unwrap();
    let a = store.query_crate("tokio", &None);
    let s = a.specifier.expect("the latest version is found");
    assert_eq!(s.name(), "tokio");
    assert_eq!(s.version().to_text(), "1.36.0");
    assert_eq!(a.features, vec!["full"]);
    assert_eq!(a.status, "pending");
    assert!(!a.created_at.is_empty());
}

#[test]
fn latest_version_is_by_number_not_text() {
    let mut store = CrateStore::new();
    store.persist_crate(&spec("tokio@1.10.0"), &vec![], NOW).unwrap();
    store.persist_crate(&spec("tokio@1.9.0"), &vec![], NOW).unwrap();
    store.persist_crate(&spec("tokio@1.10.0-rc.1"), &vec![], NOW).unwrap();
    let a = store.query_crate("tokio", &None);
    assert_eq!(a.specifier.unwrap().version().to_text(), "1.10.0");
}

fn latest_of(versions: &[&str]) -> String {
    let mut store = CrateStore::new();
    for v in versions {
        store.persist_crate(&spec(&format!("demo@{}", v)), &vec![], NOW).unwrap();
    }
    store.query_crate("demo", &None).specifier.unwrap().version().to_text()
}

#[test]
fn latest_pre_release_is_by_identifier() {
    assert_eq!(latest_of(&["1.0.0-alpha", "1.0.0-beta"]), "1.0.0-beta");
    assert_eq!(latest_of(&["1.0.0-beta", "1.0.0-alpha"]), "1.0.0-beta");
}

#[test]
fn latest_pre_release_compares_numbers_by_value() {
    assert_eq!(latest_of(&["1.0.0-rc.11", "1.0.0-rc.2"]), "1.0.0-rc.11");
    assert_eq!(latest_of(&["1.0.0-alpha.beta", "1.0.0-alpha.1"]), "1.0.0-alpha.beta");
    assert_eq!(latest_of(&["1.0.0-alpha.1", "1.0.0-alpha"]), "1.0.0-alpha.1");
}

#[test]
fn latest_of_equal_rank_is_the_first_stored() {
    assert_eq!(latest_of(&["1.0.0+build.2", "1.0.0+build.1"]), "1.0.0+build.2");
}

#[test]
fn test_database_actor_query_crate_not_found() {
    let store = CrateStore::new();
    let a = store.query_crate("nonexistent-crate", &Some("1.0.0".to_string()));
    assert!(a.specifier.is_none());
    assert_eq!(a.status, "not_found");
    assert!(a.features.is_empty());
    assert!(a.created_at.is_empty());
}

#[test]
fn storing_a_crate_twice_is_refused() {
    let mut store = CrateStore::new();
    store.persist_crate(&spec("serde@1.0.0"), &vec![], NOW).unwrap();
    let e = store.persist_crate(&spec("serde@1.0.0"), &vec![], NOW).unwrap_err();
    assert_eq!(e.operation, "persist crate serde@1.0.0");
    assert_eq!(e.error, "crate serde@1.0.0 is already stored");
    let (crates, total) = store.list_crates(None, None);
    assert_eq!(crates.len(), 1);
    assert_eq!(total, 1);
}

#[test]
fn test_database_actor_list_crates_default_pagination() {
    let mut store = CrateStore::new();
    store.persist_crate(&spec("serde@1.0.0"), &vec![], NOW).unwrap();
    store.persist_crate(&spec("tokio@1.35.0"), &vec![], NOW).unwrap();
    let (crates, total) = store.list_crates(None, None);
    assert_eq!(crates.len(), 2);
    assert_eq!(total, 2);
    let names: Vec<&str> = crates.iter().map(|c| c.name.as_str()).collect();
    assert!(names.contains(&"serde"));
    assert!(names.contains(&"tokio"));
    assert_eq!(crates[1].version, "1.35.0");
    assert_eq!(crates[1].status, "pending");
}

#[test]
fn test_database_actor_list_crates_with_pagination() {
    let mut store = CrateStore::new();
    for i in 0..5 {
        store.persist_crate(&spec(&format!("crate{}@1.0.0", i)), &vec![], NOW).unwrap();
    }
    let (first, total) = store.list_crates(Some(2), Some(0));
    assert_eq!(first.len(), 2);
    assert_eq!(total, 5);
    let (second, total) = store.list_crates(Some(2), Some(2));
    assert_eq!(second.len(), 2);
    assert_eq!(total, 5);
    assert_eq!(second[0].name, "crate2");
    let (last, _) = store.list_crates(Some(2), Some(4));
    assert_eq!(last.len(), 1);
    let (beyond, _) = store.list_crates(Some(2), Some(9));
    assert!(beyond.is_empty());
}

#[test]
fn test_database_actor_list_crates_empty_database() {
    let store = CrateStore::new();
    let (crates, total) = store.list_crates(Some(10), Some(0));
    assert!(crates.is_empty());
    assert_eq!(total, 0);
}

#[test]
fn test_database_actor_crate_received_event() {
    let mut store = CrateStore::new();
    store
        .apply_event(
            &RecordEvent::Received { specifier: spec("serde@1.0.0"), features: vec!["derive".to_string()] },
            NOW,
        )
        .unwrap();
    let a = store.query_crate("serde", &Some("1.0.0".to_string()));
    let s = a.specifier.unwrap();
    assert_eq!(s.name(), "serde");
    assert_eq!(s.version().to_text(), "1.0.0");
    assert_eq!(a.features, vec!["derive"]);
    assert_eq!(a.status, "pending");
}

#[test]
fn receiving_a_crate_twice_is_refused() {
    let mut store = CrateStore::new();
    let event = RecordEvent::Received { specifier: spec("serde@1.0.0"), features: vec![] };
    store.apply_event(&event, NOW).unwrap();
    let e = store.apply_event(&event, NOW).unwrap_err();
    assert_eq!(e.operation, "create crate record for serde@1.0.0");
}

#[test]
fn test_database_actor_crate_download_failed_event() {
    let mut store = CrateStore::new();
    let s = spec("broken-crate@1.0.0");
    store.apply_event(&RecordEvent::Received { specifier: s.clone(), features: vec![] }, NOW).unwrap();
    store
        .apply_event(
            &RecordEvent::DownloadFailed {
                specifier: s,
                kind: DownloadErrorKind::Timeout,
                message: "Network timeout".to_string(),
            },
            NOW,
        )
        .unwrap();
    let a = store.query_crate("broken-crate", &Some("1.0.0".to_string()));
    assert!(a.specifier.is_some());
    assert_eq!(a.status, "download_failed");
}

#[test]
fn test_database_actor_documentation_extraction_failed_event() {
    let mut store = CrateStore::new();
    let s = spec("invalid-crate@1.0.0");
    store.apply_event(&RecordEvent::Received { specifier: s.clone(), features: vec![] }, NOW).unwrap();
    store
        .apply_event(
            &RecordEvent::ExtractionFailed {
                specifier: s,
                kind: ExtractionErrorKind::FileNotFound,
                message: "Cargo.toml not found".to_string(),
                elapsed_ms: 50,
            },
            NOW,
        )
        .unwrap();
    let a = store.query_crate("invalid-crate", &Some("1.0.0".to_string()));
    assert!(a.specifier.is_some());
    assert_eq!(a.status, "extraction_failed");
}

#[test]
fn test_database_actor_full_pipeline_success_flow() {
    let mut store = CrateStore::new();
    let s = spec("test-crate@1.0.0");
    let events = vec![
        RecordEvent::Received { specifier: s.clone(), features: vec!["test".to_string()] },
        RecordEvent::Downloaded { specifier: s.clone(), extracted_path: "/tmp/test".to_string() },
        RecordEvent::Extracted { specifier: s.clone() },
        RecordEvent::Chunked { specifier: s.clone(), chunk_count: 5 },
        RecordEvent::Vectorized {
            specifier: s.clone(),
            vector_count: 5,
            embedding_model: "test-model".to_string(),
        },
    ];
    for e in &events {
        store.apply_event(e, NOW).unwrap();
    }
    let a = store.query_crate("test-crate", &Some("1.0.0".to_string()));
    assert!(a.specifier.is_some());
    assert_eq!(a.status, "complete");
}

#[test]
fn persistence_events_also_advance_the_status() {
    let mut store = CrateStore::new();
    let s = spec("test-crate@1.0.0");
    store.apply_event(&RecordEvent::Received { specifier: s.clone(), features: vec![] }, NOW).unwrap();
    store.apply_event(&RecordEvent::ChunksPersisted { specifier: s.clone() }, NOW).unwrap();
    assert_eq!(store.query_crate("test-crate", &Some("1.0.0".to_string())).status, "chunked");
    store.apply_event(&RecordEvent::EmbeddingsPersisted { specifier: s }, NOW).unwrap();
    assert_eq!(store.query_crate("test-crate", &Some("1.0.0".to_string())).status, "complete");
}

#[test]
fn events_for_unknown_crates_change_nothing() {
    let mut store = CrateStore::new();
    store.apply_event(&RecordEvent::Extracted { specifier: spec("ghost@1.0.0") }, NOW).unwrap();
    let (crates, total) = store.list_crates(None, None);
    assert!(crates.is_empty());
    assert_eq!(total, 0);
}

#[test]
fn test_persist_doc_chunk_success() {
    let mut store = CrateStore::new();
    let s = spec("tokio@1.35.0");
    store.persist_crate(&s, &vec!["full".to_string()], NOW).unwrap();
    let req = PersistDocChunk {
        specifier: s.clone(),
        chunk_index: 0,
        chunk_id: "tokio_1.35.0_chunk_000".to_string(),
        content: "Documentation for tokio::runtime::spawn function".to_string(),
        source_file: "src/runtime/mod.rs".to_string(),
        metadata: ChunkMetadata {
            content_type: "rust".to_string(),
            start_line: Some(100),
            end_line: Some(200),
            token_count: 512,
            char_count: 2048,
            parent_module: Some("tokio::runtime".to_string()),
            item_type: Some("function".to_string()),
            item_name: Some("spawn".to_string()),
        },
        features: None,
    };
    let ack = store.persist_doc_chunk(&req).unwrap();
    assert_eq!(ack.chunk_id, "tokio_1.35.0_chunk_000");
    assert_eq!(ack.chunk_index, 0);
    assert_eq!(ack.source_file, "src/runtime/mod.rs");
    assert_eq!(ack.specifier.to_text(), "tokio@1.35.0");
    let chunks = store.query_doc_chunks(&s);
    assert_eq!(chunks.len(), 1);
    assert_eq!(chunks[0].content_type, "rust");
    assert_eq!(chunks[0].token_count, 512);
    assert_eq!(chunks[0].char_count, 2048);
}

#[test]
fn test_persist_doc_chunk_crate_not_found() {
    let mut store = CrateStore::new();
    let e = store
        .persist_doc_chunk(&chunk("nonexistent@1.0.0", 0, "nonexistent_1.0.0_chunk_000", "Some documentation"))
        .unwrap_err();
    assert_eq!(e.operation, "persist doc chunk nonexistent_1.0.0_chunk_000");
    assert_eq!(e.error, "Crate nonexistent@1.0.0 not found in database");
}

#[test]
fn test_persist_doc_chunk_multiple_chunks() {
    let mut store = CrateStore::new();
    let s = spec("serde@1.0.0");
    store.persist_crate(&s, &vec!["derive".to_string()], NOW).unwrap();
    for i in 0..5 {
        let id = format!("serde_1.0.0_chunk_{:03}", i);
        let content = format!("Documentation chunk {} for serde", i);
        store.persist_doc_chunk(&chunk("serde@1.0.0", i, &id, &content)).unwrap();
    }
    let chunks = store.query_doc_chunks(&s);
    assert_eq!(chunks.len(), 5);
    assert_eq!(chunks[3].chunk_id, "serde_1.0.0_chunk_003");
}

#[test]
fn test_persist_doc_chunk_with_optional_metadata() {
    let mut store = CrateStore::new();
    let s = spec("actix-web@4.0.0");
    store.persist_crate(&s, &vec![], NOW).unwrap();
    let req = chunk("actix-web@4.0.0", 0, "actix_web_4.0.0_chunk_000", "General crate overview documentation");
    assert!(store.persist_doc_chunk(&req).is_ok());
}

#[test]
fn invalid_chunks_are_refused() {
    let mut store = CrateStore::new();
    store.persist_crate(&spec("a@1.0.0"), &vec![], NOW).unwrap();
    let e = store.persist_doc_chunk(&chunk("a@1.0.0", 0, "a_0", "")).unwrap_err();
    assert_eq!(e.error, "chunk content must not be empty");
    let mut odd = chunk("a@1.0.0", 0, "a_0", "text");
    odd.metadata.content_type = "html".to_string();
    let e = store.persist_doc_chunk(&odd).unwrap_err();
    assert_eq!(e.error, "content type must be markdown, rust, toml or text");
    store.persist_doc_chunk(&chunk("a@1.0.0", 0, "a_0", "text")).unwrap();
    let e = store.persist_doc_chunk(&chunk("a@1.0.0", 0, "a_other", "text")).unwrap_err();
    assert_eq!(e.error, "chunk 0 of a@1.0.0 is already stored");
}

#[test]
fn test_idempotent_chunk_and_embedding_persistence() {
    let mut store = CrateStore::new();
    let s = spec("serde@1.0.0");
    store.persist_crate(&s, &vec!["derive".to_string()], NOW).unwrap();
    store.persist_doc_chunk(&chunk("serde@1.0.0", 0, "test_chunk_1", "Test documentation content")).unwrap();
    store.persist_embedding(&s, "test_chunk_1", 4, "test-model", "v1").ok().unwrap();
    // storing the crate again removes its chunks and embeddings; the record stays
    assert!(store.persist_crate(&s, &vec!["derive".to_string()], NOW).is_err());
    assert!(store.query_doc_chunks(&s).is_empty());
    store.persist_doc_chunk(&chunk("serde@1.0.0", 0, "test_chunk_1", "Updated documentation content")).unwrap();
    store.persist_doc_chunk(&chunk("serde@1.0.0", 0, "test_chunk_1", "Updated documentation content")).unwrap();
    store.persist_embedding(&s, "test_chunk_1", 4, "test-model", "v1").ok().unwrap();
    store.persist_embedding(&s, "test_chunk_1", 4, "test-model", "v1").ok().unwrap();
    let (crates, _) = store.list_crates(None, None);
    assert_eq!(crates.len(), 1);
    let chunks = store.query_doc_chunks(&s);
    assert_eq!(chunks.len(), 1);
    assert_eq!(chunks[0].content, "Updated documentation content");
}

#[test]
fn embeddings_need_their_chunk_and_crate() {
    let mut store = CrateStore::new();
    let s = spec("a@1.0.0");
    let refused = store.persist_embedding(&s, "a_0", 3, "m", "v1").err().unwrap();
    assert_eq!(
        refused.warning.as_deref(),
        Some("Cannot persist embedding: doc_chunk 'a_0' not found for crate a@1.0.0. The chunk must be persisted before embeddings can be stored.")
    );
    assert_eq!(refused.error.operation, "persist embedding for chunk a_0 (crate: a@1.0.0)");
    assert_eq!(
        refused.error.error,
        "Documentation chunk 'a_0' not found in database. Ensure chunks are persisted before embedding vectorization."
    );
    store.persist_crate(&s, &vec![], NOW).unwrap();
    store.persist_doc_chunk(&chunk("a@1.0.0", 0, "a_0", "text")).unwrap();
    let other = spec("b@1.0.0");
    let refused = store.persist_embedding(&other, "a_0", 3, "m", "v1").err().unwrap();
    assert_eq!(
        refused.warning.as_deref(),
        Some("Cannot persist embedding: crate b@1.0.0 not found in database (chunk: a_0)")
    );
    let refused = store.persist_embedding(&s, "a_0", 0, "m", "v1").err().unwrap();
    assert!(refused.warning.is_none());
    assert_eq!(refused.error.error, "Failed to create embedding record for chunk 'a_0': the vector is empty");
    store.persist_embedding(&s, "a_0", 3, "m", "v1").ok().unwrap();
    let refused = store.persist_embedding(&s, "a_0", 3, "other", "v1").err().unwrap();
    assert_eq!(
        refused.error.error,
        "Failed to create embedding record for chunk 'a_0': the chunk has an embedding by another model"
    );
}

#[test]
fn test_query_doc_chunks_returns_ordered_chunks() {
    let mut store = CrateStore::new();
    let s = spec("order-test@1.0.0");
    store.persist_crate(&s, &vec!["test".to_string()], NOW).unwrap();
    for (index, content) in [(2, "Third chunk content"), (0, "First chunk content"), (1, "Second chunk content")] {
        store
            .persist_doc_chunk(&chunk("order-test@1.0.0", index, &format!("test_chunk_{}", index), content))
            .unwrap();
    }
    let chunks = store.query_doc_chunks(&s);
    assert_eq!(chunks.len(), 3);
    for (i, c) in chunks.iter().enumerate() {
        assert_eq!(c.chunk_index, i);
    }
    assert_eq!(chunks[0].content, "First chunk content");
    assert_eq!(chunks[1].content, "Second chunk content");
    assert_eq!(chunks[2].content, "Third chunk content");
    assert_eq!(chunks[0].chunk_id, "test_chunk_0");
    assert_eq!(chunks[0].content_type, "markdown");
    assert_eq!(chunks[0].source_file, "README.md");
    assert_eq!(chunks[0].token_count, 50);
    assert_eq!(chunks[0].char_count, 200);
}

#[test]
fn test_query_doc_chunks_empty_for_crate_without_chunks() {
    let mut store = CrateStore::new();
    let s = spec("empty_crate@1.0.0");
    store.persist_crate(&s, &vec![], NOW).unwrap();
    assert!(store.query_doc_chunks(&s).is_empty());
}

#[test]
fn test_query_doc_chunks_empty_for_nonexistent_crate() {
    let store = CrateStore::new();
    assert!(store.query_doc_chunks(&spec("nonexistent@1.0.0")).is_empty());
}

#[test]
fn code_samples_are_checked_and_stored_once() {
    let mut store = CrateStore::new();
    let s = spec("serde@1.0.0");
    let sample = |index: usize, code: &str, kind: &str| PersistCodeSample {
        specifier: spec("serde@1.0.0"),
        sample_index: index,
        code: code.to_string(),
        sample_type: kind.to_string(),
        metadata: CodeSampleMetadata {
            language: "rust".to_string(),
            source_file: "src/lib.rs".to_string(),
            doc_context: None,
            parent_item: None,
            tags: vec![],
            line_count: 1,
        },
    };
    let e = store.persist_code_sample(&sample(0, "fn main() {}", "example")).unwrap_err();
    assert_eq!(e.operation, "persist code sample for serde@1.0.0");
    assert_eq!(e.error, "Crate serde@1.0.0 not found in database");
    store.persist_crate(&s, &vec![], NOW).unwrap();
    store.persist_code_sample(&sample(0, "fn main() {}", "example")).unwrap();
    let e = store.persist_code_sample(&sample(0, "fn main() {}", "example")).unwrap_err();
    assert_eq!(e.operation, "persist code sample 0 for serde@1.0.0");
    assert_eq!(e.error, "sample 0 of serde@1.0.0 is already stored");
    let e = store.persist_code_sample(&sample(1, "", "example")).unwrap_err();
    assert_eq!(e.error, "the code is empty");
    let e = store.persist_code_sample(&sample(1, "x", "demo")).unwrap_err();
    assert_eq!(e.error, "sample type must be example, test, usage or snippet");
}

#[test]
fn similarity_search_weighs_embeddings_of_stored_chunks() {
    let mut store = CrateStore::new();
    let a = spec("a@1.0.0");
    let b = spec("b@2.0.0");
    store.persist_crate(&a, &vec![], NOW).unwrap();
    store.persist_crate(&b, &vec![], NOW).unwrap();
    store.persist_doc_chunk(&chunk("a@1.0.0", 0, "a_0", "alpha text")).unwrap();
    store.persist_doc_chunk(&chunk("b@2.0.0", 0, "b_0", "beta text")).unwrap();
    store.persist_embedding(&a, "a_0", 3, "m", "v1").ok().unwrap();
    store.persist_embedding(&b, "b_0", 3, "m", "v1").ok().unwrap();

    let all = store.similarity_candidates(&None);
    assert_eq!(all.len(), 2);
    assert_eq!(all[0].chunk_id, "a_0");
    assert_eq!(all[0].content, "alpha text");
    assert_eq!(all[1].crate_name, "b");
    assert_eq!(all[1].crate_version, "2.0.0");
    assert_eq!(all[1].model_name, "m");

    let only_b = store.similarity_candidates(&Some(b.clone()));
    assert_eq!(only_b.len(), 1);
    assert_eq!(only_b[0].content, "beta text");

    assert!(store.similarity_candidates(&Some(spec("c@1.0.0"))).is_empty());
}
