use crately::actors::config::{ProcessConfig, TokenEncoding};
use crately::actors::processor_actor::{
    chunk_count, chunk_id, chunk_sources, crate_directory, documentation_files,
    is_indexed_source, persist_requests, records_for_source, ChunkingError, ContentType, DocumentSource,
    ProcessorActor,
};
use crately::crate_specifier::CrateSpecifier;

#[test]
fn test_processor_actor_new() {
    let config = ProcessConfig::default();
    let actor = ProcessorActor::new(config.clone());
    assert_eq!(actor.config().chunk_size, config.chunk_size);
    assert_eq!(actor.config().chunk_overlap, config.chunk_overlap);
    assert_eq!(actor.config().token_encoding, config.token_encoding);
}

#[test]
fn test_content_type_as_str() {
    assert_eq!(ContentType::Markdown.as_str(), "markdown");
    assert_eq!(ContentType::Rust.as_str(), "rust");
    assert_eq!(ContentType::Toml.as_str(), "toml");
}

fn sources() -> Vec<DocumentSource> {
    vec![
        DocumentSource {
            source_file: "README.md".to_string(),
            content_type: ContentType::Markdown,
            content: "# Test Crate\n\nThis is a test crate.\n\nIt has multiple paragraphs.\n".to_string(),
        },
        DocumentSource {
            source_file: "Cargo.toml".to_string(),
            content_type: ContentType::Toml,
            content: "[package]\nname = \"test_crate\"\nversion = \"1.0.0\"\n".to_string(),
        },
        DocumentSource {
            source_file: "src/lib.rs".to_string(),
            content_type: ContentType::Rust,
            content: "/// Example function\npub fn example() {}\n".to_string(),
        },
    ]
}

#[test]
fn test_chunk_documentation_success() {
    let specifier = CrateSpecifier::parse("test_crate@1.0.0").unwrap();
    let config = ProcessConfig::default();
    let (chunks, total_tokens) = chunk_sources(&config, &specifier, &sources()).unwrap();
    assert!(!chunks.is_empty());
    assert!(total_tokens > 0);
    for chunk in &chunks {
        assert!(!chunk.content.is_empty());
        assert!(!chunk.source_file.is_empty());
        assert!(!chunk.content_type.is_empty());
        assert!(chunk.token_count > 0);
    }
    let sum: u32 = chunks.iter().map(|c| c.token_count as u32).sum();
    assert_eq!(sum, total_tokens);
    let mut kinds: Vec<&str> = chunks.iter().map(|c| c.content_type.as_str()).collect();
    kinds.sort();
    kinds.dedup();
    assert!(kinds.len() > 1);
}

#[test]
fn blank_documentation_is_an_error() {
    let specifier = CrateSpecifier::parse("empty@0.1.0").unwrap();
    let blank = vec![DocumentSource {
        source_file: "README.md".to_string(),
        content_type: ContentType::Markdown,
        content: "   \n\t\n".to_string(),
    }];
    match chunk_sources(&ProcessConfig::default(), &specifier, &blank) {
        Err(e @ ChunkingError::NoDocumentation(_)) => {
            assert_eq!(e.message(), "No documentation content found for empty@0.1.0")
        }
        _ => panic!("expected no documentation"),
    }
}

#[test]
fn test_create_tokenizer_cl100k_base() {
    let config = ProcessConfig {
        token_encoding: TokenEncoding::Cl100k,
        ..Default::default()
    };
    let specifier = CrateSpecifier::parse("t@1.0.0").unwrap();
    assert!(chunk_sources(&config, &specifier, &sources()).is_ok());
}

#[test]
fn test_count_tokens() {
    let specifier = CrateSpecifier::parse("t@1.0.0").unwrap();
    let one = vec![DocumentSource {
        source_file: "README.md".to_string(),
        content_type: ContentType::Markdown,
        content: "Hello world, this is a test.".to_string(),
    }];
    let (chunks, total) = chunk_sources(&ProcessConfig::default(), &specifier, &one).unwrap();
    assert_eq!(chunks.len(), 1);
    assert!(total > 0);
    assert!(total < 20);
}

#[test]
fn chunk_identifiers() {
    let specifier = CrateSpecifier::parse("tokio-util@0.7.10").unwrap();
    assert_eq!(chunk_id(&specifier, 0), "tokio_util_0_7_10_000");
    assert_eq!(chunk_id(&specifier, 42), "tokio_util_0_7_10_042");
    assert_eq!(chunk_id(&specifier, 1234), "tokio_util_0_7_10_1234");
}

#[test]
fn directory_and_file_plan() {
    let specifier = CrateSpecifier::parse("serde@1.0.0").unwrap();
    assert_eq!(crate_directory(&specifier), "serde-1.0.0");
    let plan = documentation_files(&vec!["src/lib.rs".to_string()]);
    assert_eq!(plan.len(), 3);
    assert_eq!(plan[0], ("README.md".to_string(), ContentType::Markdown));
    assert_eq!(plan[1], ("Cargo.toml".to_string(), ContentType::Toml));
    assert_eq!(plan[2], ("src/lib.rs".to_string(), ContentType::Rust));
}

#[test]
fn test_and_bench_files_are_skipped() {
    assert!(is_indexed_source("/tmp/c/src/lib.rs"));
    assert!(!is_indexed_source("/tmp/c/src/tests/a.rs"));
    assert!(!is_indexed_source("/tmp/c/src/benches/b.rs"));
}

#[test]
fn persist_requests_number_chunks() {
    let specifier = CrateSpecifier::parse("a-b@1.2.3").unwrap();
    let (chunks, _) =
        chunk_sources(&ProcessConfig::default(), &specifier, &sources()).unwrap();
    let requests = persist_requests(&specifier, &vec!["derive".to_string()], &chunks);
    assert_eq!(requests.len(), chunks.len());
    assert_eq!(requests[0].chunk_id, "a_b_1_2_3_000");
    assert_eq!(requests[0].chunk_index, 0);
    assert_eq!(requests[0].metadata.char_count, chunks[0].content.len());
    assert_eq!(requests[0].features, Some(vec!["derive".to_string()]));
    assert_eq!(chunk_count(&chunks) as usize, chunks.len());
}

#[test]
fn records_keep_file_kind_and_counts() {
    let source = DocumentSource {
        source_file: "src/lib.rs".to_string(),
        content_type: ContentType::Rust,
        content: "fn a() {}\nfn b() {}\n".to_string(),
    };
    let pieces = vec!["fn a() {}".to_string(), "fn b() {}".to_string()];
    let records = records_for_source(&source, &pieces, &vec![4, 5]);
    assert_eq!(records.len(), 2);
    assert_eq!(records[0].content, "fn a() {}");
    assert_eq!(records[1].content, "fn b() {}");
    assert_eq!(records[0].source_file, "src/lib.rs");
    assert_eq!(records[1].content_type, "rust");
    assert_eq!(records[0].token_count, 4);
    assert_eq!(records[1].token_count, 5);
}

#[test]
fn unicode_whitespace_alone_is_blank() {
    let specifier = CrateSpecifier::parse("empty@0.1.0").unwrap();
    let blank = vec![DocumentSource {
        source_file: "README.md".to_string(),
        content_type: ContentType::Markdown,
        content: "\u{3000}\u{a0}\u{2028}\r\n\u{85}".to_string(),
    }];
    assert!(matches!(
        chunk_sources(&ProcessConfig::default(), &specifier, &blank),
        Err(ChunkingError::NoDocumentation(_))
    ));
}
