use crately::actors::config::ReadConfig;
use crately::actors::file_reader_actor::{
    classify_extraction_error, extract_documentation, source_candidates, CrateProbe,
    ExtractionErrorKind, FileProbe, FileReaderActor, FileState,
};

fn present(path: &str, size: u64) -> FileProbe {
    FileProbe {
        path: path.to_string(),
        state: FileState::Present { size, read_error: None },
    }
}

fn missing(path: &str) -> FileProbe {
    FileProbe {
        path: path.to_string(),
        state: FileState::Missing,
    }
}

fn crate_probe(readme: FileProbe, cargo: FileProbe, sources: Vec<FileProbe>) -> CrateProbe {
    CrateProbe {
        crate_dir: "/tmp/c/test_crate-1.0.0".to_string(),
        dir_exists: true,
        readme,
        cargo_toml: cargo,
        sources,
    }
}

#[test]
fn test_file_reader_actor_new() {
    let config = ReadConfig::default();
    let actor = FileReaderActor::new(config.clone());
    assert_eq!(actor.config().timeout_secs, config.timeout_secs);
}

#[test]
fn test_classify_extraction_error_file_not_found() {
    assert_eq!(
        classify_extraction_error("Crate directory does not exist: /tmp/test"),
        ExtractionErrorKind::FileNotFound
    );
    assert_eq!(
        classify_extraction_error("Cargo.toml not found in crate directory"),
        ExtractionErrorKind::FileNotFound
    );
}

#[test]
fn test_classify_extraction_error_file_too_large() {
    assert_eq!(
        classify_extraction_error("File size (20000000 bytes) exceeds maximum allowed (10485760 bytes)"),
        ExtractionErrorKind::FileTooLarge
    );
}

#[test]
fn test_classify_extraction_error_permission_denied() {
    assert_eq!(
        classify_extraction_error("Permission denied (os error 13)"),
        ExtractionErrorKind::PermissionDenied
    );
}

#[test]
fn test_classify_extraction_error_invalid_format() {
    assert_eq!(
        classify_extraction_error("Invalid UTF-8 in file"),
        ExtractionErrorKind::InvalidFormat
    );
}

#[test]
fn test_classify_extraction_error_other() {
    assert_eq!(
        classify_extraction_error("Unexpected error occurred"),
        ExtractionErrorKind::Other
    );
}

#[test]
fn test_extract_documentation_success() {
    let probe = crate_probe(
        present("README.md", 40),
        present("Cargo.toml", 90),
        vec![missing("lib.rs"), present("src/lib.rs", 30), present("src/main.rs", 7)],
    );
    let (bytes, file_count) = extract_documentation(&ReadConfig::default(), &probe).unwrap();
    assert_eq!(bytes, 160);
    assert_eq!(file_count, 3);
}

#[test]
fn test_extract_documentation_missing_directory() {
    let mut probe = crate_probe(missing("README.md"), missing("Cargo.toml"), vec![]);
    probe.dir_exists = false;
    let err = extract_documentation(&ReadConfig::default(), &probe).unwrap_err();
    assert!(err.contains("does not exist"));
    assert_eq!(
        classify_extraction_error(&err),
        ExtractionErrorKind::FileNotFound
    );
}

#[test]
fn test_extract_documentation_missing_cargo_toml() {
    let probe = crate_probe(
        missing("README.md"),
        missing("Cargo.toml"),
        vec![missing("lib.rs"), present("src/lib.rs", 16), missing("src/main.rs")],
    );
    let err = extract_documentation(&ReadConfig::default(), &probe).unwrap_err();
    assert!(err.contains("Cargo.toml not found"));
}

#[test]
fn test_extract_documentation_missing_source() {
    let probe = crate_probe(
        missing("README.md"),
        present("Cargo.toml", 40),
        vec![missing("lib.rs"), missing("src/lib.rs"), missing("src/main.rs")],
    );
    let err = extract_documentation(&ReadConfig::default(), &probe).unwrap_err();
    assert!(err.contains("No lib.rs or main.rs found"));
}

#[test]
fn oversized_file_is_refused() {
    let config = ReadConfig {
        max_file_size_bytes: 100,
        ..Default::default()
    };
    let probe = crate_probe(present("/c/README.md", 200), present("Cargo.toml", 10), vec![]);
    let err = extract_documentation(&config, &probe).unwrap_err();
    assert_eq!(
        err,
        "File size (200 bytes) exceeds maximum allowed (100 bytes): /c/README.md"
    );
}

#[test]
fn unreadable_file_reports_its_cause() {
    let probe = crate_probe(
        missing("README.md"),
        FileProbe {
            path: "/c/Cargo.toml".to_string(),
            state: FileState::Present {
                size: 3,
                read_error: Some("stream did not contain valid UTF-8".to_string()),
            },
        },
        vec![],
    );
    let err = extract_documentation(&ReadConfig::default(), &probe).unwrap_err();
    assert_eq!(
        err,
        "Failed to read file: /c/Cargo.toml: stream did not contain valid UTF-8"
    );
}

#[test]
fn source_candidates_in_order() {
    let c = source_candidates();
    assert_eq!(c, vec![vec!["lib.rs"], vec!["src", "lib.rs"], vec!["src", "main.rs"]]);
}
