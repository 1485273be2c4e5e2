use crately::actors::config::DownloadConfig;
use crately::actors::downloader_actor::{
    classify_error, download_url, http_status_failure, DownloadErrorKind, DownloaderActor,
};
use crately::actors::processor_actor::crate_directory;
use crately::crate_specifier::CrateSpecifier;

#[test]
fn test_downloader_actor_new() {
    let config = DownloadConfig::default();
    let actor = DownloaderActor::new(config.clone()).unwrap();
    assert_eq!(actor.config().timeout_secs, config.timeout_secs);
}

#[test]
fn test_classify_error_not_found() {
    assert_eq!(classify_error("HTTP 404 not found"), DownloadErrorKind::NotFound);
}

#[test]
fn test_classify_error_timeout() {
    assert_eq!(classify_error("Request timed out"), DownloadErrorKind::Timeout);
}

#[test]
fn test_classify_error_extraction() {
    assert_eq!(
        classify_error("Failed to extract tarball"),
        DownloadErrorKind::ExtractionError
    );
}

#[test]
fn test_classify_error_network() {
    assert_eq!(
        classify_error("Network connection failed"),
        DownloadErrorKind::NetworkError
    );
}

#[test]
fn test_classify_error_other() {
    assert_eq!(classify_error("Unknown error"), DownloadErrorKind::Other);
}

#[test]
fn test_extract_directory_format() {
    let specifier = CrateSpecifier::parse("serde@1.0.0").unwrap();
    assert_eq!(crate_directory(&specifier), "serde-1.0.0");
}

#[test]
fn test_download_url_format() {
    let config = DownloadConfig::default();
    let specifier = CrateSpecifier::parse("serde@1.0.0").unwrap();
    assert_eq!(
        download_url(&config, &specifier),
        "https://crates.io/api/v1/crates/serde/1.0.0/download"
    );
}

#[test]
fn status_failure_message() {
    assert_eq!(
        http_status_failure("404 Not Found", "https://x/y"),
        "HTTP request failed with status 404 Not Found: https://x/y"
    );
    assert_eq!(
        classify_error(&http_status_failure("404 Not Found", "https://x/y")),
        DownloadErrorKind::NotFound
    );
}

#[test]
fn classification_order_prefers_not_found() {
    assert_eq!(classify_error("not found after timeout"), DownloadErrorKind::NotFound);
    assert_eq!(classify_error("DNS failure"), DownloadErrorKind::NetworkError);
    assert_eq!(classify_error("gzip header"), DownloadErrorKind::ExtractionError);
}
