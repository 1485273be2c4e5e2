use crately::actors::crate_downloader::{CrateDownloader, DownloadCrate};

#[test]
fn test_download_crate_message_creation() {
    let msg = DownloadCrate {
        name: "tokio".to_string(),
        version: "1.35.0".to_string(),
    };
    assert_eq!(msg.name, "tokio");
    assert_eq!(msg.version, "1.35.0");
}

#[test]
fn test_download_crate_message_clone() {
    let msg1 = DownloadCrate {
        name: "axum".to_string(),
        version: "0.7.0".to_string(),
    };
    let msg2 = msg1.clone();
    assert_eq!(msg1.name, msg2.name);
    assert_eq!(msg1.version, msg2.version);
}

#[test]
fn download_request_constructor() {
    let msg = DownloadCrate::new("serde".to_string(), "1.0.0".to_string());
    assert_eq!(msg, DownloadCrate { name: "serde".to_string(), version: "1.0.0".to_string() });
    let _downloader = CrateDownloader::default();
}
