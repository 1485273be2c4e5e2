//! Downloading crate archives from the registry.
//!
//! The downloader fetches `<registry>/crates/<name>/<version>/download` with
//! an HTTP client that identifies itself as crately, unpacks the archive into
//! `<download_dir>/<name>-<version>`, and classifies failures by their
//! message. The transfer and the unpacking are done by the caller.

use vstd::prelude::*;
use vstd::string::StringExecFns;

use crate::actors::config::DownloadConfig;
use crate::crate_specifier::{version_text, CrateSpecifier, CrateSpecifierView};
use crate::text::{contains_seq, contains_str};

verus! {

#[verifier::external_type_specification]
#[verifier::external_body]
pub struct ExClient(reqwest::Client);

/// An HTTP client with a whole-request timeout of `timeout_secs` seconds and
/// the given user agent (`reqwest::ClientBuilder::build`); the error's text
/// when it cannot be built. Whether it can be built depends on the system's
/// TLS setup, so nothing is stated of the result.
#[verifier::external_body]
fn build_http_client(timeout_secs: u64, user_agent: &str) -> Result<reqwest::Client, String> {
    reqwest::Client::builder().timeout(std::time::Duration::from_secs(timeout_secs)).user_agent(
        user_agent,
    ).build().map_err(|e| e.to_string())
}

/// The address a crate's archive is downloaded from.
pub open spec fn download_url_of(registry: Seq<char>, s: CrateSpecifierView) -> Seq<char> {
    registry + "/crates/"@ + s.name + "/"@ + version_text(s.version) + "/download"@
}

/// The address a crate's archive is downloaded from (see [`download_url_of`]).
pub fn download_url(config: &DownloadConfig, specifier: &CrateSpecifier) -> (s: String)
    ensures
        s@ == download_url_of(config.crates_io_url@, specifier@),
{
    let mut s = config.crates_io_url.clone();
    s.append("/crates/");
    s.append(specifier.name());
    s.append("/");
    let v = specifier.version().to_text();
    s.append(v.as_str());
    s.append("/download");
    s
}

/// The message of a download answered with a failing status; `status` is
/// the status as printed (code and reason).
pub fn http_status_failure(status: &str, url: &str) -> (s: String)
    ensures
        s@ == "HTTP request failed with status "@ + status@ + ": "@ + url@,
{
    let mut s = String::from_str("HTTP request failed with status ");
    s.append(status);
    s.append(": ");
    s.append(url);
    s
}

/// The kind of a download failure.
#[derive(Debug, Clone, Copy, PartialEq, Eq, Structural)]
pub enum DownloadErrorKind {
    NotFound,
    Timeout,
    ExtractionError,
    NetworkError,
    Other,
}

/// The kind of a download failure, judged from its message.
pub open spec fn download_error_kind(m: Seq<char>) -> DownloadErrorKind {
    if contains_seq(m, "404"@) || contains_seq(m, "not found"@) {
        DownloadErrorKind::NotFound
    } else if contains_seq(m, "timeout"@) || contains_seq(m, "timed out"@) {
        DownloadErrorKind::Timeout
    } else if contains_seq(m, "extract"@) || contains_seq(m, "unpack"@) || contains_seq(m, "gzip"@) {
        DownloadErrorKind::ExtractionError
    } else if contains_seq(m, "network"@) || contains_seq(m, "connection"@) || contains_seq(
        m,
        "DNS"@,
    ) {
        DownloadErrorKind::NetworkError
    } else {
        DownloadErrorKind::Other
    }
}

/// Classifies a download failure by its message (see [`download_error_kind`]).
pub fn classify_error(message: &str) -> (k: DownloadErrorKind)
    ensures
        k == download_error_kind(message@),
{
    if contains_str(message, "404") || contains_str(message, "not found") {
        DownloadErrorKind::NotFound
    } else if contains_str(message, "timeout") || contains_str(message, "timed out") {
        DownloadErrorKind::Timeout
    } else if contains_str(message, "extract") || contains_str(message, "unpack") || contains_str(
        message,
        "gzip",
    ) {
        DownloadErrorKind::ExtractionError
    } else if contains_str(message, "network") || contains_str(message, "connection")
        || contains_str(message, "DNS") {
        DownloadErrorKind::NetworkError
    } else {
        DownloadErrorKind::Other
    }
}

/// The downloader's state: its configuration and its HTTP client.
pub struct DownloaderActor {
    config: DownloadConfig,
    http_client: reqwest::Client,
}

impl DownloaderActor {
    /// The configuration.
    pub closed spec fn spec_config(&self) -> DownloadConfig {
        self.config
    }

    /// The HTTP client the downloader was built with.
    pub closed spec fn spec_http_client(&self) -> reqwest::Client {
        self.http_client
    }

    /// A downloader whose client times out after the configured number of
    /// seconds and identifies itself as crately; fails with the client
    /// library's message when no client can be built.
    pub fn new(config: DownloadConfig) -> (r: Result<Self, String>)
        ensures
            r is Ok ==> r->Ok_0.spec_config() == config,
    {
        match build_http_client(config.timeout_secs, "crately/0.1.0") {
            Ok(http_client) => Ok(DownloaderActor { config, http_client }),
            Err(e) => Err(e),
        }
    }

    /// The configuration.
    pub fn config(&self) -> (c: &DownloadConfig)
        ensures
            *c == self.spec_config(),
    {
        &self.config
    }

    /// The HTTP client.
    pub fn http_client(&self) -> (c: &reqwest::Client)
        ensures
            *c == self.spec_http_client(),
    {
        &self.http_client
    }
}

} // verus!
