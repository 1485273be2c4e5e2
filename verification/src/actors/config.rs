//! Application and pipeline configuration.
//!
//! This module holds the configuration values of the service (server port and
//! the parameters of every pipeline stage), their defaults, and the
//! validation rules that a configuration must meet before it is used. Reading
//! and writing the TOML file is done by the caller.

use std::path::PathBuf;

use vstd::prelude::*;
use vstd::string::StringExecFns;

use crate::text::starts_with;

verus! {

#[verifier::external_type_specification]
#[verifier::external_body]
pub struct ExPathBuf(std::path::PathBuf);

/// Cloning a path (`PathBuf::clone`), which the derived `Clone` of the
/// configuration types calls; paths are opaque here, so nothing is stated
/// of the copy.
pub assume_specification[ <std::path::PathBuf as std::clone::Clone>::clone ](
    p: &std::path::PathBuf,
) -> std::path::PathBuf;

#[verifier::external_type_specification]
#[verifier::external_body]
pub struct ExIoError(std::io::Error);

#[verifier::external_type_specification]
#[verifier::external_body]
pub struct ExTomlDeError(toml::de::Error);

#[verifier::external_type_specification]
#[verifier::external_body]
pub struct ExTomlSerError(toml::ser::Error);

/// The user data directory of an application (`$XDG_DATA_HOME/<prefix>`, by
/// `xdg::BaseDirectories::with_prefix(prefix).get_data_home()`); `None` when
/// no home directory can be found. It depends on the environment, so nothing
/// is stated of it.
#[verifier::external_body]
fn xdg_data_home(prefix: &str) -> Option<PathBuf> {
    xdg::BaseDirectories::with_prefix(prefix).get_data_home()
}

/// The path that `Path::join` makes of `base` and `leaf`: a function of the
/// two. Paths are opaque here, so the base is taken as itself.
pub uninterp spec fn joined_path(base: PathBuf, leaf: Seq<char>) -> PathBuf;

/// The path that `PathBuf::from` makes of a text: a function of the text.
pub uninterp spec fn relative_path(leaf: Seq<char>) -> PathBuf;

/// Whether `p` is `leaf` adjoined to some directory, or `leaf` alone.
pub open spec fn is_subdirectory_path(p: PathBuf, leaf: Seq<char>) -> bool {
    p == relative_path(leaf) || exists|home: PathBuf| #[trigger] joined_path(home, leaf) == p
}

/// `base` with `leaf` appended (`Path::join`).
#[verifier::external_body]
fn path_join(base: &PathBuf, leaf: &str) -> (r: PathBuf)
    ensures
        r == joined_path(*base, leaf@),
{
    base.join(leaf)
}

/// A relative path made of `leaf` (`PathBuf::from`).
#[verifier::external_body]
fn path_from(leaf: &str) -> (r: PathBuf)
    ensures
        r == relative_path(leaf@),
{
    PathBuf::from(leaf)
}

/// A directory under the application's data directory, or the bare
/// relative directory when no data directory can be determined. Which data
/// directory depends on the environment.
fn data_subdirectory(leaf: &str) -> (r: PathBuf)
    ensures
        is_subdirectory_path(r, leaf@),
{
    match xdg_data_home("crately") {
        Some(home) => path_join(&home, leaf),
        None => path_from(leaf),
    }
}

/// Application configuration structure
#[derive(Debug, Clone, PartialEq, Eq)]
pub struct Config {
    /// HTTP server port (default: 3000)
    pub port: u16,
    /// Pipeline processing configuration
    pub pipeline: PipelineConfig,
}

/// Pipeline processing configuration for all stages
#[derive(Debug, Clone, PartialEq, Eq)]
pub struct PipelineConfig {
    /// Download stage configuration
    pub download: DownloadConfig,
    /// File reading stage configuration
    pub read: ReadConfig,
    /// Processing stage configuration
    pub process: ProcessConfig,
    /// Vectorization stage configuration
    pub vectorize: VectorizeConfig,
    /// Coordinator configuration
    pub coordinator: CoordinatorConfig,
}

/// Configuration for the crate download stage
#[derive(Debug, Clone, PartialEq, Eq)]
pub struct DownloadConfig {
    /// Directory path for downloaded crates (default: $XDG_DATA_HOME/crately/downloads)
    pub download_dir: PathBuf,
    /// HTTP request timeout in seconds (default: 30)
    pub timeout_secs: u64,
    /// Maximum concurrent downloads (default: 4)
    pub max_concurrent: usize,
    /// Maximum download retries (default: 3)
    pub max_retries: u32,
    /// Retry delay in seconds (default: 5)
    pub retry_delay_secs: u64,
    /// crates.io API base URL (default: https://crates.io/api/v1)
    pub crates_io_url: String,
}

/// Configuration for the file reading stage
#[derive(Debug, Clone, PartialEq, Eq)]
pub struct ReadConfig {
    /// Directory path for extracted crate files (default: $XDG_DATA_HOME/crately/extracted)
    pub extract_dir: PathBuf,
    /// Maximum file size to read in bytes (default: 10MB)
    pub max_file_size_bytes: u64,
    /// File patterns to include (default: ["*.rs", "*.md", "*.toml"])
    pub include_patterns: Vec<String>,
    /// File patterns to exclude (default: ["*/target/*", "*/tests/*"])
    pub exclude_patterns: Vec<String>,
    /// Read operation timeout in seconds (default: 10)
    pub timeout_secs: u64,
}

/// Token encoding type for tokenization
#[derive(Debug, Clone, Copy, PartialEq, Eq, Structural)]
pub enum TokenEncoding {
    /// cl100k_base encoding
    Cl100k,
    /// o200k_base encoding
    O200k,
    /// p50k_base encoding
    P50k,
}

/// Configuration for the processing stage
#[derive(Debug, Clone, PartialEq, Eq)]
pub struct ProcessConfig {
    /// rustdoc compilation timeout in seconds (default: 300)
    pub compilation_timeout_secs: u64,
    /// Maximum concurrent compilation jobs (default: 2)
    pub max_concurrent_compilations: usize,
    /// Documentation output directory (default: $XDG_DATA_HOME/crately/docs)
    pub docs_dir: PathBuf,
    /// Text chunking size in tokens (default: 500)
    pub chunk_size: usize,
    /// Chunk overlap in tokens (default: 100)
    pub chunk_overlap: usize,
    /// Token encoding to use for chunking (default: cl100k_base)
    pub token_encoding: TokenEncoding,
    /// Enable source code extraction (default: true)
    pub extract_source_code: bool,
}

/// Configuration for the vectorization stage
#[derive(Debug, Clone, PartialEq, Eq)]
pub struct VectorizeConfig {
    /// Embedding model name (default: "text-embedding-3-small")
    pub model_name: String,
    /// Embedding model version (default: "1.0")
    pub model_version: String,
    /// Batch size for vectorization (default: 32)
    pub batch_size: usize,
    /// Vector dimension (default: 1536)
    pub vector_dimension: usize,
    /// Maximum concurrent vectorization operations (default: 2)
    pub max_concurrent: usize,
    /// Vectorization timeout in seconds (default: 60)
    pub timeout_secs: u64,
    /// OpenAI-compatible API endpoint for embeddings
    pub api_endpoint: String,
    /// API key for embedding service (taken from the environment, never from the file)
    pub api_key: Option<String>,
    /// HTTP request timeout in seconds for embedding API calls (default: 30)
    pub request_timeout_secs: u64,
    /// Maximum retry attempts for failed API requests (default: 3)
    pub max_retries: u32,
    /// Initial retry delay in seconds for exponential backoff (default: 2)
    pub retry_delay_secs: u64,
}

/// Configuration for the crate processing coordinator
#[derive(Debug, Clone, Copy, PartialEq, Eq, Structural)]
pub struct CoordinatorConfig {
    /// Maximum retry attempts (default: 3)
    pub max_retries: u32,
    /// Retry backoff delay in seconds (default: 2)
    pub retry_backoff_secs: u64,
    /// Processing timeout in seconds (default: 300 = 5 minutes)
    pub timeout_secs: u64,
    /// Check interval for timeout detection in seconds (default: 30)
    pub check_interval_secs: u64,
}

/// Error types that can occur during configuration operations
#[derive(Debug)]
pub enum ConfigError {
    /// HOME directory could not be determined (XDG config home is None)
    HomeDirectoryNotFound,
    /// Failed to create config directory
    DirectoryCreation(std::io::Error),
    /// Failed to read config file
    FileRead(std::io::Error),
    /// Failed to write config file
    FileWrite(std::io::Error),
    /// Failed to parse TOML configuration
    TomlParse(toml::de::Error),
    /// Failed to serialize config to TOML
    TomlSerialize(toml::ser::Error),
    /// Configuration value validation failed
    InvalidValue(String),
}

/// The description of an I/O error (its `Display` text, which depends on the system).
#[verifier::external_body]
fn io_error_text(e: &std::io::Error) -> String {
    e.to_string()
}

/// The description of a TOML parse error (its `Display` text).
#[verifier::external_body]
fn toml_parse_error_text(e: &toml::de::Error) -> String {
    e.to_string()
}

/// The description of a TOML serialization error (its `Display` text).
#[verifier::external_body]
fn toml_serialize_error_text(e: &toml::ser::Error) -> String {
    e.to_string()
}

/// The text that introduces the message of each kind of configuration error.
pub open spec fn config_error_lead(e: ConfigError) -> Seq<char> {
    match e {
        ConfigError::HomeDirectoryNotFound => "HOME directory not found - cannot determine XDG config directory"@,
        ConfigError::DirectoryCreation(_) => "Failed to create config directory: "@,
        ConfigError::FileRead(_) => "Failed to read config file: "@,
        ConfigError::FileWrite(_) => "Failed to write config file: "@,
        ConfigError::TomlParse(_) => "Failed to parse TOML configuration: "@,
        ConfigError::TomlSerialize(_) => "Failed to serialize config to TOML: "@,
        ConfigError::InvalidValue(_) => "Invalid configuration value: "@,
    }
}

impl ConfigError {
    /// The message of this error: its lead text, then the underlying cause
    /// (the message of an invalid value, or the description of an I/O or TOML error).
    pub fn message(&self) -> (s: String)
        ensures
            config_error_lead(*self).is_prefix_of(s@),
            *self is HomeDirectoryNotFound ==> s@ == config_error_lead(*self),
            *self is InvalidValue ==> s@ == config_error_lead(*self) + self->InvalidValue_0@,
    {
        match self {
            ConfigError::HomeDirectoryNotFound => String::from_str(
                "HOME directory not found - cannot determine XDG config directory",
            ),
            ConfigError::DirectoryCreation(e) => {
                let mut s = String::from_str("Failed to create config directory: ");
                s.append(io_error_text(e).as_str());
                s
            },
            ConfigError::FileRead(e) => {
                let mut s = String::from_str("Failed to read config file: ");
                s.append(io_error_text(e).as_str());
                s
            },
            ConfigError::FileWrite(e) => {
                let mut s = String::from_str("Failed to write config file: ");
                s.append(io_error_text(e).as_str());
                s
            },
            ConfigError::TomlParse(e) => {
                let mut s = String::from_str("Failed to parse TOML configuration: ");
                s.append(toml_parse_error_text(e).as_str());
                s
            },
            ConfigError::TomlSerialize(e) => {
                let mut s = String::from_str("Failed to serialize config to TOML: ");
                s.append(toml_serialize_error_text(e).as_str());
                s
            },
            ConfigError::InvalidValue(m) => {
                let mut s = String::from_str("Invalid configuration value: ");
                s.append(m.as_str());
                s
            },
        }
    }
}

/// A validation result: `Ok` exactly when there is no problem, otherwise an
/// invalid-value error carrying the first problem found.
pub open spec fn reports(r: Result<(), ConfigError>, problem: Option<Seq<char>>) -> bool {
    match problem {
        None => r is Ok,
        Some(m) => r is Err && r->Err_0 is InvalidValue && r->Err_0->InvalidValue_0@ == m,
    }
}

/// The first problem of a download configuration, in the order checked.
pub open spec fn download_problem(c: DownloadConfig) -> Option<Seq<char>> {
    if c.timeout_secs == 0 {
        Some("download.timeout_secs must be > 0"@)
    } else if c.max_concurrent == 0 {
        Some("download.max_concurrent must be > 0"@)
    } else if c.max_retries == 0 {
        Some("download.max_retries must be > 0"@)
    } else if c.retry_delay_secs == 0 {
        Some("download.retry_delay_secs must be > 0"@)
    } else {
        None
    }
}

/// The first problem of a read configuration.
pub open spec fn read_problem(c: ReadConfig) -> Option<Seq<char>> {
    if c.max_file_size_bytes == 0 {
        Some("read.max_file_size_bytes must be > 0"@)
    } else if c.timeout_secs == 0 {
        Some("read.timeout_secs must be > 0"@)
    } else {
        None
    }
}

/// The first problem of a process configuration.
pub open spec fn process_problem(c: ProcessConfig) -> Option<Seq<char>> {
    if c.compilation_timeout_secs == 0 {
        Some("process.compilation_timeout_secs must be > 0"@)
    } else if c.max_concurrent_compilations == 0 {
        Some("process.max_concurrent_compilations must be > 0"@)
    } else if c.chunk_size <= c.chunk_overlap {
        Some("process.chunk_size must be > chunk_overlap"@)
    } else {
        None
    }
}

/// The first problem of a vectorize configuration.
pub open spec fn vectorize_problem(c: VectorizeConfig) -> Option<Seq<char>> {
    if c.batch_size == 0 {
        Some("vectorize.batch_size must be > 0"@)
    } else if c.vector_dimension == 0 {
        Some("vectorize.vector_dimension must be > 0"@)
    } else if c.max_concurrent == 0 {
        Some("vectorize.max_concurrent must be > 0"@)
    } else if c.timeout_secs == 0 {
        Some("vectorize.timeout_secs must be > 0"@)
    } else if c.api_endpoint@.len() == 0 {
        Some("vectorize.api_endpoint must not be empty"@)
    } else if !"http://"@.is_prefix_of(c.api_endpoint@) && !"https://"@.is_prefix_of(
        c.api_endpoint@,
    ) {
        Some("vectorize.api_endpoint must be a valid HTTP(S) URL"@)
    } else if c.request_timeout_secs == 0 {
        Some("vectorize.request_timeout_secs must be > 0"@)
    } else if c.max_retries == 0 {
        Some("vectorize.max_retries must be > 0"@)
    } else if c.retry_delay_secs == 0 {
        Some("vectorize.retry_delay_secs must be > 0"@)
    } else {
        None
    }
}

/// The first problem of a coordinator configuration.
pub open spec fn coordinator_problem(c: CoordinatorConfig) -> Option<Seq<char>> {
    if c.max_retries == 0 {
        Some("coordinator.max_retries must be > 0"@)
    } else if c.retry_backoff_secs == 0 {
        Some("coordinator.retry_backoff_secs must be > 0"@)
    } else if c.timeout_secs == 0 {
        Some("coordinator.timeout_secs must be > 0"@)
    } else if c.check_interval_secs == 0 {
        Some("coordinator.check_interval_secs must be > 0"@)
    } else {
        None
    }
}

/// The first problem of a pipeline configuration, stage by stage.
pub open spec fn pipeline_problem(c: PipelineConfig) -> Option<Seq<char>> {
    if download_problem(c.download) is Some {
        download_problem(c.download)
    } else if read_problem(c.read) is Some {
        read_problem(c.read)
    } else if process_problem(c.process) is Some {
        process_problem(c.process)
    } else if vectorize_problem(c.vectorize) is Some {
        vectorize_problem(c.vectorize)
    } else {
        coordinator_problem(c.coordinator)
    }
}

fn invalid(message: &str) -> (r: Result<(), ConfigError>)
    ensures
        r is Err && r->Err_0 is InvalidValue && r->Err_0->InvalidValue_0@ == message@,
{
    Err(ConfigError::InvalidValue(String::from_str(message)))
}

impl PipelineConfig {
    /// Validates pipeline configuration for logical consistency, stage by stage.
    pub fn validate(&self) -> (r: Result<(), ConfigError>)
        ensures
            reports(r, pipeline_problem(*self)),
    {
        self.download.validate()?;
        self.read.validate()?;
        self.process.validate()?;
        self.vectorize.validate()?;
        self.coordinator.validate()?;
        Ok(())
    }
}

impl DownloadConfig {
    /// Validates download configuration
    pub fn validate(&self) -> (r: Result<(), ConfigError>)
        ensures
            reports(r, download_problem(*self)),
    {
        if self.timeout_secs == 0 {
            return invalid("download.timeout_secs must be > 0");
        }
        if self.max_concurrent == 0 {
            return invalid("download.max_concurrent must be > 0");
        }
        if self.max_retries == 0 {
            return invalid("download.max_retries must be > 0");
        }
        if self.retry_delay_secs == 0 {
            return invalid("download.retry_delay_secs must be > 0");
        }
        Ok(())
    }
}

impl ReadConfig {
    /// Validates read configuration
    pub fn validate(&self) -> (r: Result<(), ConfigError>)
        ensures
            reports(r, read_problem(*self)),
    {
        if self.max_file_size_bytes == 0 {
            return invalid("read.max_file_size_bytes must be > 0");
        }
        if self.timeout_secs == 0 {
            return invalid("read.timeout_secs must be > 0");
        }
        Ok(())
    }
}

impl ProcessConfig {
    /// Validates process configuration
    pub fn validate(&self) -> (r: Result<(), ConfigError>)
        ensures
            reports(r, process_problem(*self)),
    {
        if self.compilation_timeout_secs == 0 {
            return invalid("process.compilation_timeout_secs must be > 0");
        }
        if self.max_concurrent_compilations == 0 {
            return invalid("process.max_concurrent_compilations must be > 0");
        }
        if self.chunk_size <= self.chunk_overlap {
            return invalid("process.chunk_size must be > chunk_overlap");
        }
        Ok(())
    }
}

impl VectorizeConfig {
    /// Validates vectorize configuration
    pub fn validate(&self) -> (r: Result<(), ConfigError>)
        ensures
            reports(r, vectorize_problem(*self)),
    {
        if self.batch_size == 0 {
            return invalid("vectorize.batch_size must be > 0");
        }
        if self.vector_dimension == 0 {
            return invalid("vectorize.vector_dimension must be > 0");
        }
        if self.max_concurrent == 0 {
            return invalid("vectorize.max_concurrent must be > 0");
        }
        if self.timeout_secs == 0 {
            return invalid("vectorize.timeout_secs must be > 0");
        }
        if self.api_endpoint.as_str().unicode_len() == 0 {
            return invalid("vectorize.api_endpoint must not be empty");
        }
        if !starts_with(self.api_endpoint.as_str(), "http://") && !starts_with(
            self.api_endpoint.as_str(),
            "https://",
        ) {
            return invalid("vectorize.api_endpoint must be a valid HTTP(S) URL");
        }
        if self.request_timeout_secs == 0 {
            return invalid("vectorize.request_timeout_secs must be > 0");
        }
        if self.max_retries == 0 {
            return invalid("vectorize.max_retries must be > 0");
        }
        if self.retry_delay_secs == 0 {
            return invalid("vectorize.retry_delay_secs must be > 0");
        }
        Ok(())
    }
}

impl CoordinatorConfig {
    /// Validates coordinator configuration
    pub fn validate(&self) -> (r: Result<(), ConfigError>)
        ensures
            reports(r, coordinator_problem(*self)),
    {
        if self.max_retries == 0 {
            return invalid("coordinator.max_retries must be > 0");
        }
        if self.retry_backoff_secs == 0 {
            return invalid("coordinator.retry_backoff_secs must be > 0");
        }
        if self.timeout_secs == 0 {
            return invalid("coordinator.timeout_secs must be > 0");
        }
        if self.check_interval_secs == 0 {
            return invalid("coordinator.check_interval_secs must be > 0");
        }
        Ok(())
    }
}

/// Default HTTP server port.
pub fn default_port() -> (p: u16)
    ensures
        p == 3000,
{
    3000
}

/// Default download directory: `downloads` under the data directory.
pub fn default_download_dir() -> (d: PathBuf)
    ensures
        is_subdirectory_path(d, "downloads"@),
{
    data_subdirectory("downloads")
}

/// Default download timeout in seconds.
pub fn default_download_timeout() -> (v: u64)
    ensures
        v == 30,
{
    30
}

/// Default number of concurrent downloads.
pub fn default_max_concurrent_downloads() -> (v: usize)
    ensures
        v == 4,
{
    4
}

/// Default number of download retries.
pub fn default_max_retries() -> (v: u32)
    ensures
        v == 3,
{
    3
}

/// Default download retry delay in seconds.
pub fn default_retry_delay() -> (v: u64)
    ensures
        v == 5,
{
    5
}

/// Default crates.io API base URL.
pub fn default_crates_io_url() -> (s: String)
    ensures
        s@ == "https://crates.io/api/v1"@,
{
    String::from_str("https://crates.io/api/v1")
}

/// Default extraction directory: `extracted` under the data directory.
pub fn default_extract_dir() -> (d: PathBuf)
    ensures
        is_subdirectory_path(d, "extracted"@),
{
    data_subdirectory("extracted")
}

/// Default maximum file size: 10 MiB.
pub fn default_max_file_size() -> (v: u64)
    ensures
        v == 10_485_760,
{
    10_485_760
}

/// Default file patterns to include.
pub fn default_include_patterns() -> (v: Vec<String>)
    ensures
        v@.len() == 3,
        v@[0]@ == "*.rs"@,
        v@[1]@ == "*.md"@,
        v@[2]@ == "*.toml"@,
{
    let mut v = Vec::new();
    v.push(String::from_str("*.rs"));
    v.push(String::from_str("*.md"));
    v.push(String::from_str("*.toml"));
    v
}

/// Default file patterns to exclude.
pub fn default_exclude_patterns() -> (v: Vec<String>)
    ensures
        v@.len() == 2,
        v@[0]@ == "*/target/*"@,
        v@[1]@ == "*/tests/*"@,
{
    let mut v = Vec::new();
    v.push(String::from_str("*/target/*"));
    v.push(String::from_str("*/tests/*"));
    v
}

/// Default read timeout in seconds.
pub fn default_read_timeout() -> (v: u64)
    ensures
        v == 10,
{
    10
}

/// Default documentation compilation timeout in seconds.
pub fn default_compilation_timeout() -> (v: u64)
    ensures
        v == 300,
{
    300
}

/// Default number of concurrent compilations.
pub fn default_max_concurrent_compilations() -> (v: usize)
    ensures
        v == 2,
{
    2
}

/// Default documentation directory: `docs` under the data directory.
pub fn default_docs_dir() -> (d: PathBuf)
    ensures
        is_subdirectory_path(d, "docs"@),
{
    data_subdirectory("docs")
}

/// Default chunk size in tokens.
pub fn default_chunk_size() -> (v: usize)
    ensures
        v == 500,
{
    500
}

/// Default chunk overlap in tokens.
pub fn default_chunk_overlap() -> (v: usize)
    ensures
        v == 100,
{
    100
}

/// Source code extraction is enabled by default.
pub fn default_extract_source_code() -> (v: bool)
    ensures
        v,
{
    true
}

/// Default embedding model name.
pub fn default_model_name() -> (s: String)
    ensures
        s@ == "text-embedding-3-small"@,
{
    String::from_str("text-embedding-3-small")
}

/// Default embedding model version.
pub fn default_model_version() -> (s: String)
    ensures
        s@ == "1.0"@,
{
    String::from_str("1.0")
}

/// Default vectorization batch size.
pub fn default_batch_size() -> (v: usize)
    ensures
        v == 32,
{
    32
}

/// Default vector dimension.
pub fn default_vector_dimension() -> (v: usize)
    ensures
        v == 1536,
{
    1536
}

/// Default number of concurrent vectorization operations.
pub fn default_max_concurrent_vectorize() -> (v: usize)
    ensures
        v == 2,
{
    2
}

/// Default vectorization timeout in seconds.
pub fn default_vectorize_timeout() -> (v: u64)
    ensures
        v == 60,
{
    60
}

/// Default embeddings API endpoint.
pub fn default_api_endpoint() -> (s: String)
    ensures
        s@ == "https://api.openai.com/v1/embeddings"@,
{
    String::from_str("https://api.openai.com/v1/embeddings")
}

/// Default embedding request timeout in seconds.
pub fn default_request_timeout_secs() -> (v: u64)
    ensures
        v == 30,
{
    30
}

/// Default number of embedding request retries.
pub fn default_embedding_max_retries() -> (v: u32)
    ensures
        v == 3,
{
    3
}

/// Default initial embedding retry delay in seconds.
pub fn default_embedding_retry_delay_secs() -> (v: u64)
    ensures
        v == 2,
{
    2
}

/// Default coordinator retry count.
pub fn default_max_retries_coordinator() -> (v: u32)
    ensures
        v == 3,
{
    3
}

/// Default coordinator retry backoff in seconds.
pub fn default_retry_backoff() -> (v: u64)
    ensures
        v == 2,
{
    2
}

/// Default processing timeout in seconds (5 minutes).
pub fn default_processing_timeout() -> (v: u64)
    ensures
        v == 300,
{
    300
}

/// Default timeout check interval in seconds.
pub fn default_check_interval() -> (v: u64)
    ensures
        v == 30,
{
    30
}

impl Default for TokenEncoding {
    fn default() -> (e: Self)
        ensures
            e == TokenEncoding::Cl100k,
    {
        TokenEncoding::Cl100k
    }
}

impl Default for DownloadConfig {
    fn default() -> (c: Self)
        ensures
            c.timeout_secs == 30,
            c.max_concurrent == 4,
            c.max_retries == 3,
            c.retry_delay_secs == 5,
            c.crates_io_url@ == "https://crates.io/api/v1"@,
    {
        Self {
            download_dir: default_download_dir(),
            timeout_secs: default_download_timeout(),
            max_concurrent: default_max_concurrent_downloads(),
            max_retries: default_max_retries(),
            retry_delay_secs: default_retry_delay(),
            crates_io_url: default_crates_io_url(),
        }
    }
}

impl Default for ReadConfig {
    fn default() -> (c: Self)
        ensures
            c.max_file_size_bytes == 10_485_760,
            c.timeout_secs == 10,
            c.include_patterns@.len() == 3,
            c.include_patterns@[0]@ == "*.rs"@,
            c.include_patterns@[1]@ == "*.md"@,
            c.include_patterns@[2]@ == "*.toml"@,
            c.exclude_patterns@.len() == 2,
            c.exclude_patterns@[0]@ == "*/target/*"@,
            c.exclude_patterns@[1]@ == "*/tests/*"@,
    {
        Self {
            extract_dir: default_extract_dir(),
            max_file_size_bytes: default_max_file_size(),
            include_patterns: default_include_patterns(),
            exclude_patterns: default_exclude_patterns(),
            timeout_secs: default_read_timeout(),
        }
    }
}

impl Default for ProcessConfig {
    fn default() -> (c: Self)
        ensures
            c.compilation_timeout_secs == 300,
            c.max_concurrent_compilations == 2,
            c.chunk_size == 500,
            c.chunk_overlap == 100,
            c.token_encoding == TokenEncoding::Cl100k,
            c.extract_source_code,
    {
        Self {
            compilation_timeout_secs: default_compilation_timeout(),
            max_concurrent_compilations: default_max_concurrent_compilations(),
            docs_dir: default_docs_dir(),
            chunk_size: default_chunk_size(),
            chunk_overlap: default_chunk_overlap(),
            token_encoding: TokenEncoding::Cl100k,
            extract_source_code: default_extract_source_code(),
        }
    }
}

impl Default for VectorizeConfig {
    fn default() -> (c: Self)
        ensures
            c.model_name@ == "text-embedding-3-small"@,
            c.model_version@ == "1.0"@,
            c.batch_size == 32,
            c.vector_dimension == 1536,
            c.max_concurrent == 2,
            c.timeout_secs == 60,
            c.api_endpoint@ == "https://api.openai.com/v1/embeddings"@,
            c.api_key is None,
            c.request_timeout_secs == 30,
            c.max_retries == 3,
            c.retry_delay_secs == 2,
    {
        Self {
            model_name: default_model_name(),
            model_version: default_model_version(),
            batch_size: default_batch_size(),
            vector_dimension: default_vector_dimension(),
            max_concurrent: default_max_concurrent_vectorize(),
            timeout_secs: default_vectorize_timeout(),
            api_endpoint: default_api_endpoint(),
            api_key: None,
            request_timeout_secs: default_request_timeout_secs(),
            max_retries: default_embedding_max_retries(),
            retry_delay_secs: default_embedding_retry_delay_secs(),
        }
    }
}

impl Default for CoordinatorConfig {
    fn default() -> (c: Self)
        ensures
            c.max_retries == 3,
            c.retry_backoff_secs == 2,
            c.timeout_secs == 300,
            c.check_interval_secs == 30,
    {
        Self {
            max_retries: default_max_retries_coordinator(),
            retry_backoff_secs: default_retry_backoff(),
            timeout_secs: default_processing_timeout(),
            check_interval_secs: default_check_interval(),
        }
    }
}

/// The defaults of every pipeline stage.
pub open spec fn is_default_pipeline(p: PipelineConfig) -> bool {
    &&& p.download.timeout_secs == 30
    &&& p.download.max_concurrent == 4
    &&& p.download.max_retries == 3
    &&& p.download.retry_delay_secs == 5
    &&& p.download.crates_io_url@ == "https://crates.io/api/v1"@
    &&& p.read.max_file_size_bytes == 10_485_760
    &&& p.read.timeout_secs == 10
    &&& p.read.include_patterns@.len() == 3
    &&& p.read.exclude_patterns@.len() == 2
    &&& p.process.compilation_timeout_secs == 300
    &&& p.process.max_concurrent_compilations == 2
    &&& p.process.chunk_size == 500
    &&& p.process.chunk_overlap == 100
    &&& p.process.token_encoding == TokenEncoding::Cl100k
    &&& p.process.extract_source_code
    &&& p.vectorize.model_name@ == "text-embedding-3-small"@
    &&& p.vectorize.model_version@ == "1.0"@
    &&& p.vectorize.batch_size == 32
    &&& p.vectorize.vector_dimension == 1536
    &&& p.vectorize.max_concurrent == 2
    &&& p.vectorize.timeout_secs == 60
    &&& p.vectorize.api_endpoint@ == "https://api.openai.com/v1/embeddings"@
    &&& p.vectorize.api_key is None
    &&& p.vectorize.request_timeout_secs == 30
    &&& p.vectorize.max_retries == 3
    &&& p.vectorize.retry_delay_secs == 2
    &&& p.coordinator.max_retries == 3
    &&& p.coordinator.retry_backoff_secs == 2
    &&& p.coordinator.timeout_secs == 300
    &&& p.coordinator.check_interval_secs == 30
}

impl Default for PipelineConfig {
    fn default() -> (p: Self)
        ensures
            is_default_pipeline(p),
    {
        Self {
            download: DownloadConfig::default(),
            read: ReadConfig::default(),
            process: ProcessConfig::default(),
            vectorize: VectorizeConfig::default(),
            coordinator: CoordinatorConfig::default(),
        }
    }
}

impl Default for Config {
    fn default() -> (c: Self)
        ensures
            c.port == 3000,
            is_default_pipeline(c.pipeline),
    {
        Self { port: default_port(), pipeline: PipelineConfig::default() }
    }
}

/// The default pipeline configuration is valid.
pub proof fn law_default_pipeline_is_valid(p: PipelineConfig)
    requires
        is_default_pipeline(p),
    ensures
        pipeline_problem(p) is None,
{
    reveal_strlit("https://api.openai.com/v1/embeddings");
    reveal_strlit("https://");
    assert("https://"@.is_prefix_of(p.vectorize.api_endpoint@));
}


/// The user configuration directory of an application
/// (`xdg::BaseDirectories::with_prefix(prefix).get_config_home()`); `None`
/// when no home directory can be found. It depends on the environment, so
/// nothing is stated of it.
#[verifier::external_body]
fn xdg_config_home(prefix: &str) -> Option<PathBuf> {
    xdg::BaseDirectories::with_prefix(prefix).get_config_home()
}

/// The path of the configuration file, `config.toml` in the application's
/// configuration directory; fails when that directory cannot be determined.
pub fn get_config_path() -> (r: Result<PathBuf, ConfigError>)
    ensures
        r is Err ==> r->Err_0 is HomeDirectoryNotFound,
        r matches Ok(p) ==> exists|home: PathBuf| #[trigger] joined_path(home, "config.toml"@) == p,
{
    match xdg_config_home("crately") {
        Some(home) => Ok(path_join(&home, "config.toml")),
        None => Err(ConfigError::HomeDirectoryNotFound),
    }
}

/// The message broadcast when a reloaded configuration fails validation.
pub open spec fn validation_failure_message(problem: Seq<char>) -> Seq<char> {
    "Configuration validation failed: Invalid configuration value: "@ + problem
}

/// What a reload request came to.
#[derive(Debug)]
pub enum ReloadOutcome {
    /// The new configuration was taken; the current configuration, its
    /// path and its pipeline section are to be announced.
    Applied,
    /// The configuration was kept; the message says why.
    Rejected(String),
}

/// The configuration manager's state: the current configuration and the
/// file it was read from.
pub struct ConfigManager {
    config: Config,
    config_path: PathBuf,
}

impl ConfigManager {
    /// The current configuration.
    pub closed spec fn spec_config(&self) -> Config {
        self.config
    }

    /// The file the configuration was read from.
    pub closed spec fn spec_config_path(&self) -> PathBuf {
        self.config_path
    }

    /// A manager holding a configuration loaded from `config_path`.
    pub fn new(config: Config, config_path: PathBuf) -> (m: Self)
        ensures
            m.spec_config() == config,
            m.spec_config_path() == config_path,
    {
        ConfigManager { config, config_path }
    }

    /// The current configuration.
    pub fn config(&self) -> (c: &Config)
        ensures
            *c == self.spec_config(),
    {
        &self.config
    }

    /// The file the configuration was read from.
    pub fn config_path(&self) -> (p: &PathBuf)
        ensures
            *p == self.spec_config_path(),
    {
        &self.config_path
    }

    /// Takes the result of reading the configuration again: a configuration
    /// that was read and whose pipeline section is valid replaces the current
    /// one; otherwise the current one is kept and the reason is returned.
    pub fn reload(&mut self, loaded: Result<(Config, PathBuf), ConfigError>) -> (r: ReloadOutcome)
        ensures
            match loaded {
                Err(e) => {
                    &&& final(self).spec_config() == old(self).spec_config()
                    &&& final(self).spec_config_path() == old(self).spec_config_path()
                    &&& r is Rejected
                    &&& config_error_lead(e).is_prefix_of(r->Rejected_0@)
                    &&& e is HomeDirectoryNotFound ==> r->Rejected_0@ == config_error_lead(e)
                },
                Ok((c, p)) => match pipeline_problem(c.pipeline) {
                    Some(problem) => {
                        &&& final(self).spec_config() == old(self).spec_config()
                        &&& final(self).spec_config_path() == old(self).spec_config_path()
                        &&& r is Rejected
                        &&& r->Rejected_0@ == validation_failure_message(problem)
                    },
                    None => {
                        &&& final(self).spec_config() == c
                        &&& final(self).spec_config_path() == p
                        &&& r is Applied
                    },
                },
            },
    {
        match loaded {
            Err(e) => ReloadOutcome::Rejected(e.message()),
            Ok((c, p)) => match c.pipeline.validate() {
                Err(e) => {
                    let mut m = String::from_str("Configuration validation failed: ");
                    m.append(e.message().as_str());
                    proof {
                        reveal_strlit("Configuration validation failed: ");
                        reveal_strlit("Invalid configuration value: ");
                        reveal_strlit("Configuration validation failed: Invalid configuration value: ");
                    }
                    assert(m@ =~= validation_failure_message(pipeline_problem(c.pipeline)->Some_0));
                    ReloadOutcome::Rejected(m)
                },
                Ok(()) => {
                    self.config = c;
                    self.config_path = p;
                    ReloadOutcome::Applied
                },
            },
        }
    }
}

} // verus!
