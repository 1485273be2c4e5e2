use crately::actors::config::{
    get_config_path, Config, ConfigError, ConfigManager, DownloadConfig, PipelineConfig,
    ProcessConfig, ReadConfig, ReloadOutcome, VectorizeConfig,
};

fn invalid_message(result: Result<(), ConfigError>) -> String {
    result.unwrap_err().message()
}

#[test]
fn config_test_default_config_values() {
    let config = Config::default();
    assert_eq!(config.port, 3000);
    assert_eq!(config.pipeline.download.timeout_secs, 30);
}

#[test]
fn config_test_get_config_path_returns_valid_path() {
    let result = get_config_path();
    assert!(result.is_ok());

    let config_path = result.unwrap();
    assert!(config_path.to_string_lossy().contains("crately"));
    assert!(config_path.to_string_lossy().contains("config.toml"));
}

#[test]
fn config_test_config_error_display_messages() {
    let err = ConfigError::HomeDirectoryNotFound;
    assert!(err.message().contains("HOME directory not found"));

    let io_err = std::io::Error::new(std::io::ErrorKind::PermissionDenied, "test");
    let err = ConfigError::DirectoryCreation(io_err);
    assert!(err.message().contains("Failed to create config directory"));
}

#[test]
fn config_test_config_equality() {
    let config1 = Config {
        port: 3000,
        pipeline: PipelineConfig::default(),
    };
    let config2 = Config {
        port: 3000,
        pipeline: PipelineConfig::default(),
    };
    let config3 = Config {
        port: 8080,
        pipeline: PipelineConfig::default(),
    };

    assert_eq!(config1, config2);
    assert_ne!(config1, config3);
}

#[test]
fn config_test_config_clone() {
    let config1 = Config {
        port: 5555,
        pipeline: PipelineConfig::default(),
    };
    let config2 = config1.clone();
    assert_eq!(config1, config2);
}

#[test]
fn test_pipeline_config_default_values() {
    let pipeline = PipelineConfig::default();

    assert_eq!(pipeline.download.timeout_secs, 30);
    assert_eq!(pipeline.download.max_concurrent, 4);
    assert_eq!(pipeline.download.max_retries, 3);
    assert_eq!(pipeline.download.retry_delay_secs, 5);
    assert_eq!(pipeline.download.crates_io_url, "https://crates.io/api/v1");

    assert_eq!(pipeline.read.max_file_size_bytes, 10_485_760);
    assert_eq!(pipeline.read.timeout_secs, 10);
    assert_eq!(pipeline.read.include_patterns.len(), 3);
    assert_eq!(pipeline.read.exclude_patterns.len(), 2);

    assert_eq!(pipeline.process.compilation_timeout_secs, 300);
    assert_eq!(pipeline.process.max_concurrent_compilations, 2);
    assert_eq!(pipeline.process.chunk_size, 500);
    assert_eq!(pipeline.process.chunk_overlap, 100);
    assert!(pipeline.process.extract_source_code);

    assert_eq!(pipeline.vectorize.model_name, "text-embedding-3-small");
    assert_eq!(pipeline.vectorize.model_version, "1.0");
    assert_eq!(pipeline.vectorize.batch_size, 32);
    assert_eq!(pipeline.vectorize.vector_dimension, 1536);
    assert_eq!(pipeline.vectorize.max_concurrent, 2);
    assert_eq!(pipeline.vectorize.timeout_secs, 60);
    assert_eq!(
        pipeline.vectorize.api_endpoint,
        "https://api.openai.com/v1/embeddings"
    );
    assert!(pipeline.vectorize.api_key.is_none());
    assert_eq!(pipeline.vectorize.request_timeout_secs, 30);
    assert_eq!(pipeline.vectorize.max_retries, 3);
    assert_eq!(pipeline.vectorize.retry_delay_secs, 2);
}

#[test]
fn test_pipeline_config_validation_success() {
    let config = PipelineConfig::default();
    assert!(config.validate().is_ok());
}

#[test]
fn test_download_config_validation_zero_timeout() {
    let config = DownloadConfig {
        timeout_secs: 0,
        ..Default::default()
    };
    let result = config.validate();
    assert!(result.is_err());
    assert!(invalid_message(result).contains("download.timeout_secs must be > 0"));
}

#[test]
fn test_download_config_validation_zero_max_concurrent() {
    let config = DownloadConfig {
        max_concurrent: 0,
        ..Default::default()
    };
    let result = config.validate();
    assert!(result.is_err());
    assert!(invalid_message(result).contains("download.max_concurrent must be > 0"));
}

#[test]
fn test_download_config_validation_zero_max_retries() {
    let config = DownloadConfig {
        max_retries: 0,
        ..Default::default()
    };
    let result = config.validate();
    assert!(result.is_err());
    assert!(invalid_message(result).contains("download.max_retries must be > 0"));
}

#[test]
fn test_read_config_validation_zero_max_file_size() {
    let config = ReadConfig {
        max_file_size_bytes: 0,
        ..Default::default()
    };
    let result = config.validate();
    assert!(result.is_err());
    assert!(invalid_message(result).contains("read.max_file_size_bytes must be > 0"));
}

#[test]
fn test_read_config_validation_zero_timeout() {
    let config = ReadConfig {
        timeout_secs: 0,
        ..Default::default()
    };
    let result = config.validate();
    assert!(result.is_err());
    assert!(invalid_message(result).contains("read.timeout_secs must be > 0"));
}

#[test]
fn test_process_config_validation_zero_compilation_timeout() {
    let config = ProcessConfig {
        compilation_timeout_secs: 0,
        ..Default::default()
    };
    let result = config.validate();
    assert!(result.is_err());
    assert!(invalid_message(result).contains("process.compilation_timeout_secs must be > 0"));
}

#[test]
fn test_process_config_validation_zero_max_concurrent_compilations() {
    let config = ProcessConfig {
        max_concurrent_compilations: 0,
        ..Default::default()
    };
    let result = config.validate();
    assert!(result.is_err());
    assert!(invalid_message(result).contains("process.max_concurrent_compilations must be > 0"));
}

#[test]
fn test_process_config_validation_chunk_size_overlap() {
    let config = ProcessConfig {
        chunk_size: 100,
        chunk_overlap: 100,
        ..Default::default()
    };
    let result = config.validate();
    assert!(result.is_err());
    assert!(invalid_message(result).contains("process.chunk_size must be > chunk_overlap"));
}

#[test]
fn test_vectorize_config_validation_zero_batch_size() {
    let config = VectorizeConfig {
        batch_size: 0,
        ..Default::default()
    };
    let result = config.validate();
    assert!(result.is_err());
    assert!(invalid_message(result).contains("vectorize.batch_size must be > 0"));
}

#[test]
fn test_vectorize_config_validation_zero_vector_dimension() {
    let config = VectorizeConfig {
        vector_dimension: 0,
        ..Default::default()
    };
    let result = config.validate();
    assert!(result.is_err());
    assert!(invalid_message(result).contains("vectorize.vector_dimension must be > 0"));
}

#[test]
fn test_vectorize_config_validation_zero_max_concurrent() {
    let config = VectorizeConfig {
        max_concurrent: 0,
        ..Default::default()
    };
    let result = config.validate();
    assert!(result.is_err());
    assert!(invalid_message(result).contains("vectorize.max_concurrent must be > 0"));
}

#[test]
fn test_vectorize_config_validation_empty_api_endpoint() {
    let config = VectorizeConfig {
        api_endpoint: String::new(),
        ..Default::default()
    };
    let result = config.validate();
    assert!(result.is_err());
    assert!(invalid_message(result).contains("vectorize.api_endpoint must not be empty"));
}

#[test]
fn test_vectorize_config_validation_invalid_api_endpoint() {
    let config = VectorizeConfig {
        api_endpoint: "not-a-valid-url".to_string(),
        ..Default::default()
    };
    let result = config.validate();
    assert!(result.is_err());
    assert!(invalid_message(result).contains("vectorize.api_endpoint must be a valid HTTP(S) URL"));
}

#[test]
fn test_vectorize_config_validation_zero_request_timeout() {
    let config = VectorizeConfig {
        request_timeout_secs: 0,
        ..Default::default()
    };
    let result = config.validate();
    assert!(result.is_err());
    assert!(invalid_message(result).contains("vectorize.request_timeout_secs must be > 0"));
}

#[test]
fn test_vectorize_config_validation_zero_max_retries() {
    let config = VectorizeConfig {
        max_retries: 0,
        ..Default::default()
    };
    let result = config.validate();
    assert!(result.is_err());
    assert!(invalid_message(result).contains("vectorize.max_retries must be > 0"));
}

#[test]
fn test_vectorize_config_validation_zero_retry_delay() {
    let config = VectorizeConfig {
        retry_delay_secs: 0,
        ..Default::default()
    };
    let result = config.validate();
    assert!(result.is_err());
    assert!(invalid_message(result).contains("vectorize.retry_delay_secs must be > 0"));
}

#[test]
fn test_config_error_invalid_value_display() {
    let err = ConfigError::InvalidValue("test validation error".to_string());
    assert!(err.message().contains("Invalid configuration value"));
    assert!(err.message().contains("test validation error"));
}

#[test]
fn invalid_value_message_is_exact() {
    let err = ConfigError::InvalidValue("x must be > 0".to_string());
    assert_eq!(err.message(), "Invalid configuration value: x must be > 0");
}

#[test]
fn pipeline_reports_first_stage_problem() {
    let mut pipeline = PipelineConfig::default();
    pipeline.read.timeout_secs = 0;
    pipeline.vectorize.batch_size = 0;
    let msg = invalid_message(pipeline.validate());
    assert!(msg.contains("read.timeout_secs must be > 0"));
}

#[test]
fn reload_takes_valid_configuration() {
    let path = get_config_path().unwrap();
    let mut manager = ConfigManager::new(Config::default(), path.clone());
    let new_config = Config {
        port: 8080,
        pipeline: PipelineConfig::default(),
    };
    let outcome = manager.reload(Ok((new_config.clone(), path)));
    assert!(matches!(outcome, ReloadOutcome::Applied));
    assert_eq!(manager.config().port, 8080);
}

#[test]
fn reload_keeps_configuration_when_invalid() {
    let path = get_config_path().unwrap();
    let mut manager = ConfigManager::new(Config::default(), path.clone());
    let mut bad = Config {
        port: 9999,
        pipeline: PipelineConfig::default(),
    };
    bad.pipeline.download.max_retries = 0;
    match manager.reload(Ok((bad, path))) {
        ReloadOutcome::Rejected(m) => assert_eq!(
            m,
            "Configuration validation failed: Invalid configuration value: download.max_retries must be > 0"
        ),
        ReloadOutcome::Applied => panic!("an invalid configuration was applied"),
    }
    assert_eq!(manager.config().port, 3000);
}

#[test]
fn reload_keeps_configuration_when_unreadable() {
    let path = get_config_path().unwrap();
    let mut manager = ConfigManager::new(Config::default(), path);
    match manager.reload(Err(ConfigError::HomeDirectoryNotFound)) {
        ReloadOutcome::Rejected(m) => assert_eq!(
            m,
            "HOME directory not found - cannot determine XDG config directory"
        ),
        ReloadOutcome::Applied => panic!("a failed read was applied"),
    }
    assert_eq!(manager.config().port, 3000);
}
