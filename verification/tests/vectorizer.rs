use crately::actors::config::VectorizeConfig;
use crately::actors::vectorizer_actor::{
    authorization_header, batch_needs_request, check_embeddings, check_status, choose_api_key,
    create_batches, failures_for_batch, EmbeddingError, EmbeddingRequest, VectorizerActor,
};
use crately::crate_specifier::CrateSpecifier;
use crately::messages::DocChunkData;

fn chunks(n: usize) -> Vec<DocChunkData> {
    (0..n)
        .map(|i| DocChunkData {
            chunk_id: format!("chunk_{}", i),
            chunk_index: i,
            content: format!("Content {}", i),
            content_type: "text".to_string(),
            source_file: "test.md".to_string(),
            token_count: 100,
            char_count: 500,
        })
        .collect()
}

#[test]
fn test_create_batches_single_batch() {
    let chunks = chunks(50);
    let batches = create_batches(&chunks, 100);
    assert_eq!(batches.len(), 1);
    assert_eq!(batches[0].len(), 50);
}

#[test]
fn test_create_batches_multiple_batches() {
    let chunks = chunks(250);
    let batches = create_batches(&chunks, 100);
    assert_eq!(batches.len(), 3);
    assert_eq!(batches[0].len(), 100);
    assert_eq!(batches[1].len(), 100);
    assert_eq!(batches[2].len(), 50);
}

#[test]
fn test_create_batches_respects_max_size() {
    let chunks = chunks(3000);
    let batches = create_batches(&chunks, 3000);
    assert_eq!(batches[0].len(), 2048);
}

#[test]
fn test_create_batches_empty() {
    let chunks: Vec<DocChunkData> = vec![];
    let batches = create_batches(&chunks, 100);
    assert_eq!(batches.len(), 0);
}

#[test]
fn batches_keep_chunks_in_order() {
    let chunks = chunks(7);
    let batches = create_batches(&chunks, 3);
    let ids: Vec<String> = batches
        .iter()
        .flat_map(|b| b.iter().map(|c| c.chunk_id.clone()))
        .collect();
    let expected: Vec<String> = (0..7).map(|i| format!("chunk_{}", i)).collect();
    assert_eq!(ids, expected);
    assert_eq!(batches.len(), 3);
    assert_eq!(batches[2].len(), 1);
}

#[test]
fn test_embedding_error_is_retryable_network() {
    let error = EmbeddingError::RequestFailed("Connection timeout".to_string());
    assert!(error.is_retryable());
}

#[test]
fn test_embedding_error_is_retryable_rate_limit() {
    let error = EmbeddingError::ApiError {
        status: 429,
        message: "Rate limit exceeded".to_string(),
    };
    assert!(error.is_retryable());
}

#[test]
fn test_embedding_error_is_retryable_server_error() {
    let error = EmbeddingError::ApiError {
        status: 500,
        message: "Internal server error".to_string(),
    };
    assert!(error.is_retryable());
}

#[test]
fn test_embedding_error_not_retryable_auth() {
    let error = EmbeddingError::ApiError {
        status: 401,
        message: "Unauthorized".to_string(),
    };
    assert!(!error.is_retryable());
}

#[test]
fn test_embedding_error_not_retryable_bad_request() {
    let error = EmbeddingError::ApiError {
        status: 400,
        message: "Bad request".to_string(),
    };
    assert!(!error.is_retryable());
}

#[test]
fn test_embedding_error_not_retryable_missing_key() {
    let error = EmbeddingError::MissingApiKey;
    assert!(!error.is_retryable());
}

#[test]
fn test_embedding_error_not_retryable_dimension_mismatch() {
    let error = EmbeddingError::DimensionMismatch {
        expected: 1536,
        actual: 384,
    };
    assert!(!error.is_retryable());
}

#[test]
fn test_embedding_error_not_retryable_batch_size() {
    let error = EmbeddingError::BatchSizeExceeded {
        actual: 3000,
        max: 2048,
    };
    assert!(!error.is_retryable());
}

#[test]
fn status_599_is_retryable_but_600_is_not() {
    let e599 = EmbeddingError::ApiError { status: 599, message: String::new() };
    let e600 = EmbeddingError::ApiError { status: 600, message: String::new() };
    assert!(e599.is_retryable());
    assert!(!e600.is_retryable());
}

#[test]
fn test_vectorizer_actor_new() {
    let config = VectorizeConfig::default();
    let actor = VectorizerActor::new(config.clone());
    assert_eq!(actor.config().model_name, config.model_name);
    assert_eq!(actor.config().batch_size, config.batch_size);
}

#[test]
fn error_messages_are_exact() {
    assert_eq!(
        EmbeddingError::ApiError { status: 503, message: "busy".to_string() }.message(),
        "API error (status 503): busy"
    );
    assert_eq!(
        EmbeddingError::DimensionMismatch { expected: 1536, actual: 384 }.message(),
        "Vector dimension mismatch: expected 1536, got 384"
    );
    assert_eq!(
        EmbeddingError::BatchSizeExceeded { actual: 3000, max: 2048 }.message(),
        "Batch size 3000 exceeds maximum 2048"
    );
    assert_eq!(
        EmbeddingError::MissingApiKey.message(),
        "API key not found. Set OPENAI_API_KEY or EMBEDDING_API_KEY environment variable"
    );
    assert_eq!(
        EmbeddingError::RequestFailed("x".to_string()).message(),
        "HTTP request failed: x"
    );
    assert_eq!(
        EmbeddingError::ParseError("y".to_string()).message(),
        "Failed to parse API response: y"
    );
    assert_eq!(
        EmbeddingError::InvalidResponse("z".to_string()).message(),
        "Invalid response format: z"
    );
}

#[test]
fn batch_size_limits() {
    assert!(matches!(batch_needs_request(0), Ok(false)));
    assert!(matches!(batch_needs_request(2048), Ok(true)));
    assert!(matches!(
        batch_needs_request(2049),
        Err(EmbeddingError::BatchSizeExceeded { actual: 2049, max: 2048 })
    ));
}

#[test]
fn api_key_prefers_openai_variable() {
    assert_eq!(
        choose_api_key(Some("a".to_string()), Some("b".to_string())).unwrap(),
        "a"
    );
    assert_eq!(choose_api_key(None, Some("b".to_string())).unwrap(), "b");
    assert!(matches!(
        choose_api_key(None, None),
        Err(EmbeddingError::MissingApiKey)
    ));
    assert_eq!(authorization_header("k1"), "Bearer k1");
}

#[test]
fn request_carries_chunk_texts_in_order() {
    let config = VectorizeConfig::default();
    let request = EmbeddingRequest::for_batch(&config, &chunks(3));
    assert_eq!(request.input, vec!["Content 0", "Content 1", "Content 2"]);
    assert_eq!(request.model, "text-embedding-3-small");
    assert_eq!(request.encoding_format, "float");
}

#[test]
fn status_check() {
    assert!(check_status(200, String::new()).is_ok());
    match check_status(429, "slow down".to_string()) {
        Err(EmbeddingError::ApiError { status, message }) => {
            assert_eq!(status, 429);
            assert_eq!(message, "slow down");
        }
        _ => panic!("expected an API error"),
    }
}

#[test]
fn answer_checks() {
    match check_embeddings(2, 4, &vec![]) {
        Err(EmbeddingError::InvalidResponse(m)) => assert_eq!(m, "No embedding data in response"),
        _ => panic!("expected an invalid response"),
    }
    match check_embeddings(2, 4, &vec![4]) {
        Err(EmbeddingError::InvalidResponse(m)) => assert_eq!(m, "Expected 2 embeddings, got 1"),
        _ => panic!("expected an invalid response"),
    }
    match check_embeddings(2, 4, &vec![4, 3]) {
        Err(EmbeddingError::DimensionMismatch { expected, actual }) => {
            assert_eq!(expected, 4);
            assert_eq!(actual, 3);
        }
        _ => panic!("expected a dimension mismatch"),
    }
    assert!(check_embeddings(2, 4, &vec![4, 4]).is_ok());
}

#[test]
fn failed_batch_reports_each_chunk() {
    let specifier = CrateSpecifier::parse("serde@1.0.0").unwrap();
    let error = EmbeddingError::ApiError { status: 500, message: "down".to_string() };
    let failures = failures_for_batch(&specifier, &chunks(2), &error);
    assert_eq!(failures.len(), 2);
    assert_eq!(failures[1].chunk_id, "chunk_1");
    assert_eq!(failures[0].error, "API error (status 500): down");
    assert!(failures[0].retryable);
}
