//! Embedding generation for documentation chunks.
//!
//! Chunks are embedded in batches of at most [`MAX_BATCH_SIZE`] by an
//! OpenAI-compatible embedding service. This module holds what decides
//! around the service call: how chunks are batched, what is sent, how the
//! service's answer is checked, which errors may be retried, and what is
//! reported for the chunks of a batch that failed. The HTTP exchange itself
//! is done by the caller.

use vstd::prelude::*;
use vstd::string::StringExecFns;

use crate::actors::config::VectorizeConfig;
use crate::crate_specifier::{CrateSpecifier, CrateSpecifierView};
use crate::messages::{chunks_view, DocChunkData, DocChunkView};
use crate::text::{decimal, push_decimal};

verus! {

/// The largest number of texts the embedding service accepts in one request.
pub const MAX_BATCH_SIZE: usize = 2048;

/// Errors that can occur during embedding generation
#[derive(Debug, Clone)]
pub enum EmbeddingError {
    /// API key not found in environment
    MissingApiKey,
    /// HTTP request failed (transient - network issues)
    RequestFailed(String),
    /// API returned an error response
    ApiError {
        /// HTTP status code
        status: u16,
        /// Error message from API
        message: String,
    },
    /// Response parsing failed
    ParseError(String),
    /// Invalid response format
    InvalidResponse(String),
    /// Dimension mismatch (permanent error)
    DimensionMismatch { expected: usize, actual: usize },
    /// Batch size exceeded
    BatchSizeExceeded { actual: usize, max: usize },
}

/// Network failures, rate limits (429) and server errors (5xx) may be
/// retried; every other error is permanent.
pub open spec fn embedding_error_retryable(e: EmbeddingError) -> bool {
    match e {
        EmbeddingError::RequestFailed(_) => true,
        EmbeddingError::ApiError { status, .. } => status == 429 || (500 <= status < 600),
        _ => false,
    }
}

/// The message of an embedding error.
pub open spec fn embedding_error_message(e: EmbeddingError) -> Seq<char> {
    match e {
        EmbeddingError::MissingApiKey => "API key not found. Set OPENAI_API_KEY or EMBEDDING_API_KEY environment variable"@,
        EmbeddingError::RequestFailed(m) => "HTTP request failed: "@ + m@,
        EmbeddingError::ApiError { status, message } => "API error (status "@ + decimal(
            status as nat,
        ) + "): "@ + message@,
        EmbeddingError::ParseError(m) => "Failed to parse API response: "@ + m@,
        EmbeddingError::InvalidResponse(m) => "Invalid response format: "@ + m@,
        EmbeddingError::DimensionMismatch { expected, actual } => "Vector dimension mismatch: expected "@
            + decimal(expected as nat) + ", got "@ + decimal(actual as nat),
        EmbeddingError::BatchSizeExceeded { actual, max } => "Batch size "@ + decimal(actual as nat)
            + " exceeds maximum "@ + decimal(max as nat),
    }
}

impl EmbeddingError {
    /// Classify error as retryable or permanent
    ///
    /// Retryable errors:
    /// - Network failures (timeouts, connection errors)
    /// - Rate limits (429)
    /// - Server errors (5xx)
    ///
    /// Permanent errors:
    /// - Invalid API key (401, 403)
    /// - Bad requests (4xx except 429)
    /// - Dimension mismatches
    /// - Batch size violations
    pub fn is_retryable(&self) -> (r: bool)
        ensures
            r == embedding_error_retryable(*self),
    {
        match self {
            EmbeddingError::RequestFailed(_) => true,
            EmbeddingError::ApiError { status, .. } => *status == 429 || (500 <= *status
                && *status < 600),
            EmbeddingError::MissingApiKey => false,
            EmbeddingError::ParseError(_) => false,
            EmbeddingError::InvalidResponse(_) => false,
            EmbeddingError::DimensionMismatch { .. } => false,
            EmbeddingError::BatchSizeExceeded { .. } => false,
        }
    }

    /// The message of this error.
    pub fn message(&self) -> (s: String)
        ensures
            s@ == embedding_error_message(*self),
    {
        match self {
            EmbeddingError::MissingApiKey => String::from_str(
                "API key not found. Set OPENAI_API_KEY or EMBEDDING_API_KEY environment variable",
            ),
            EmbeddingError::RequestFailed(m) => {
                let mut s = String::from_str("HTTP request failed: ");
                s.append(m.as_str());
                s
            },
            EmbeddingError::ApiError { status, message } => {
                let mut s = String::from_str("API error (status ");
                push_decimal(&mut s, *status as u64);
                s.append("): ");
                s.append(message.as_str());
                s
            },
            EmbeddingError::ParseError(m) => {
                let mut s = String::from_str("Failed to parse API response: ");
                s.append(m.as_str());
                s
            },
            EmbeddingError::InvalidResponse(m) => {
                let mut s = String::from_str("Invalid response format: ");
                s.append(m.as_str());
                s
            },
            EmbeddingError::DimensionMismatch { expected, actual } => {
                let mut s = String::from_str("Vector dimension mismatch: expected ");
                push_decimal(&mut s, *expected as u64);
                s.append(", got ");
                push_decimal(&mut s, *actual as u64);
                s
            },
            EmbeddingError::BatchSizeExceeded { actual, max } => {
                let mut s = String::from_str("Batch size ");
                push_decimal(&mut s, *actual as u64);
                s.append(" exceeds maximum ");
                push_decimal(&mut s, *max as u64);
                s
            },
        }
    }
}

/// The batch size actually used: the requested one, at most [`MAX_BATCH_SIZE`].
pub open spec fn effective_batch_size(batch_size: usize) -> nat {
    if batch_size <= 2048 {
        batch_size as nat
    } else {
        2048
    }
}

/// A sequence cut into consecutive batches of `n` items, the last one
/// possibly shorter.
pub open spec fn batches_of<T>(s: Seq<T>, n: nat) -> Seq<Seq<T>>
    decreases s.len(),
{
    if s.len() == 0 || n == 0 {
        Seq::empty()
    } else if s.len() <= n {
        seq![s]
    } else {
        seq![s.take(n as int)] + batches_of(s.skip(n as int), n)
    }
}

/// The contents of a sequence of batches of chunks.
pub open spec fn batches_view(v: Seq<Vec<DocChunkData>>) -> Seq<Seq<DocChunkView>> {
    Seq::new(v.len(), |i: int| chunks_view(v[i]@))
}

/// Copies `chunks[start..end]`.
fn copy_range(chunks: &[DocChunkData], start: usize, end: usize) -> (r: Vec<DocChunkData>)
    requires
        start <= end <= chunks@.len(),
    ensures
        chunks_view(r@) == chunks_view(chunks@).subrange(start as int, end as int),
{
    let mut r: Vec<DocChunkData> = Vec::new();
    let mut i = start;
    while i < end
        invariant
            start <= i <= end,
            end <= chunks@.len(),
            chunks_view(r@) == chunks_view(chunks@).subrange(start as int, i as int),
        decreases end - i,
    {
        let c = chunks[i].duplicate();
        let ghost before = r@;
        r.push(c);
        assert(chunks_view(r@) =~= chunks_view(before).push(chunks@[i as int]@));
        assert(chunks_view(chunks@).subrange(start as int, i + 1) =~= chunks_view(chunks@).subrange(
            start as int,
            i as int,
        ).push(chunks@[i as int]@));
        i = i + 1;
    }
    r
}

/// Creates batches of chunks for efficient API processing
///
/// Splits chunks into batches of the specified size, respecting the maximum
/// batch size limit (2048 for OpenAI API).
pub fn create_batches(chunks: &[DocChunkData], batch_size: usize) -> (r: Vec<Vec<DocChunkData>>)
    requires
        batch_size > 0,
    ensures
        batches_view(r@) == batches_of(chunks_view(chunks@), effective_batch_size(batch_size)),
{
    let n: usize = if batch_size <= MAX_BATCH_SIZE {
        batch_size
    } else {
        MAX_BATCH_SIZE
    };
    let ghost all = chunks_view(chunks@);
    let len = chunks.len();
    let mut r: Vec<Vec<DocChunkData>> = Vec::new();
    let mut i: usize = 0;
    assert(all.skip(0) =~= all);
    assert(batches_view(r@) =~= Seq::<Seq<DocChunkView>>::empty());
    while i < len
        invariant
            n == effective_batch_size(batch_size),
            n > 0,
            len == chunks@.len(),
            all == chunks_view(chunks@),
            i <= len,
            batches_view(r@) + batches_of(all.skip(i as int), n as nat) == batches_of(all, n as nat),
        decreases len - i,
    {
        let ghost rest = all.skip(i as int);
        let ghost before = r@;
        let end: usize = if len - i <= n {
            len
        } else {
            i + n
        };
        let batch = copy_range(chunks, i, end);
        r.push(batch);
        assert(batches_view(r@) =~= batches_view(before).push(chunks_view(batch@)));
        if len - i <= n {
            assert(chunks_view(batch@) =~= rest);
            assert(all.skip(end as int).len() == 0);
            assert(batches_of(all.skip(end as int), n as nat) =~= Seq::<Seq<DocChunkView>>::empty());
            assert(batches_of(rest, n as nat) =~= seq![rest]);
            assert(batches_view(r@) + batches_of(all.skip(end as int), n as nat) =~= batches_view(
                before,
            ) + batches_of(rest, n as nat));
        } else {
            assert(chunks_view(batch@) =~= rest.take(n as int));
            assert(rest.skip(n as int) =~= all.skip(end as int));
            assert(batches_of(rest, n as nat) =~= seq![rest.take(n as int)] + batches_of(
                rest.skip(n as int),
                n as nat,
            ));
            assert(batches_view(r@) + batches_of(all.skip(end as int), n as nat) =~= batches_view(
                before,
            ) + batches_of(rest, n as nat));
        }
        i = end;
    }
    assert(batches_of(all.skip(len as int), n as nat) =~= Seq::<Seq<DocChunkView>>::empty());
    assert(batches_view(r@) + Seq::<Seq<DocChunkView>>::empty() =~= batches_view(r@));
    r
}

/// All the items of a sequence of batches, in order.
pub open spec fn flatten_batches<T>(b: Seq<Seq<T>>) -> Seq<T>
    decreases b.len(),
{
    if b.len() == 0 {
        Seq::empty()
    } else {
        b[0] + flatten_batches(b.drop_first())
    }
}

/// Batching loses, adds and reorders nothing, every batch holds between one
/// and `n` items, and every batch but the last holds exactly `n`.
pub proof fn law_batches_partition<T>(s: Seq<T>, n: nat)
    requires
        n > 0,
    ensures
        flatten_batches(batches_of(s, n)) == s,
        forall|k: int|
            0 <= k < batches_of(s, n).len() ==> 0 < #[trigger] batches_of(s, n)[k].len() <= n,
        forall|k: int|
            0 <= k < batches_of(s, n).len() - 1 ==> #[trigger] batches_of(s, n)[k].len() == n,
        batches_of(s, n).len() * n >= s.len(),
        s.len() + n > batches_of(s, n).len() * n,
    decreases s.len(),
{
    let b = batches_of(s, n);
    if s.len() == 0 {
        assert(flatten_batches(b) =~= s);
        assert(b.len() * n == 0) by (nonlinear_arith)
            requires
                b.len() == 0,
        ;
    } else if s.len() <= n {
        assert(b.drop_first() =~= Seq::<Seq<T>>::empty());
        assert(b[0] == s);
        assert(flatten_batches(b.drop_first()) =~= Seq::<T>::empty());
        assert(s + Seq::<T>::empty() =~= s);
        assert(b.len() * n == n) by (nonlinear_arith)
            requires
                b.len() == 1,
        ;
    } else {
        let rest = batches_of(s.skip(n as int), n);
        law_batches_partition(s.skip(n as int), n);
        assert(b.drop_first() =~= rest);
        assert(s.take(n as int) + s.skip(n as int) =~= s);
        assert forall|k: int| 0 <= k < b.len() implies 0 < #[trigger] b[k].len() <= n by {
            if k > 0 {
                assert(b[k] == rest[k - 1]);
            }
        }
        assert forall|k: int| 0 <= k < b.len() - 1 implies #[trigger] b[k].len() == n by {
            if k > 0 {
                assert(b[k] == rest[k - 1]);
            }
        }
        assert(b.len() * n == rest.len() * n + n) by (nonlinear_arith)
            requires
                b.len() == rest.len() + 1,
        ;
    }
}

/// A batch of `len` chunks can be sent exactly when it holds at most
/// [`MAX_BATCH_SIZE`] chunks; an empty batch needs no request.
pub fn batch_needs_request(len: usize) -> (r: Result<bool, EmbeddingError>)
    ensures
        len > 2048 ==> r == Err::<bool, EmbeddingError>(
            EmbeddingError::BatchSizeExceeded { actual: len, max: 2048 },
        ),
        len <= 2048 ==> r == Ok::<bool, EmbeddingError>(len > 0),
{
    if len > MAX_BATCH_SIZE {
        Err(EmbeddingError::BatchSizeExceeded { actual: len, max: MAX_BATCH_SIZE })
    } else {
        Ok(len > 0)
    }
}

/// The API key: `OPENAI_API_KEY` when it is set, else `EMBEDDING_API_KEY`.
pub fn choose_api_key(openai: Option<String>, embedding: Option<String>) -> (r: Result<
    String,
    EmbeddingError,
>)
    ensures
        match (openai, embedding) {
            (Some(k), _) => r is Ok && r->Ok_0@ == k@,
            (None, Some(k)) => r is Ok && r->Ok_0@ == k@,
            (None, None) => r is Err && r->Err_0 is MissingApiKey,
        },
{
    match openai {
        Some(k) => Ok(k),
        None => match embedding {
            Some(k) => Ok(k),
            None => Err(EmbeddingError::MissingApiKey),
        },
    }
}

/// The value of the `Authorization` header for an API key.
pub fn authorization_header(api_key: &str) -> (s: String)
    ensures
        s@ == "Bearer "@ + api_key@,
{
    let mut s = String::from_str("Bearer ");
    s.append(api_key);
    s
}

/// The body of a batch embedding request.
pub struct EmbeddingRequest {
    /// The texts to embed, in the order of the chunks
    pub input: Vec<String>,
    /// The embedding model
    pub model: String,
    /// Always `float`
    pub encoding_format: String,
}

/// The texts of a sequence of chunks.
pub open spec fn contents_of(chunks: Seq<DocChunkView>) -> Seq<Seq<char>> {
    Seq::new(chunks.len(), |i: int| chunks[i].content)
}

impl EmbeddingRequest {
    /// The request that embeds the contents of `chunks` with the configured model.
    pub fn for_batch(config: &VectorizeConfig, chunks: &[DocChunkData]) -> (r: EmbeddingRequest)
        ensures
            crate::text::strings_view(r.input@) == contents_of(chunks_view(chunks@)),
            r.model@ == config.model_name@,
            r.encoding_format@ == "float"@,
    {
        let mut input: Vec<String> = Vec::new();
        let mut i: usize = 0;
        while i < chunks.len()
            invariant
                i <= chunks@.len(),
                crate::text::strings_view(input@) == contents_of(chunks_view(chunks@)).take(
                    i as int,
                ),
            decreases chunks@.len() - i,
        {
            let ghost before = input@;
            input.push(chunks[i].content.clone());
            assert(crate::text::strings_view(input@) =~= crate::text::strings_view(before).push(
                chunks@[i as int].content@,
            ));
            assert(contents_of(chunks_view(chunks@)).take(i + 1) =~= contents_of(
                chunks_view(chunks@),
            ).take(i as int).push(chunks@[i as int].content@));
            i = i + 1;
        }
        assert(contents_of(chunks_view(chunks@)).take(i as int) =~= contents_of(
            chunks_view(chunks@),
        ));
        EmbeddingRequest {
            input,
            model: config.model_name.clone(),
            encoding_format: String::from_str("float"),
        }
    }
}

/// An answer with a status outside 200..=299 is an API error carrying the
/// status and the answer's text.
pub fn check_status(status: u16, body: String) -> (r: Result<(), EmbeddingError>)
    ensures
        200 <= status <= 299 ==> r is Ok,
        !(200 <= status <= 299) ==> r is Err && r->Err_0 is ApiError && r->Err_0->status == status
            && r->Err_0->message@ == body@,
{
    if 200 <= status && status <= 299 {
        Ok(())
    } else {
        Err(EmbeddingError::ApiError { status, message: body })
    }
}

/// The first position whose vector length differs from the expected dimension.
pub open spec fn first_mismatch(lengths: Seq<usize>, dimension: usize) -> Option<int>
    decreases lengths.len(),
{
    if lengths.len() == 0 {
        None
    } else if lengths[0] != dimension {
        Some(0)
    } else {
        match first_mismatch(lengths.drop_first(), dimension) {
            Some(i) => Some(i + 1),
            None => None,
        }
    }
}

/// What checking an answer gives, from the number of chunks sent, the
/// configured dimension and the lengths of the vectors received.
pub open spec fn embeddings_check(chunk_count: usize, dimension: usize, lengths: Seq<usize>) -> Result<
    (),
    (Seq<char>, Option<(usize, usize)>),
> {
    if lengths.len() == 0 {
        Err(("No embedding data in response"@, None))
    } else if lengths.len() != chunk_count {
        Err(
            (
                "Expected "@ + decimal(chunk_count as nat) + " embeddings, got "@ + decimal(
                    lengths.len(),
                ),
                None,
            ),
        )
    } else {
        match first_mismatch(lengths, dimension) {
            Some(i) => Err((Seq::empty(), Some((dimension, lengths[i])))),
            None => Ok(()),
        }
    }
}

/// Whether an error is the one that `embeddings_check` describes.
pub open spec fn check_error_matches(e: EmbeddingError, d: (Seq<char>, Option<(usize, usize)>)) -> bool {
    match d.1 {
        None => e matches EmbeddingError::InvalidResponse(m) && m@ == d.0,
        Some((expected, actual)) => e == EmbeddingError::DimensionMismatch { expected, actual },
    }
}

/// Checks an answer of the embedding service: it must hold one vector per
/// chunk sent, each of the configured dimension (see [`embeddings_check`]).
pub fn check_embeddings(chunk_count: usize, dimension: usize, lengths: &Vec<usize>) -> (r: Result<
    (),
    EmbeddingError,
>)
    ensures
        match embeddings_check(chunk_count, dimension, lengths@) {
            Ok(()) => r is Ok,
            Err(d) => r is Err && check_error_matches(r->Err_0, d),
        },
{
    if lengths.len() == 0 {
        return Err(EmbeddingError::InvalidResponse(String::from_str("No embedding data in response")));
    }
    if lengths.len() != chunk_count {
        let mut m = String::from_str("Expected ");
        push_decimal(&mut m, chunk_count as u64);
        m.append(" embeddings, got ");
        push_decimal(&mut m, lengths.len() as u64);
        return Err(EmbeddingError::InvalidResponse(m));
    }
    let mut i: usize = 0;
    assert(lengths@.skip(0) =~= lengths@);
    while i < lengths.len()
        invariant
            i <= lengths@.len(),
            lengths@.len() > 0,
            lengths@.len() == chunk_count,
            first_mismatch(lengths@, dimension) == match first_mismatch(
                lengths@.skip(i as int),
                dimension,
            ) {
                Some(k) => Some(k + i),
                None => None::<int>,
            },
        decreases lengths@.len() - i,
    {
        let ghost rest = lengths@.skip(i as int);
        assert(rest[0] == lengths@[i as int]);
        if lengths[i] != dimension {
            assert(rest.len() > 0);
            assert(first_mismatch(rest, dimension) == Some(0int));
            assert(embeddings_check(chunk_count, dimension, lengths@) == Err::<(), (Seq<char>, Option<(usize, usize)>)>((Seq::empty(), Some((dimension, lengths@[i as int])))));
            return Err(EmbeddingError::DimensionMismatch { expected: dimension, actual: lengths[i] });
        }
        assert(rest.drop_first() =~= lengths@.skip(i + 1));
        i = i + 1;
    }
    Ok(())
}

/// What is reported for one chunk of a batch that could not be embedded.
pub struct EmbeddingFailed {
    pub specifier: CrateSpecifier,
    pub chunk_id: String,
    pub error: String,
    pub retryable: bool,
}

/// The failure reported for each chunk of a failed batch, in order: the
/// chunk's identifier, the error's message and whether it may be retried.
pub fn failures_for_batch(specifier: &CrateSpecifier, batch: &[DocChunkData], error: &EmbeddingError) -> (r: Vec<
    EmbeddingFailed,
>)
    ensures
        r@.len() == batch@.len(),
        forall|i: int|
            0 <= i < r@.len() ==> {
                &&& (#[trigger] r@[i]).specifier@ == specifier@
                &&& r@[i].chunk_id@ == batch@[i].chunk_id@
                &&& r@[i].error@ == embedding_error_message(*error)
                &&& r@[i].retryable == embedding_error_retryable(*error)
            },
{
    let retryable = error.is_retryable();
    let mut r: Vec<EmbeddingFailed> = Vec::new();
    let mut i: usize = 0;
    while i < batch.len()
        invariant
            i <= batch@.len(),
            r@.len() == i,
            retryable == embedding_error_retryable(*error),
            forall|k: int|
                0 <= k < i ==> {
                    &&& (#[trigger] r@[k]).specifier@ == specifier@
                    &&& r@[k].chunk_id@ == batch@[k].chunk_id@
                    &&& r@[k].error@ == embedding_error_message(*error)
                    &&& r@[k].retryable == embedding_error_retryable(*error)
                },
        decreases batch@.len() - i,
    {
        r.push(
            EmbeddingFailed {
                specifier: specifier.duplicate(),
                chunk_id: batch[i].chunk_id.clone(),
                error: error.message(),
                retryable,
            },
        );
        i = i + 1;
    }
    r
}

/// The vectorizer's state: its configuration, which does not change.
pub struct VectorizerActor {
    config: VectorizeConfig,
}

impl VectorizerActor {
    /// The configuration.
    pub closed spec fn spec_config(&self) -> VectorizeConfig {
        self.config
    }

    /// Creates a new VectorizerActor with the given configuration
    pub fn new(config: VectorizeConfig) -> (v: Self)
        ensures
            v.spec_config() == config,
    {
        VectorizerActor { config }
    }

    /// The configuration.
    pub fn config(&self) -> (c: &VectorizeConfig)
        ensures
            *c == self.spec_config(),
    {
        &self.config
    }
}

} // verus!
