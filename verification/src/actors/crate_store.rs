//! The service's database: crate records, documentation chunks, embeddings
//! and code samples, kept in memory.
//!
//! A crate record is identified by its name and the text of its version;
//! no two records share them. A chunk belongs to a crate, is identified by
//! its `chunk_id`, and no two chunks of a crate share a position. A chunk
//! has at most one embedding. Storing a crate again removes its chunks,
//! embeddings and code samples first, so that a crate can be processed anew;
//! storing a chunk or an embedding that exists already updates it in place.
//! Listings come back in the order the crates were stored, and a crate's
//! chunks in the order of their positions.

use vstd::prelude::*;
use vstd::string::StringExecFns;

use crate::actors::console::CrateSummary;
use crate::actors::database::{
    event_failure, event_status, missing_crate_error, persist_chunk_operation, record_event_specifier,
    status_change, status_name, CrateQueryAnswer, CrateStatus, RecordEvent,
};
use crate::actors::processor_actor::{content_kind_name, ChunkMetadata, ContentType, PersistDocChunk};
use crate::crate_specifier::{specifier_text, version_text, CrateSpecifier, CrateSpecifierView, VersionView};
use crate::precedence::{law_version_order, version_below};
use crate::messages::{chunks_view, DocChunkData, DocChunkView};
use crate::text::{clone_strings, decimal, push_decimal, strings_view};

verus! {

/// A database write that failed: what was being done, and why.
#[derive(Debug)]
pub struct DatabaseError {
    pub operation: String,
    pub error: String,
}

/// The text of an optional string.
pub open spec fn opt_view(o: Option<String>) -> Option<Seq<char>> {
    match o {
        Some(s) => Some(s@),
        None => None,
    }
}

fn clone_opt(o: &Option<String>) -> (r: Option<String>)
    ensures
        opt_view(r) == opt_view(*o),
{
    match o {
        Some(s) => Some(s.clone()),
        None => None,
    }
}

/// A stored crate.
pub struct CrateRow {
    pub specifier: CrateSpecifier,
    pub features: Vec<String>,
    pub status: CrateStatus,
    pub created_at: String,
    pub updated_at: String,
    pub error_stage: Option<String>,
    pub error_message: Option<String>,
    pub retry_count: u64,
    pub extraction_path: Option<String>,
}

/// The content of a stored crate.
pub struct CrateRowView {
    pub specifier: CrateSpecifierView,
    pub features: Seq<Seq<char>>,
    pub status: CrateStatus,
    pub created_at: Seq<char>,
    pub updated_at: Seq<char>,
    pub error_stage: Option<Seq<char>>,
    pub error_message: Option<Seq<char>>,
    pub retry_count: u64,
    pub extraction_path: Option<Seq<char>>,
}

impl View for CrateRow {
    type V = CrateRowView;

    open spec fn view(&self) -> CrateRowView {
        CrateRowView {
            specifier: self.specifier@,
            features: strings_view(self.features@),
            status: self.status,
            created_at: self.created_at@,
            updated_at: self.updated_at@,
            error_stage: opt_view(self.error_stage),
            error_message: opt_view(self.error_message),
            retry_count: self.retry_count,
            extraction_path: opt_view(self.extraction_path),
        }
    }
}

pub open spec fn crate_rows_view(v: Seq<CrateRow>) -> Seq<CrateRowView> {
    Seq::new(v.len(), |i: int| v[i]@)
}

/// Whether a crate is the one named `name` at the version written `version`.
pub open spec fn is_crate(s: CrateSpecifierView, name: Seq<char>, version: Seq<char>) -> bool {
    s.name == name && version_text(s.version) == version
}

/// Whether two crates share their name and version text, the key of a record.
pub open spec fn same_crate(a: CrateSpecifierView, b: CrateSpecifierView) -> bool {
    is_crate(a, b.name, version_text(b.version))
}

/// The position of the record of a crate, if there is one.
pub open spec fn crate_position(rows: Seq<CrateRowView>, name: Seq<char>, version: Seq<char>) -> Option<
    int,
> {
    if exists|i: int| 0 <= i < rows.len() && is_crate(#[trigger] rows[i].specifier, name, version) {
        Some(choose|i: int| 0 <= i < rows.len() && is_crate(#[trigger] rows[i].specifier, name, version))
    } else {
        None
    }
}

/// Whether the record at `i` is the latest of the crate `name`: no record
/// of that name ranks above it in semantic-version precedence (see
/// [`version_below`]), and every earlier one ranks below it, so that of
/// records of equal rank the first stored is the latest.
pub open spec fn is_latest(rows: Seq<CrateRowView>, name: Seq<char>, i: int) -> bool {
    &&& 0 <= i < rows.len()
    &&& rows[i].specifier.name == name
    &&& forall|j: int|
        0 <= j < rows.len() && (#[trigger] rows[j]).specifier.name == name ==> !version_below(
            rows[i].specifier.version,
            rows[j].specifier.version,
        )
    &&& forall|j: int|
        0 <= j < i && (#[trigger] rows[j]).specifier.name == name ==> version_below(
            rows[j].specifier.version,
            rows[i].specifier.version,
        )
}

/// The position of the latest record of the crate `name`, if it has one.
pub open spec fn latest_position(rows: Seq<CrateRowView>, name: Seq<char>) -> Option<int> {
    if exists|i: int| is_latest(rows, name, i) {
        Some(choose|i: int| is_latest(rows, name, i))
    } else {
        None
    }
}

/// A new record: pending, with the crate's features, created now.
pub open spec fn new_row(s: CrateSpecifierView, features: Seq<Seq<char>>, now: Seq<char>) -> CrateRowView {
    CrateRowView {
        specifier: s,
        features,
        status: CrateStatus::Pending,
        created_at: now,
        updated_at: now,
        error_stage: None,
        error_message: None,
        retry_count: 0,
        extraction_path: None,
    }
}

/// What an event of the pipeline makes of a crate's record: the status it
/// sets, updated now; a failure records its stage and message and counts
/// one more retry; a download records where the crate was unpacked.
pub open spec fn updated_row(r: CrateRowView, e: RecordEvent, now: Seq<char>) -> CrateRowView {
    let base = CrateRowView { status: event_status(e), updated_at: now, ..r };
    let failed = match event_failure(e) {
        Some((stage, message)) => CrateRowView {
            error_stage: Some(stage),
            error_message: Some(message),
            retry_count: if r.retry_count < u64::MAX {
                (r.retry_count + 1) as u64
            } else {
                r.retry_count
            },
            ..base
        },
        None => base,
    };
    match e {
        RecordEvent::Downloaded { extracted_path, .. } => CrateRowView {
            extraction_path: Some(extracted_path@),
            ..failed
        },
        _ => failed,
    }
}

/// The error reported when a crate's record exists already.
pub open spec fn duplicate_crate_message(s: CrateSpecifierView) -> Seq<char> {
    "crate "@ + specifier_text(s) + " is already stored"@
}

/// The answer to a query: the crate, its features, its status and when its
/// record was created; `not_found` and nothing else when there is none.
pub open spec fn answer_matches(a: CrateQueryAnswer, row: Option<CrateRowView>) -> bool {
    match row {
        Some(r) => {
            &&& a.specifier matches Some(s) && s@ == r.specifier
            &&& strings_view(a.features@) == r.features
            &&& a.status@ == status_name(r.status)
            &&& a.created_at@ == r.created_at
        },
        None => {
            &&& a.specifier is None
            &&& a.features@.len() == 0
            &&& a.status@ == "not_found"@
            &&& a.created_at@.len() == 0
        },
    }
}

/// The listing entry of a record: its name, version and status.
pub open spec fn summary_matches(c: CrateSummary, r: CrateRowView) -> bool {
    &&& c.name@ == r.specifier.name
    &&& c.version@ == version_text(r.specifier.version)
    &&& c.status@ == status_name(r.status)
}


/// The elements of a sequence that `keep` accepts, in order.
pub open spec fn retained<T>(s: Seq<T>, keep: spec_fn(T) -> bool) -> Seq<T>
    decreases s.len(),
{
    if s.len() == 0 {
        s
    } else {
        let front = retained(s.drop_last(), keep);
        if keep(s.last()) {
            front.push(s.last())
        } else {
            front
        }
    }
}

/// Every element that is retained is an element of the sequence that `keep`
/// accepts, found at increasing positions.
proof fn lemma_retained_from<T>(s: Seq<T>, keep: spec_fn(T) -> bool) -> (pos: Seq<int>)
    ensures
        pos.len() == retained(s, keep).len(),
        forall|k: int|
            0 <= k < pos.len() ==> 0 <= #[trigger] pos[k] < s.len() && retained(s, keep)[k] == s[pos[k]]
                && keep(s[pos[k]]),
        forall|a: int, b: int| 0 <= a < b < pos.len() ==> #[trigger] pos[a] < #[trigger] pos[b],
    decreases s.len(),
{
    if s.len() == 0 {
        Seq::empty()
    } else {
        let front = lemma_retained_from(s.drop_last(), keep);
        if keep(s.last()) {
            front.push(s.len() - 1)
        } else {
            front
        }
    }
}

/// Elements of a sequence that pairwise do not clash still do not clash
/// once some are left out.
proof fn lemma_retained_distinct<T>(s: Seq<T>, keep: spec_fn(T) -> bool, clash: spec_fn(T, T) -> bool)
    requires
        forall|i: int, j: int| 0 <= i < s.len() && 0 <= j < s.len() && i != j ==> !clash(s[i], s[j]),
    ensures
        forall|i: int, j: int|
            0 <= i < retained(s, keep).len() && 0 <= j < retained(s, keep).len() && i != j ==> !clash(
                retained(s, keep)[i],
                retained(s, keep)[j],
            ),
{
    let r = retained(s, keep);
    let pos = lemma_retained_from(s, keep);
    assert forall|i: int, j: int| 0 <= i < r.len() && 0 <= j < r.len() && i != j implies !clash(r[i], r[j]) by {
        assert(r[i] == s[pos[i]]);
        assert(r[j] == s[pos[j]]);
        if i < j {
            assert(pos[i] < pos[j]);
        } else {
            assert(pos[j] < pos[i]);
        }
    }
}

/// A stored documentation chunk of the crate named `crate_name` at the
/// version written `crate_version`.
pub struct ChunkRow {
    pub crate_name: String,
    pub crate_version: String,
    pub chunk_index: usize,
    pub chunk_id: String,
    pub content: String,
    pub source_file: String,
    pub metadata: ChunkMetadata,
    pub vectorized: bool,
}

/// The content of a stored chunk.
pub struct ChunkRowView {
    pub crate_name: Seq<char>,
    pub crate_version: Seq<char>,
    pub chunk_index: usize,
    pub chunk_id: Seq<char>,
    pub content: Seq<char>,
    pub source_file: Seq<char>,
    pub content_type: Seq<char>,
    pub token_count: usize,
    pub char_count: usize,
    pub start_line: Option<usize>,
    pub end_line: Option<usize>,
    pub parent_module: Option<Seq<char>>,
    pub item_type: Option<Seq<char>>,
    pub item_name: Option<Seq<char>>,
    pub vectorized: bool,
}

impl View for ChunkRow {
    type V = ChunkRowView;

    open spec fn view(&self) -> ChunkRowView {
        ChunkRowView {
            crate_name: self.crate_name@,
            crate_version: self.crate_version@,
            chunk_index: self.chunk_index,
            chunk_id: self.chunk_id@,
            content: self.content@,
            source_file: self.source_file@,
            content_type: self.metadata.content_type@,
            token_count: self.metadata.token_count,
            char_count: self.metadata.char_count,
            start_line: self.metadata.start_line,
            end_line: self.metadata.end_line,
            parent_module: opt_view(self.metadata.parent_module),
            item_type: opt_view(self.metadata.item_type),
            item_name: opt_view(self.metadata.item_name),
            vectorized: self.vectorized,
        }
    }
}

pub open spec fn chunk_rows_view(v: Seq<ChunkRow>) -> Seq<ChunkRowView> {
    Seq::new(v.len(), |i: int| v[i]@)
}

/// Whether a chunk belongs to the crate named `name` at the version written `version`.
pub open spec fn chunk_of(r: ChunkRowView, name: Seq<char>, version: Seq<char>) -> bool {
    r.crate_name == name && r.crate_version == version
}

/// Keeps the chunks of every crate but one.
pub open spec fn chunk_not_of(name: Seq<char>, version: Seq<char>) -> spec_fn(ChunkRowView) -> bool {
    |r: ChunkRowView| !chunk_of(r, name, version)
}

/// Two chunks that may not both be stored: the same identifier, or the
/// same position in the same crate.
pub open spec fn chunks_clash(a: ChunkRowView, b: ChunkRowView) -> bool {
    a.chunk_id == b.chunk_id || (a.crate_name == b.crate_name && a.crate_version == b.crate_version
        && a.chunk_index == b.chunk_index)
}

/// A chunk as a query returns it.
pub open spec fn chunk_data(r: ChunkRowView) -> DocChunkView {
    DocChunkView {
        chunk_id: r.chunk_id,
        chunk_index: r.chunk_index,
        content: r.content,
        content_type: r.content_type,
        source_file: r.source_file,
        token_count: r.token_count,
        char_count: r.char_count,
    }
}

/// The position of the chunk with an identifier, if it is stored.
pub open spec fn chunk_position(rows: Seq<ChunkRowView>, chunk_id: Seq<char>) -> Option<int> {
    if exists|i: int| 0 <= i < rows.len() && (#[trigger] rows[i]).chunk_id == chunk_id {
        Some(choose|i: int| 0 <= i < rows.len() && (#[trigger] rows[i]).chunk_id == chunk_id)
    } else {
        None
    }
}

/// The content types a chunk may have.
pub open spec fn is_chunk_content_type(t: Seq<char>) -> bool {
    t == "markdown"@ || t == "rust"@ || t == "toml"@ || t == "text"@
}

/// Why a chunk cannot be stored as it is, if it cannot: its text is empty,
/// or its content type is not one of `markdown`, `rust`, `toml` and `text`.
pub open spec fn chunk_problem(content: Seq<char>, content_type: Seq<char>) -> Option<Seq<char>> {
    if content.len() == 0 {
        Some("chunk content must not be empty"@)
    } else if !is_chunk_content_type(content_type) {
        Some("content type must be markdown, rust, toml or text"@)
    } else {
        None
    }
}

/// The error when another chunk of the crate holds the position.
pub open spec fn position_taken_message(s: CrateSpecifierView, index: usize) -> Seq<char> {
    "chunk "@ + decimal(index as nat) + " of "@ + specifier_text(s) + " is already stored"@
}

/// A new chunk, as a request describes it.
pub open spec fn new_chunk(req: PersistDocChunk) -> ChunkRowView {
    ChunkRowView {
        crate_name: req.specifier@.name,
        crate_version: version_text(req.specifier@.version),
        chunk_index: req.chunk_index,
        chunk_id: req.chunk_id@,
        content: req.content@,
        source_file: req.source_file@,
        content_type: req.metadata.content_type@,
        token_count: req.metadata.token_count,
        char_count: req.metadata.char_count,
        start_line: req.metadata.start_line,
        end_line: req.metadata.end_line,
        parent_module: opt_view(req.metadata.parent_module),
        item_type: opt_view(req.metadata.item_type),
        item_name: opt_view(req.metadata.item_name),
        vectorized: false,
    }
}

/// A stored chunk given the text and details of a request (its crate and
/// position stay), and marked as not vectorized.
pub open spec fn refreshed_chunk(r: ChunkRowView, req: PersistDocChunk) -> ChunkRowView {
    ChunkRowView {
        crate_name: r.crate_name,
        crate_version: r.crate_version,
        chunk_index: r.chunk_index,
        chunk_id: r.chunk_id,
        ..new_chunk(req)
    }
}

/// The acknowledgement that a chunk was stored.
#[derive(Debug)]
pub struct ChunkStored {
    pub chunk_id: String,
    pub specifier: CrateSpecifier,
    pub chunk_index: usize,
    pub source_file: String,
}

/// Whether `d` is one of the first `i` chunks of the crate named `name`
/// at the version written `version`.
pub open spec fn chunk_among(rows: Seq<ChunkRowView>, name: Seq<char>, version: Seq<char>, i: int, d: DocChunkView) -> bool {
    exists|p: int| 0 <= p < i && chunk_of(rows[p], name, version) && d == chunk_data(#[trigger] rows[p])
}

/// Whether `d` is listed in `o`.
pub open spec fn listed(o: Seq<DocChunkView>, d: DocChunkView) -> bool {
    exists|k: int| 0 <= k < o.len() && #[trigger] o[k] == d
}

/// The chunks a query returns for a crate: exactly the crate's chunks,
/// each once, by increasing position.
pub open spec fn chunk_listing(out: Seq<DocChunkView>, rows: Seq<ChunkRowView>, name: Seq<char>, version: Seq<char>) -> bool {
    &&& forall|k: int| 0 <= k < out.len() ==> chunk_among(rows, name, version, rows.len() as int, #[trigger] out[k])
    &&& forall|p: int|
        0 <= p < rows.len() && chunk_of(#[trigger] rows[p], name, version) ==> listed(out, chunk_data(rows[p]))
    &&& forall|a: int, b: int| 0 <= a < b < out.len() ==> (#[trigger] out[a]).chunk_index < (#[trigger] out[b]).chunk_index
}


/// A stored embedding of the chunk `chunk_id`, made by a model, for the
/// crate named `crate_name` at the version written `crate_version`. Of the
/// vector only its dimension is kept.
pub struct EmbeddingRow {
    pub chunk_id: String,
    pub crate_name: String,
    pub crate_version: String,
    pub dimension: usize,
    pub model_name: String,
    pub model_version: String,
}

/// The content of a stored embedding.
pub struct EmbeddingRowView {
    pub chunk_id: Seq<char>,
    pub crate_name: Seq<char>,
    pub crate_version: Seq<char>,
    pub dimension: usize,
    pub model_name: Seq<char>,
    pub model_version: Seq<char>,
}

impl View for EmbeddingRow {
    type V = EmbeddingRowView;

    open spec fn view(&self) -> EmbeddingRowView {
        EmbeddingRowView {
            chunk_id: self.chunk_id@,
            crate_name: self.crate_name@,
            crate_version: self.crate_version@,
            dimension: self.dimension,
            model_name: self.model_name@,
            model_version: self.model_version@,
        }
    }
}

pub open spec fn embedding_rows_view(v: Seq<EmbeddingRow>) -> Seq<EmbeddingRowView> {
    Seq::new(v.len(), |i: int| v[i]@)
}

/// An embedding that a similarity search weighs: its chunk (identifier and
/// text), the crate it belongs to and the model that made it. The search
/// scores it against its vector, which the store does not hold.
pub struct SearchCandidate {
    pub chunk_id: String,
    pub content: String,
    pub crate_name: String,
    pub crate_version: String,
    pub model_name: String,
    pub model_version: String,
}

pub struct SearchCandidateView {
    pub chunk_id: Seq<char>,
    pub content: Seq<char>,
    pub crate_name: Seq<char>,
    pub crate_version: Seq<char>,
    pub model_name: Seq<char>,
    pub model_version: Seq<char>,
}

impl View for SearchCandidate {
    type V = SearchCandidateView;

    open spec fn view(&self) -> SearchCandidateView {
        SearchCandidateView {
            chunk_id: self.chunk_id@,
            content: self.content@,
            crate_name: self.crate_name@,
            crate_version: self.crate_version@,
            model_name: self.model_name@,
            model_version: self.model_version@,
        }
    }
}

pub open spec fn candidates_view(v: Seq<SearchCandidate>) -> Seq<SearchCandidateView> {
    Seq::new(v.len(), |i: int| v[i]@)
}

/// The crate a search is limited to, by name and version text.
pub open spec fn search_filter(filter: Option<CrateSpecifier>) -> Option<(Seq<char>, Seq<char>)> {
    match filter {
        Some(c) => Some((c@.name, version_text(c@.version))),
        None => None,
    }
}

/// Whether a similarity search weighs an embedding: its chunk is stored
/// and, when the search is limited to a crate, it belongs to that crate.
pub open spec fn searched(
    chunks: Seq<ChunkRowView>,
    filter: Option<(Seq<char>, Seq<char>)>,
) -> spec_fn(EmbeddingRowView) -> bool {
    |e: EmbeddingRowView|
        chunk_position(chunks, e.chunk_id) is Some && match filter {
            Some((n, v)) => e.crate_name == n && e.crate_version == v,
            None => true,
        }
}

/// What a search weighs of an embedding whose chunk is stored.
pub open spec fn candidate_of(chunks: Seq<ChunkRowView>, e: EmbeddingRowView) -> SearchCandidateView {
    SearchCandidateView {
        chunk_id: e.chunk_id,
        content: chunks[chunk_position(chunks, e.chunk_id)->0].content,
        crate_name: e.crate_name,
        crate_version: e.crate_version,
        model_name: e.model_name,
        model_version: e.model_version,
    }
}

/// Keeps the embeddings of every crate but one.
pub open spec fn embedding_not_of(name: Seq<char>, version: Seq<char>) -> spec_fn(EmbeddingRowView) -> bool {
    |e: EmbeddingRowView| !(e.crate_name == name && e.crate_version == version)
}

/// Two embeddings of the same chunk, which may not both be stored.
pub open spec fn embeddings_clash(a: EmbeddingRowView, b: EmbeddingRowView) -> bool {
    a.chunk_id == b.chunk_id
}

/// Whether an embedding is the one of a chunk by a model.
pub open spec fn is_embedding(e: EmbeddingRowView, chunk_id: Seq<char>, model_name: Seq<char>, model_version: Seq<char>) -> bool {
    e.chunk_id == chunk_id && e.model_name == model_name && e.model_version == model_version
}

/// The position of the embedding of a chunk by a model, if it is stored.
pub open spec fn embedding_position(
    rows: Seq<EmbeddingRowView>,
    chunk_id: Seq<char>,
    model_name: Seq<char>,
    model_version: Seq<char>,
) -> Option<int> {
    if exists|i: int| 0 <= i < rows.len() && is_embedding(#[trigger] rows[i], chunk_id, model_name, model_version) {
        Some(choose|i: int| 0 <= i < rows.len() && is_embedding(#[trigger] rows[i], chunk_id, model_name, model_version))
    } else {
        None
    }
}

/// A new embedding.
pub open spec fn new_embedding(
    s: CrateSpecifierView,
    chunk_id: Seq<char>,
    dimension: usize,
    model_name: Seq<char>,
    model_version: Seq<char>,
) -> EmbeddingRowView {
    EmbeddingRowView {
        chunk_id,
        crate_name: s.name,
        crate_version: version_text(s.version),
        dimension,
        model_name,
        model_version,
    }
}

/// The operation reported when storing an embedding fails.
pub open spec fn embedding_operation(s: CrateSpecifierView, chunk_id: Seq<char>) -> Seq<char> {
    "persist embedding for chunk "@ + chunk_id + " (crate: "@ + specifier_text(s) + ")"@
}

/// Why an embedding was not stored: the database error, and a warning for
/// the console when a chunk or crate it refers to is missing.
#[derive(Debug)]
pub struct EmbeddingRefused {
    pub warning: Option<String>,
    pub error: DatabaseError,
}

/// The acknowledgement that an embedding was stored.
#[derive(Debug)]
pub struct EmbeddingStored {
    pub chunk_id: String,
    pub specifier: CrateSpecifier,
}

/// What storing an embedding of a chunk by a model leads to: the warning,
/// if any, and the error when it fails; `None` when it succeeds.
pub open spec fn embedding_refusal(
    v: StoreView,
    s: CrateSpecifierView,
    chunk_id: Seq<char>,
    dimension: usize,
    model_name: Seq<char>,
    model_version: Seq<char>,
) -> Option<(Option<Seq<char>>, Seq<char>)> {
    if chunk_position(v.chunks, chunk_id) is None {
        Some(
            (
                Some(
                    "Cannot persist embedding: doc_chunk '"@ + chunk_id + "' not found for crate "@ + specifier_text(s)
                        + ". The chunk must be persisted before embeddings can be stored."@,
                ),
                "Documentation chunk '"@ + chunk_id
                    + "' not found in database. Ensure chunks are persisted before embedding vectorization."@,
            ),
        )
    } else if crate_position(v.crates, s.name, version_text(s.version)) is None {
        Some(
            (
                Some(
                    "Cannot persist embedding: crate "@ + specifier_text(s) + " not found in database (chunk: "@
                        + chunk_id + ")"@,
                ),
                "Crate '"@ + specifier_text(s)
                    + "' not found in database. Ensure crate is persisted before embedding vectorization."@,
            ),
        )
    } else if dimension == 0 {
        Some((None, "Failed to create embedding record for chunk '"@ + chunk_id + "': the vector is empty"@))
    } else if embedding_position(v.embeddings, chunk_id, model_name, model_version) is None && exists|j: int|
        0 <= j < v.embeddings.len() && (#[trigger] v.embeddings[j]).chunk_id == chunk_id {
        Some(
            (
                None,
                "Failed to create embedding record for chunk '"@ + chunk_id
                    + "': the chunk has an embedding by another model"@,
            ),
        )
    } else {
        None
    }
}


/// What is known of a code sample besides its code.
pub struct CodeSampleMetadata {
    pub language: String,
    pub source_file: String,
    pub doc_context: Option<String>,
    pub parent_item: Option<String>,
    pub tags: Vec<String>,
    pub line_count: usize,
}

/// A request to store a code sample of a crate.
pub struct PersistCodeSample {
    pub specifier: CrateSpecifier,
    pub sample_index: usize,
    pub code: String,
    pub sample_type: String,
    pub metadata: CodeSampleMetadata,
}

/// A stored code sample of the crate named `crate_name` at the version
/// written `crate_version`.
pub struct SampleRow {
    pub crate_name: String,
    pub crate_version: String,
    pub sample_index: usize,
    pub code: String,
    pub sample_type: String,
    pub metadata: CodeSampleMetadata,
}

/// The content of a stored code sample.
pub struct SampleRowView {
    pub crate_name: Seq<char>,
    pub crate_version: Seq<char>,
    pub sample_index: usize,
    pub code: Seq<char>,
    pub sample_type: Seq<char>,
    pub language: Seq<char>,
    pub source_file: Seq<char>,
    pub doc_context: Option<Seq<char>>,
    pub parent_item: Option<Seq<char>>,
    pub tags: Seq<Seq<char>>,
    pub line_count: usize,
}

impl View for SampleRow {
    type V = SampleRowView;

    open spec fn view(&self) -> SampleRowView {
        SampleRowView {
            crate_name: self.crate_name@,
            crate_version: self.crate_version@,
            sample_index: self.sample_index,
            code: self.code@,
            sample_type: self.sample_type@,
            language: self.metadata.language@,
            source_file: self.metadata.source_file@,
            doc_context: opt_view(self.metadata.doc_context),
            parent_item: opt_view(self.metadata.parent_item),
            tags: strings_view(self.metadata.tags@),
            line_count: self.metadata.line_count,
        }
    }
}

pub open spec fn sample_rows_view(v: Seq<SampleRow>) -> Seq<SampleRowView> {
    Seq::new(v.len(), |i: int| v[i]@)
}

/// Keeps the code samples of every crate but one.
pub open spec fn sample_not_of(name: Seq<char>, version: Seq<char>) -> spec_fn(SampleRowView) -> bool {
    |r: SampleRowView| !(r.crate_name == name && r.crate_version == version)
}

/// Two samples at the same position of the same crate, which may not both
/// be stored.
pub open spec fn samples_clash(a: SampleRowView, b: SampleRowView) -> bool {
    a.crate_name == b.crate_name && a.crate_version == b.crate_version && a.sample_index == b.sample_index
}

/// The kinds of code sample.
pub open spec fn is_sample_type(t: Seq<char>) -> bool {
    t == "example"@ || t == "test"@ || t == "usage"@ || t == "snippet"@
}

/// A new code sample, as a request describes it.
pub open spec fn new_sample(req: PersistCodeSample) -> SampleRowView {
    SampleRowView {
        crate_name: req.specifier@.name,
        crate_version: version_text(req.specifier@.version),
        sample_index: req.sample_index,
        code: req.code@,
        sample_type: req.sample_type@,
        language: req.metadata.language@,
        source_file: req.metadata.source_file@,
        doc_context: opt_view(req.metadata.doc_context),
        parent_item: opt_view(req.metadata.parent_item),
        tags: strings_view(req.metadata.tags@),
        line_count: req.metadata.line_count,
    }
}

/// Why a code sample is not stored, if it is not: the operation reported
/// and the error.
pub open spec fn sample_refusal(v: StoreView, req: PersistCodeSample) -> Option<(Seq<char>, Seq<char>)> {
    let s = req.specifier@;
    let n = new_sample(req);
    if crate_position(v.crates, s.name, version_text(s.version)) is None {
        Some(("persist code sample for "@ + specifier_text(s), "Crate "@ + specifier_text(s) + " not found in database"@))
    } else if req.code@.len() == 0 || !is_sample_type(req.sample_type@) || exists|j: int|
        0 <= j < v.samples.len() && samples_clash(#[trigger] v.samples[j], n) {
        Some(
            (
                "persist code sample "@ + decimal(req.sample_index as nat) + " for "@ + specifier_text(s),
                if req.code@.len() == 0 {
                    "the code is empty"@
                } else if !is_sample_type(req.sample_type@) {
                    "sample type must be example, test, usage or snippet"@
                } else {
                    "sample "@ + decimal(req.sample_index as nat) + " of "@ + specifier_text(s) + " is already stored"@
                },
            ),
        )
    } else {
        None
    }
}

/// Why a chunk is not stored, if it is not: its crate has no record, it
/// cannot be stored as it is (see [`chunk_problem`]), or it is new and
/// another chunk of its crate holds its position.
pub open spec fn chunk_refusal(v: StoreView, req: PersistDocChunk) -> Option<Seq<char>> {
    let name = req.specifier@.name;
    let version = version_text(req.specifier@.version);
    if crate_position(v.crates, name, version) is None {
        Some("Crate "@ + specifier_text(req.specifier@) + " not found in database"@)
    } else if chunk_problem(req.content@, req.metadata.content_type@) is Some {
        chunk_problem(req.content@, req.metadata.content_type@)
    } else if chunk_position(v.chunks, req.chunk_id@) is None && exists|j: int|
        0 <= j < v.chunks.len() && chunk_of(#[trigger] v.chunks[j], name, version) && v.chunks[j].chunk_index
            == req.chunk_index {
        Some(position_taken_message(req.specifier@, req.chunk_index))
    } else {
        None
    }
}

/// The chunks once a chunk is stored: the chunk with its identifier is
/// updated in place (see [`refreshed_chunk`]), or it is added.
pub open spec fn chunks_after(v: StoreView, req: PersistDocChunk) -> Seq<ChunkRowView> {
    match chunk_position(v.chunks, req.chunk_id@) {
        Some(p) => v.chunks.update(p, refreshed_chunk(v.chunks[p], req)),
        None => v.chunks.push(new_chunk(req)),
    }
}

/// The embeddings once the embedding of a chunk by a model is stored: it
/// is updated with the new dimension, or added.
pub open spec fn embeddings_after(
    v: StoreView,
    s: CrateSpecifierView,
    chunk_id: Seq<char>,
    dimension: usize,
    model_name: Seq<char>,
    model_version: Seq<char>,
) -> Seq<EmbeddingRowView> {
    match embedding_position(v.embeddings, chunk_id, model_name, model_version) {
        Some(e) => v.embeddings.update(e, EmbeddingRowView { dimension, ..v.embeddings[e] }),
        None => v.embeddings.push(new_embedding(s, chunk_id, dimension, model_name, model_version)),
    }
}

/// The chunks once a chunk's embedding is stored: the chunk is marked as
/// vectorized.
pub open spec fn chunks_vectorized(v: StoreView, chunk_id: Seq<char>) -> Seq<ChunkRowView> {
    let p = chunk_position(v.chunks, chunk_id)->Some_0;
    v.chunks.update(p, ChunkRowView { vectorized: true, ..v.chunks[p] })
}

/// The contents of the store.
pub struct StoreView {
    pub crates: Seq<CrateRowView>,
    pub chunks: Seq<ChunkRowView>,
    pub embeddings: Seq<EmbeddingRowView>,
    pub samples: Seq<SampleRowView>,
}

/// The crate records of the service.
pub struct CrateStore {
    crates: Vec<CrateRow>,
    chunks: Vec<ChunkRow>,
    embeddings: Vec<EmbeddingRow>,
    samples: Vec<SampleRow>,
}

impl View for CrateStore {
    type V = StoreView;

    closed spec fn view(&self) -> StoreView {
        StoreView {
            crates: crate_rows_view(self.crates@),
            chunks: chunk_rows_view(self.chunks@),
            embeddings: embedding_rows_view(self.embeddings@),
            samples: sample_rows_view(self.samples@),
        }
    }
}

/// No two records share a name and a version text, no two chunks clash
/// (see [`chunks_clash`]), no chunk has two embeddings, and no two code
/// samples of a crate share a position.
pub open spec fn store_well_formed(v: StoreView) -> bool {
    &&& forall|i: int, j: int|
        0 <= i < v.crates.len() && 0 <= j < v.crates.len() && i != j ==> !same_crate(
            #[trigger] v.crates[i].specifier,
            #[trigger] v.crates[j].specifier,
        )
    &&& forall|i: int, j: int|
        0 <= i < v.chunks.len() && 0 <= j < v.chunks.len() && i != j ==> !chunks_clash(
            #[trigger] v.chunks[i],
            #[trigger] v.chunks[j],
        )
    &&& forall|i: int, j: int|
        0 <= i < v.embeddings.len() && 0 <= j < v.embeddings.len() && i != j ==> !embeddings_clash(
            #[trigger] v.embeddings[i],
            #[trigger] v.embeddings[j],
        )
    &&& forall|i: int, j: int|
        0 <= i < v.samples.len() && 0 <= j < v.samples.len() && i != j ==> !samples_clash(
            #[trigger] v.samples[i],
            #[trigger] v.samples[j],
        )
}

fn clone_metadata(m: &ChunkMetadata) -> (r: ChunkMetadata)
    ensures
        r.content_type@ == m.content_type@,
        r.start_line == m.start_line,
        r.end_line == m.end_line,
        r.token_count == m.token_count,
        r.char_count == m.char_count,
        opt_view(r.parent_module) == opt_view(m.parent_module),
        opt_view(r.item_type) == opt_view(m.item_type),
        opt_view(r.item_name) == opt_view(m.item_name),
{
    ChunkMetadata {
        content_type: m.content_type.clone(),
        start_line: m.start_line,
        end_line: m.end_line,
        token_count: m.token_count,
        char_count: m.char_count,
        parent_module: clone_opt(&m.parent_module),
        item_type: clone_opt(&m.item_type),
        item_name: clone_opt(&m.item_name),
    }
}

impl ChunkRow {
    fn duplicate(&self) -> (r: ChunkRow)
        ensures
            r@ == self@,
    {
        ChunkRow {
            crate_name: self.crate_name.clone(),
            crate_version: self.crate_version.clone(),
            chunk_index: self.chunk_index,
            chunk_id: self.chunk_id.clone(),
            content: self.content.clone(),
            source_file: self.source_file.clone(),
            metadata: clone_metadata(&self.metadata),
            vectorized: self.vectorized,
        }
    }

    fn data(&self) -> (d: DocChunkData)
        ensures
            d@ == chunk_data(self@),
    {
        DocChunkData {
            chunk_id: self.chunk_id.clone(),
            chunk_index: self.chunk_index,
            content: self.content.clone(),
            content_type: self.metadata.content_type.clone(),
            source_file: self.source_file.clone(),
            token_count: self.metadata.token_count,
            char_count: self.metadata.char_count,
        }
    }
}

impl EmbeddingRow {
    fn duplicate(&self) -> (r: EmbeddingRow)
        ensures
            r@ == self@,
    {
        EmbeddingRow {
            chunk_id: self.chunk_id.clone(),
            crate_name: self.crate_name.clone(),
            crate_version: self.crate_version.clone(),
            dimension: self.dimension,
            model_name: self.model_name.clone(),
            model_version: self.model_version.clone(),
        }
    }
}

fn clone_sample_metadata(m: &CodeSampleMetadata) -> (r: CodeSampleMetadata)
    ensures
        r.language@ == m.language@,
        r.source_file@ == m.source_file@,
        opt_view(r.doc_context) == opt_view(m.doc_context),
        opt_view(r.parent_item) == opt_view(m.parent_item),
        strings_view(r.tags@) == strings_view(m.tags@),
        r.line_count == m.line_count,
{
    CodeSampleMetadata {
        language: m.language.clone(),
        source_file: m.source_file.clone(),
        doc_context: clone_opt(&m.doc_context),
        parent_item: clone_opt(&m.parent_item),
        tags: clone_strings(&m.tags),
        line_count: m.line_count,
    }
}

impl SampleRow {
    fn duplicate(&self) -> (r: SampleRow)
        ensures
            r@ == self@,
    {
        SampleRow {
            crate_name: self.crate_name.clone(),
            crate_version: self.crate_version.clone(),
            sample_index: self.sample_index,
            code: self.code.clone(),
            sample_type: self.sample_type.clone(),
            metadata: clone_sample_metadata(&self.metadata),
        }
    }
}

impl CrateRow {
    fn duplicate(&self) -> (r: CrateRow)
        ensures
            r@ == self@,
    {
        CrateRow {
            specifier: self.specifier.duplicate(),
            features: clone_strings(&self.features),
            status: self.status,
            created_at: self.created_at.clone(),
            updated_at: self.updated_at.clone(),
            error_stage: clone_opt(&self.error_stage),
            error_message: clone_opt(&self.error_message),
            retry_count: self.retry_count,
            extraction_path: clone_opt(&self.extraction_path),
        }
    }
}

/// Whether `s` is the crate named `name` at the version written `version`.
fn crate_is(s: &CrateSpecifier, name: &str, version: &str) -> (r: bool)
    ensures
        r == is_crate(s@, name@, version@),
{
    let v = s.version().to_text();
    let n = String::from_str(s.name());
    let a = String::from_str(name);
    let b = String::from_str(version);
    n == a && v == b
}

impl CrateStore {
    /// The store's well-formedness (see [`store_well_formed`]).
    pub open spec fn well_formed(&self) -> bool {
        store_well_formed(self@)
    }

    /// An empty store.
    pub fn new() -> (s: CrateStore)
        ensures
            s@.crates.len() == 0,
            s@.chunks.len() == 0,
            s@.embeddings.len() == 0,
            s@.samples.len() == 0,
            s.well_formed(),
    {
        CrateStore { crates: Vec::new(), chunks: Vec::new(), embeddings: Vec::new(), samples: Vec::new() }
    }

    /// The position of the record of a crate.
    fn find(&self, name: &str, version: &str) -> (r: Option<usize>)
        requires
            self.well_formed(),
        ensures
            match r {
                Some(i) => crate_position(self@.crates, name@, version@) == Some(i as int),
                None => crate_position(self@.crates, name@, version@) is None,
            },
    {
        let ghost rows = self@.crates;
        let mut i: usize = 0;
        while i < self.crates.len()
            invariant
                i <= self.crates@.len(),
                rows == self@.crates,
                rows.len() == self.crates@.len(),
                store_well_formed(self@),
                forall|j: int| 0 <= j < i ==> !is_crate(#[trigger] rows[j].specifier, name@, version@),
            decreases self.crates@.len() - i,
        {
            if crate_is(&self.crates[i].specifier, name, version) {
                assert(is_crate(rows[i as int].specifier, name@, version@));
                let ghost c = choose|k: int| 0 <= k < rows.len() && is_crate(#[trigger] rows[k].specifier, name@, version@);
                assert(same_crate(rows[c].specifier, rows[i as int].specifier));
                assert(c == i as int);
                return Some(i);
            }
            i = i + 1;
        }
        None
    }

    /// The position of the latest record of the crate `name`.
    fn find_latest(&self, name: &str) -> (r: Option<usize>)
        ensures
            match r {
                Some(i) => is_latest(self@.crates, name@, i as int),
                None => forall|j: int|
                    0 <= j < self@.crates.len() ==> (#[trigger] self@.crates[j]).specifier.name != name@,
            },
    {
        let ghost rows = self@.crates;
        let target = String::from_str(name);
        let mut best: Option<usize> = None;
        let mut i: usize = 0;
        while i < self.crates.len()
            invariant
                i <= self.crates@.len(),
                rows == self@.crates,
                rows.len() == self.crates@.len(),
                target@ == name@,
                match best {
                    Some(b) => {
                        &&& b < i
                        &&& rows[b as int].specifier.name == name@
                        &&& forall|j: int|
                            0 <= j < i && (#[trigger] rows[j]).specifier.name == name@ ==> !version_below(
                                rows[b as int].specifier.version,
                                rows[j].specifier.version,
                            )
                        &&& forall|j: int|
                            0 <= j < b && (#[trigger] rows[j]).specifier.name == name@ ==> version_below(
                                rows[j].specifier.version,
                                rows[b as int].specifier.version,
                            )
                    },
                    None => forall|j: int| 0 <= j < i ==> (#[trigger] rows[j]).specifier.name != name@,
                },
            decreases self.crates@.len() - i,
        {
            let row = &self.crates[i];
            let n = String::from_str(row.specifier.name());
            if n == target {
                let v = row.specifier.version();
                match best {
                    None => {
                        proof {
                            let u = rows[i as int].specifier.version;
                            law_version_order(u, u, u);
                        }
                        best = Some(i);
                    },
                    Some(b) => {
                        let w = self.crates[b].specifier.version();
                        if w.ranks_below(v) {
                            proof {
                                assert forall|j: int|
                                    0 <= j < i && (#[trigger] rows[j]).specifier.name == name@ implies version_below(
                                    rows[j].specifier.version,
                                    rows[i as int].specifier.version,
                                ) by {
                                    law_version_order(rows[j].specifier.version, rows[b as int].specifier.version, rows[i as int].specifier.version);
                                }
                                assert forall|j: int|
                                    0 <= j < i + 1 && (#[trigger] rows[j]).specifier.name == name@ implies !version_below(
                                    rows[i as int].specifier.version,
                                    rows[j].specifier.version,
                                ) by {
                                    law_version_order(rows[b as int].specifier.version, rows[i as int].specifier.version, rows[j].specifier.version);
                                    law_version_order(rows[i as int].specifier.version, rows[i as int].specifier.version, rows[j].specifier.version);
                                }
                            }
                            best = Some(i);
                        }
                    },
                }
            }
            i = i + 1;
        }
        best
    }

    /// Stores a crate as received: a pending record with its features,
    /// created now. Fails, changing nothing, when the crate has a record.
    fn create(&mut self, specifier: &CrateSpecifier, features: &Vec<String>, now: &str) -> (r: bool)
        requires
            old(self).well_formed(),
        ensures
            final(self).well_formed(),
            r == (crate_position(old(self)@.crates, specifier@.name, version_text(specifier@.version)) is None),
            r ==> final(self)@.crates == old(self)@.crates.push(new_row(specifier@, strings_view(features@), now@)),
            !r ==> final(self)@.crates == old(self)@.crates,
            final(self)@.chunks == old(self)@.chunks,
            final(self)@.embeddings == old(self)@.embeddings,
            final(self)@.samples == old(self)@.samples,
    {
        let v = specifier.version().to_text();
        match self.find(specifier.name(), v.as_str()) {
            Some(_) => false,
            None => {
                let ghost before = self@.crates;
                let ghost chunks_before = self@.chunks;
                let ghost embeddings_before = self@.embeddings;
                let row = CrateRow {
                    specifier: specifier.duplicate(),
                    features: clone_strings(features),
                    status: CrateStatus::Pending,
                    created_at: String::from_str(now),
                    updated_at: String::from_str(now),
                    error_stage: None,
                    error_message: None,
                    retry_count: 0,
                    extraction_path: None,
                };
                let ghost samples_before = self@.samples;
                self.crates.push(row);
                assert(self@.samples =~= samples_before);
                assert(self@.crates =~= before.push(new_row(specifier@, strings_view(features@), now@)));
                assert(self@.chunks =~= chunks_before);
                assert(self@.embeddings =~= embeddings_before);
                assert forall|i: int, j: int|
                    0 <= i < self@.crates.len() && 0 <= j < self@.crates.len() && i != j implies !same_crate(
                    #[trigger] self@.crates[i].specifier,
                    #[trigger] self@.crates[j].specifier,
                ) by {
                    if i == before.len() {
                        assert(!is_crate(before[j].specifier, specifier@.name, version_text(specifier@.version)));
                    } else if j == before.len() {
                        assert(!is_crate(before[i].specifier, specifier@.name, version_text(specifier@.version)));
                    }
                }
                true
            },
        }
    }

    /// Removes the chunks of a crate.
    fn clear_chunks(&mut self, name: &str, version: &str)
        requires
            old(self).well_formed(),
        ensures
            final(self).well_formed(),
            final(self)@.crates == old(self)@.crates,
            final(self)@.embeddings == old(self)@.embeddings,
            final(self)@.samples == old(self)@.samples,
            final(self)@.chunks == retained(old(self)@.chunks, chunk_not_of(name@, version@)),
    {
        let ghost rows = self@.chunks;
        let ghost keep = chunk_not_of(name@, version@);
        let n = String::from_str(name);
        let v = String::from_str(version);
        let mut kept: Vec<ChunkRow> = Vec::new();
        let mut i: usize = 0;
        while i < self.chunks.len()
            invariant
                i <= self.chunks@.len(),
                rows == self@.chunks,
                rows.len() == self.chunks@.len(),
                n@ == name@,
                v@ == version@,
                keep == chunk_not_of(name@, version@),
                chunk_rows_view(kept@) == retained(rows.take(i as int), keep),
            decreases self.chunks@.len() - i,
        {
            assert(rows.take(i + 1).drop_last() =~= rows.take(i as int));
            assert(rows.take(i + 1).last() == rows[i as int]);
            let row = &self.chunks[i];
            if !(row.crate_name == n && row.crate_version == v) {
                let ghost before = kept@;
                kept.push(row.duplicate());
                assert(chunk_rows_view(kept@) =~= chunk_rows_view(before).push(rows[i as int]));
            }
            i = i + 1;
        }
        assert(rows.take(i as int) =~= rows);
        proof {
            lemma_retained_distinct(rows, keep, |a: ChunkRowView, b: ChunkRowView| chunks_clash(a, b));
        }
        let ghost emb_before = self@.embeddings;
        let ghost crates_before = self@.crates;
        let ghost samples_before = self@.samples;
        self.chunks = kept;
        assert(self@.samples =~= samples_before);
        assert(self@.embeddings =~= emb_before);
        assert(self@.crates =~= crates_before);
    }

    /// Removes the embeddings of a crate.
    fn clear_embeddings(&mut self, name: &str, version: &str)
        requires
            old(self).well_formed(),
        ensures
            final(self).well_formed(),
            final(self)@.crates == old(self)@.crates,
            final(self)@.chunks == old(self)@.chunks,
            final(self)@.samples == old(self)@.samples,
            final(self)@.embeddings == retained(old(self)@.embeddings, embedding_not_of(name@, version@)),
    {
        let ghost rows = self@.embeddings;
        let ghost keep = embedding_not_of(name@, version@);
        let n = String::from_str(name);
        let v = String::from_str(version);
        let mut kept: Vec<EmbeddingRow> = Vec::new();
        let mut i: usize = 0;
        while i < self.embeddings.len()
            invariant
                i <= self.embeddings@.len(),
                rows == self@.embeddings,
                rows.len() == self.embeddings@.len(),
                n@ == name@,
                v@ == version@,
                keep == embedding_not_of(name@, version@),
                embedding_rows_view(kept@) == retained(rows.take(i as int), keep),
            decreases self.embeddings@.len() - i,
        {
            assert(rows.take(i + 1).drop_last() =~= rows.take(i as int));
            assert(rows.take(i + 1).last() == rows[i as int]);
            let row = &self.embeddings[i];
            if !(row.crate_name == n && row.crate_version == v) {
                let ghost before = kept@;
                kept.push(row.duplicate());
                assert(embedding_rows_view(kept@) =~= embedding_rows_view(before).push(rows[i as int]));
            }
            i = i + 1;
        }
        assert(rows.take(i as int) =~= rows);
        proof {
            lemma_retained_distinct(rows, keep, |a: EmbeddingRowView, b: EmbeddingRowView| embeddings_clash(a, b));
        }
        let ghost chunks_before = self@.chunks;
        let ghost crates_before = self@.crates;
        let ghost samples_before = self@.samples;
        self.embeddings = kept;
        assert(self@.samples =~= samples_before);
        assert(self@.chunks =~= chunks_before);
        assert(self@.crates =~= crates_before);
    }

    /// Removes the code samples of a crate.
    fn clear_samples(&mut self, name: &str, version: &str)
        requires
            old(self).well_formed(),
        ensures
            final(self).well_formed(),
            final(self)@.crates == old(self)@.crates,
            final(self)@.chunks == old(self)@.chunks,
            final(self)@.embeddings == old(self)@.embeddings,
            final(self)@.samples == retained(old(self)@.samples, sample_not_of(name@, version@)),
    {
        let ghost rows = self@.samples;
        let ghost keep = sample_not_of(name@, version@);
        let n = String::from_str(name);
        let v = String::from_str(version);
        let mut kept: Vec<SampleRow> = Vec::new();
        let mut i: usize = 0;
        while i < self.samples.len()
            invariant
                i <= self.samples@.len(),
                rows == self@.samples,
                rows.len() == self.samples@.len(),
                n@ == name@,
                v@ == version@,
                keep == sample_not_of(name@, version@),
                sample_rows_view(kept@) == retained(rows.take(i as int), keep),
            decreases self.samples@.len() - i,
        {
            assert(rows.take(i + 1).drop_last() =~= rows.take(i as int));
            assert(rows.take(i + 1).last() == rows[i as int]);
            let row = &self.samples[i];
            if !(row.crate_name == n && row.crate_version == v) {
                let ghost before = kept@;
                kept.push(row.duplicate());
                assert(sample_rows_view(kept@) =~= sample_rows_view(before).push(rows[i as int]));
            }
            i = i + 1;
        }
        assert(rows.take(i as int) =~= rows);
        proof {
            lemma_retained_distinct(rows, keep, |a: SampleRowView, b: SampleRowView| samples_clash(a, b));
        }
        let ghost chunks_before = self@.chunks;
        let ghost crates_before = self@.crates;
        let ghost emb_before = self@.embeddings;
        self.samples = kept;
        assert(self@.chunks =~= chunks_before);
        assert(self@.crates =~= crates_before);
        assert(self@.embeddings =~= emb_before);
    }

    /// Stores a crate (`PersistCrate`): first its chunks, embeddings and
    /// code samples are removed, then a pending record with its features,
    /// created now, is added. Adding fails when the crate has a record
    /// already.
    pub fn persist_crate(&mut self, specifier: &CrateSpecifier, features: &Vec<String>, now: &str) -> (r:
        Result<(), DatabaseError>)
        requires
            old(self).well_formed(),
        ensures
            final(self).well_formed(),
            final(self)@.chunks == retained(
                old(self)@.chunks,
                chunk_not_of(specifier@.name, version_text(specifier@.version)),
            ),
            final(self)@.embeddings == retained(
                old(self)@.embeddings,
                embedding_not_of(specifier@.name, version_text(specifier@.version)),
            ),
            final(self)@.samples == retained(
                old(self)@.samples,
                sample_not_of(specifier@.name, version_text(specifier@.version)),
            ),
            match crate_position(old(self)@.crates, specifier@.name, version_text(specifier@.version)) {
                None => r is Ok && final(self)@.crates == old(self)@.crates.push(
                    new_row(specifier@, strings_view(features@), now@),
                ),
                Some(_) => r matches Err(e) && e.operation@ == "persist crate "@ + specifier_text(specifier@)
                    && e.error@ == duplicate_crate_message(specifier@) && final(self)@.crates == old(self)@.crates,
            },
    {
        let v = specifier.version().to_text();
        self.clear_embeddings(specifier.name(), v.as_str());
        self.clear_chunks(specifier.name(), v.as_str());
        self.clear_samples(specifier.name(), v.as_str());
        if self.create(specifier, features, now) {
            Ok(())
        } else {
            let mut op = String::from_str("persist crate ");
            op.append(specifier.to_text().as_str());
            Err(DatabaseError { operation: op, error: duplicate_message(specifier) })
        }
    }

    /// Records an event of the pipeline: `Received` creates the crate's
    /// pending record (failing when it has one), and every other event
    /// updates the crate's record as [`updated_row`] says, if it has one.
    pub fn apply_event(&mut self, event: &RecordEvent, now: &str) -> (r: Result<(), DatabaseError>)
        requires
            old(self).well_formed(),
        ensures
            final(self).well_formed(),
            final(self)@.chunks == old(self)@.chunks,
            final(self)@.embeddings == old(self)@.embeddings,
            final(self)@.samples == old(self)@.samples,
            ({
                let s = record_event_specifier(*event);
                let pos = crate_position(old(self)@.crates, s.name, version_text(s.version));
                match *event {
                    RecordEvent::Received { features, .. } => match pos {
                        None => r is Ok && final(self)@.crates == old(self)@.crates.push(
                            new_row(s, strings_view(features@), now@),
                        ),
                        Some(_) => r matches Err(e) && e.operation@ == "create crate record for "@
                            + specifier_text(s) && e.error@ == duplicate_crate_message(s) && final(self)@.crates == old(self)@.crates,
                    },
                    _ => r is Ok && match pos {
                        None => final(self)@.crates == old(self)@.crates,
                        Some(i) => final(self)@.crates == old(self)@.crates.update(
                            i,
                            updated_row(old(self)@.crates[i], *event, now@),
                        ),
                    },
                }
            }),
    {
        match event {
            RecordEvent::Received { specifier, features } => {
                if self.create(specifier, features, now) {
                    Ok(())
                } else {
                    let change = status_change(event);
                    Err(DatabaseError { operation: change.operation, error: duplicate_message(specifier) })
                }
            },
            _ => {
                let change = status_change(event);
                let specifier = event_specifier(event);
                let v = specifier.version().to_text();
                match self.find(specifier.name(), v.as_str()) {
                    None => Ok(()),
                    Some(i) => {
                        let ghost before = self@.crates;
                        let mut row = self.crates[i].duplicate();
                        row.status = change.status;
                        row.updated_at = String::from_str(now);
                        if change.counts_retry {
                            row.error_stage = change.error_stage;
                            row.error_message = change.error_message;
                            row.retry_count = row.retry_count.saturating_add(1);
                        }
                        match event {
                            RecordEvent::Downloaded { extracted_path, .. } => {
                                row.extraction_path = Some(extracted_path.clone());
                            },
                            _ => {},
                        }
                        assert(row@ == updated_row(before[i as int], *event, now@));
                        let ghost chunks_before = self@.chunks;
                        let ghost embeddings_before = self@.embeddings;
                        let ghost samples_before = self@.samples;
                        self.crates.set(i, row);
                        assert(self@.samples =~= samples_before);
                        assert(self@.crates =~= before.update(i as int, updated_row(before[i as int], *event, now@)));
                        assert(self@.chunks =~= chunks_before);
                assert(self@.embeddings =~= embeddings_before);
                        assert forall|a: int, b: int|
                            0 <= a < self@.crates.len() && 0 <= b < self@.crates.len() && a != b implies !same_crate(
                            #[trigger] self@.crates[a].specifier,
                            #[trigger] self@.crates[b].specifier,
                        ) by {
                            assert(!same_crate(before[a].specifier, before[b].specifier));
                        }
                        Ok(())
                    },
                }
            },
        }
    }

    /// The embeddings that a similarity search weighs, in the order in which
    /// they were stored (see [`searched`]), each with its chunk's text
    /// (`QuerySimilarDocs`, before scoring).
    pub fn similarity_candidates(&self, filter: &Option<CrateSpecifier>) -> (r: Vec<SearchCandidate>)
        requires
            self.well_formed(),
        ensures
            candidates_view(r@) == retained(self@.embeddings, searched(self@.chunks, search_filter(*filter))).map_values(
                |e: EmbeddingRowView| candidate_of(self@.chunks, e),
            ),
            forall|k: int|
                0 <= k < r@.len() ==> match *filter {
                    Some(c) => (#[trigger] r@[k]).crate_name@ == c@.name && r@[k].crate_version@
                        == version_text(c@.version),
                    None => true,
                },
            forall|k: int|
                0 <= k < r@.len() ==> (chunk_position(self@.chunks, (#[trigger] r@[k]).chunk_id@) matches Some(
                    p,
                ) && self@.chunks[p].content == r@[k].content@),
    {
        let ghost rows = self@.embeddings;
        let ghost keep = searched(self@.chunks, search_filter(*filter));
        let ghost f = |e: EmbeddingRowView| candidate_of(self@.chunks, e);
        let wanted: Option<(String, String)> = match filter {
            Some(c) => Some((String::from_str(c.name()), c.version().to_text())),
            None => None,
        };
        let mut out: Vec<SearchCandidate> = Vec::new();
        let mut i: usize = 0;
        while i < self.embeddings.len()
            invariant
                i <= self.embeddings@.len(),
                self.well_formed(),
                rows == self@.embeddings,
                rows.len() == self.embeddings@.len(),
                keep == searched(self@.chunks, search_filter(*filter)),
                f == (|e: EmbeddingRowView| candidate_of(self@.chunks, e)),
                match wanted {
                    Some((n, v)) => search_filter(*filter) == Some((n@, v@)),
                    None => search_filter(*filter) is None,
                },
                candidates_view(out@) == retained(rows.take(i as int), keep).map_values(f),
                forall|k: int|
                    0 <= k < out@.len() ==> match *filter {
                        Some(c) => (#[trigger] out@[k]).crate_name@ == c@.name && out@[k].crate_version@
                            == version_text(c@.version),
                        None => true,
                    },
                forall|k: int|
                    0 <= k < out@.len() ==> (chunk_position(self@.chunks, (#[trigger] out@[k]).chunk_id@) matches Some(
                        p,
                    ) && self@.chunks[p].content == out@[k].content@),
            decreases self.embeddings@.len() - i,
        {
            assert(rows.take(i + 1).drop_last() =~= rows.take(i as int));
            assert(rows.take(i + 1).last() == rows[i as int]);
            let row = &self.embeddings[i];
            let in_crate = match &wanted {
                Some((n, v)) => row.crate_name == *n && row.crate_version == *v,
                None => true,
            };
            if in_crate {
                match self.find_chunk(row.chunk_id.as_str()) {
                    Some(k) => {
                        let ghost before = out@;
                        out.push(
                            SearchCandidate {
                                chunk_id: row.chunk_id.clone(),
                                content: self.chunks[k].content.clone(),
                                crate_name: row.crate_name.clone(),
                                crate_version: row.crate_version.clone(),
                                model_name: row.model_name.clone(),
                                model_version: row.model_version.clone(),
                            },
                        );
                        assert(candidates_view(out@) =~= candidates_view(before).push(f(rows[i as int])));
                        assert(retained(rows.take(i as int), keep).push(rows[i as int]).map_values(f)
                            =~= retained(rows.take(i as int), keep).map_values(f).push(f(rows[i as int])));
                    },
                    None => {},
                }
            }
            i = i + 1;
        }
        assert(rows.take(i as int) =~= rows);
        out
    }

    /// The record of the crate `name` at the version written `version`, or,
    /// with no version, its latest record (`QueryCrate`).
    pub fn query_crate(&self, name: &str, version: &Option<String>) -> (a: CrateQueryAnswer)
        requires
            self.well_formed(),
        ensures
            answer_matches(
                a,
                match version {
                    Some(v) => match crate_position(self@.crates, name@, v@) {
                        Some(i) => Some(self@.crates[i]),
                        None => None,
                    },
                    None => match latest_position(self@.crates, name@) {
                        Some(i) => Some(self@.crates[i]),
                        None => None,
                    },
                },
            ),
    {
        let found = match version {
            Some(v) => self.find(name, v.as_str()),
            None => {
                let l = self.find_latest(name);
                proof {
                    match l {
                        Some(i) => {
                            let c = choose|k: int| is_latest(self@.crates, name@, k);
                            lemma_latest_unique(self@.crates, name@, c, i as int);
                        },
                        None => {
                            if exists|k: int| is_latest(self@.crates, name@, k) {
                                let c = choose|k: int| is_latest(self@.crates, name@, k);
                                assert(self@.crates[c].specifier.name == name@);
                            }
                        },
                    }
                }
                l
            },
        };
        match found {
            Some(i) => {
                let row = &self.crates[i];
                CrateQueryAnswer {
                    specifier: Some(row.specifier.duplicate()),
                    features: clone_strings(&row.features),
                    status: String::from_str(row.status.as_str()),
                    created_at: row.created_at.clone(),
                }
            },
            None => {
                proof {
                    reveal_strlit("not_found");
                }
                CrateQueryAnswer {
                    specifier: None,
                    features: Vec::new(),
                    status: String::from_str("not_found"),
                    created_at: String::new(),
                }
            },
        }
    }

    /// The position of the chunk with an identifier.
    fn find_chunk(&self, chunk_id: &str) -> (r: Option<usize>)
        requires
            self.well_formed(),
        ensures
            match r {
                Some(i) => chunk_position(self@.chunks, chunk_id@) == Some(i as int),
                None => chunk_position(self@.chunks, chunk_id@) is None,
            },
    {
        let ghost rows = self@.chunks;
        let id = String::from_str(chunk_id);
        let mut i: usize = 0;
        while i < self.chunks.len()
            invariant
                i <= self.chunks@.len(),
                rows == self@.chunks,
                rows.len() == self.chunks@.len(),
                store_well_formed(self@),
                id@ == chunk_id@,
                forall|j: int| 0 <= j < i ==> (#[trigger] rows[j]).chunk_id != chunk_id@,
            decreases self.chunks@.len() - i,
        {
            if self.chunks[i].chunk_id == id {
                assert(rows[i as int].chunk_id == chunk_id@);
                let ghost c = choose|k: int| 0 <= k < rows.len() && (#[trigger] rows[k]).chunk_id == chunk_id@;
                assert(chunks_clash(rows[c], rows[i as int]));
                assert(c == i as int);
                return Some(i);
            }
            i = i + 1;
        }
        None
    }

    /// Whether a chunk of the crate holds a position.
    fn position_taken(&self, name: &str, version: &str, index: usize) -> (r: bool)
        ensures
            r == exists|j: int|
                0 <= j < self@.chunks.len() && chunk_of(#[trigger] self@.chunks[j], name@, version@)
                    && self@.chunks[j].chunk_index == index,
    {
        let ghost rows = self@.chunks;
        let n = String::from_str(name);
        let v = String::from_str(version);
        let mut i: usize = 0;
        while i < self.chunks.len()
            invariant
                i <= self.chunks@.len(),
                rows == self@.chunks,
                rows.len() == self.chunks@.len(),
                n@ == name@,
                v@ == version@,
                forall|j: int|
                    0 <= j < i ==> !(chunk_of(#[trigger] rows[j], name@, version@) && rows[j].chunk_index == index),
            decreases self.chunks@.len() - i,
        {
            let row = &self.chunks[i];
            if row.crate_name == n && row.crate_version == v && row.chunk_index == index {
                assert(chunk_of(rows[i as int], name@, version@) && rows[i as int].chunk_index == index);
                return true;
            }
            i = i + 1;
        }
        false
    }

    /// Stores a documentation chunk (`PersistDocChunk`). It fails, changing
    /// nothing, when the chunk's crate has no record, when the chunk cannot
    /// be stored as it is (see [`chunk_problem`]), and when a new chunk would
    /// take a position that another chunk of the crate holds. A chunk whose
    /// identifier is stored already is updated in place (see
    /// [`refreshed_chunk`]); any other is added.
    pub fn persist_doc_chunk(&mut self, req: &PersistDocChunk) -> (r: Result<ChunkStored, DatabaseError>)
        requires
            old(self).well_formed(),
        ensures
            final(self).well_formed(),
            final(self)@.crates == old(self)@.crates,
            final(self)@.embeddings == old(self)@.embeddings,
            final(self)@.samples == old(self)@.samples,
            match chunk_refusal(old(self)@, *req) {
                Some(error) => r matches Err(e) && e.operation@ == "persist doc chunk "@ + req.chunk_id@
                    && e.error@ == error && final(self)@.chunks == old(self)@.chunks,
                None => r is Ok && final(self)@.chunks == chunks_after(old(self)@, *req),
            },
            r matches Ok(a) ==> a.chunk_id@ == req.chunk_id@ && a.specifier@ == req.specifier@
                && a.chunk_index == req.chunk_index && a.source_file@ == req.source_file@,
    {
        let version = req.specifier.version().to_text();
        let name = req.specifier.name();
        if self.find(name, version.as_str()).is_none() {
            return Err(
                DatabaseError {
                    operation: persist_chunk_operation(req.chunk_id.as_str()),
                    error: missing_crate_error(&req.specifier),
                },
            );
        }
        let content_type = req.metadata.content_type.as_str();
        if req.content.as_str().unicode_len() == 0 {
            proof {
                reveal_strlit("chunk content must not be empty");
            }
            return Err(
                DatabaseError {
                    operation: persist_chunk_operation(req.chunk_id.as_str()),
                    error: String::from_str("chunk content must not be empty"),
                },
            );
        }
        let t = String::from_str(content_type);
        if !(t == String::from_str("markdown") || t == String::from_str("rust") || t == String::from_str(
            "toml",
        ) || t == String::from_str("text")) {
            proof {
                reveal_strlit("content type must be markdown, rust, toml or text");
            }
            return Err(
                DatabaseError {
                    operation: persist_chunk_operation(req.chunk_id.as_str()),
                    error: String::from_str("content type must be markdown, rust, toml or text"),
                },
            );
        }
        let ghost before = self@.chunks;
        let ghost emb_before = self@.embeddings;
        let ack = ChunkStored {
            chunk_id: req.chunk_id.clone(),
            specifier: req.specifier.duplicate(),
            chunk_index: req.chunk_index,
            source_file: req.source_file.clone(),
        };
        match self.find_chunk(req.chunk_id.as_str()) {
            Some(p) => {
                let old_row = &self.chunks[p];
                let row = ChunkRow {
                    crate_name: old_row.crate_name.clone(),
                    crate_version: old_row.crate_version.clone(),
                    chunk_index: old_row.chunk_index,
                    chunk_id: old_row.chunk_id.clone(),
                    content: req.content.clone(),
                    source_file: req.source_file.clone(),
                    metadata: clone_metadata(&req.metadata),
                    vectorized: false,
                };
                assert(row@ == refreshed_chunk(before[p as int], *req));
                let ghost samples_before = self@.samples;
                self.chunks.set(p, row);
                assert(self@.samples =~= samples_before);
                assert(self@.chunks =~= before.update(p as int, refreshed_chunk(before[p as int], *req)));
                assert(self@.embeddings =~= emb_before);
                assert forall|i: int, j: int|
                    0 <= i < self@.chunks.len() && 0 <= j < self@.chunks.len() && i != j implies !chunks_clash(
                    #[trigger] self@.chunks[i],
                    #[trigger] self@.chunks[j],
                ) by {
                    assert(!chunks_clash(before[i], before[j]));
                }
                Ok(ack)
            },
            None => {
                if self.position_taken(name, version.as_str(), req.chunk_index) {
                    let mut m = String::from_str("chunk ");
                    push_decimal(&mut m, req.chunk_index as u64);
                    m.append(" of ");
                    m.append(req.specifier.to_text().as_str());
                    m.append(" is already stored");
                    return Err(DatabaseError { operation: persist_chunk_operation(req.chunk_id.as_str()), error: m });
                }
                let row = ChunkRow {
                    crate_name: String::from_str(name),
                    crate_version: version,
                    chunk_index: req.chunk_index,
                    chunk_id: req.chunk_id.clone(),
                    content: req.content.clone(),
                    source_file: req.source_file.clone(),
                    metadata: clone_metadata(&req.metadata),
                    vectorized: false,
                };
                assert(row@ == new_chunk(*req));
                let ghost samples_before = self@.samples;
                self.chunks.push(row);
                assert(self@.samples =~= samples_before);
                assert(self@.chunks =~= before.push(new_chunk(*req)));
                assert(self@.embeddings =~= emb_before);
                assert forall|i: int, j: int|
                    0 <= i < self@.chunks.len() && 0 <= j < self@.chunks.len() && i != j implies !chunks_clash(
                    #[trigger] self@.chunks[i],
                    #[trigger] self@.chunks[j],
                ) by {
                    if i == before.len() {
                        assert(before[j].chunk_id != req.chunk_id@);
                        assert(!(chunk_of(before[j], name@, version@) && before[j].chunk_index == req.chunk_index));
                    } else if j == before.len() {
                        assert(before[i].chunk_id != req.chunk_id@);
                        assert(!(chunk_of(before[i], name@, version@) && before[i].chunk_index == req.chunk_index));
                    } else {
                        assert(!chunks_clash(before[i], before[j]));
                    }
                }
                Ok(ack)
            },
        }
    }

    /// The position of the embedding of a chunk by a model.
    fn find_embedding(&self, chunk_id: &str, model_name: &str, model_version: &str) -> (r: Option<usize>)
        requires
            self.well_formed(),
        ensures
            match r {
                Some(i) => embedding_position(self@.embeddings, chunk_id@, model_name@, model_version@) == Some(i as int),
                None => embedding_position(self@.embeddings, chunk_id@, model_name@, model_version@) is None,
            },
    {
        let ghost rows = self@.embeddings;
        let id = String::from_str(chunk_id);
        let mn = String::from_str(model_name);
        let mv = String::from_str(model_version);
        let mut i: usize = 0;
        while i < self.embeddings.len()
            invariant
                i <= self.embeddings@.len(),
                rows == self@.embeddings,
                rows.len() == self.embeddings@.len(),
                store_well_formed(self@),
                id@ == chunk_id@,
                mn@ == model_name@,
                mv@ == model_version@,
                forall|j: int| 0 <= j < i ==> !is_embedding(#[trigger] rows[j], chunk_id@, model_name@, model_version@),
            decreases self.embeddings@.len() - i,
        {
            let row = &self.embeddings[i];
            if row.chunk_id == id && row.model_name == mn && row.model_version == mv {
                assert(is_embedding(rows[i as int], chunk_id@, model_name@, model_version@));
                let ghost c = choose|k: int|
                    0 <= k < rows.len() && is_embedding(#[trigger] rows[k], chunk_id@, model_name@, model_version@);
                assert(embeddings_clash(rows[c], rows[i as int]));
                assert(c == i as int);
                return Some(i);
            }
            i = i + 1;
        }
        None
    }

    /// Whether a chunk has an embedding.
    fn has_embedding(&self, chunk_id: &str) -> (r: bool)
        ensures
            r == exists|j: int| 0 <= j < self@.embeddings.len() && (#[trigger] self@.embeddings[j]).chunk_id == chunk_id@,
    {
        let ghost rows = self@.embeddings;
        let id = String::from_str(chunk_id);
        let mut i: usize = 0;
        while i < self.embeddings.len()
            invariant
                i <= self.embeddings@.len(),
                rows == self@.embeddings,
                rows.len() == self.embeddings@.len(),
                id@ == chunk_id@,
                forall|j: int| 0 <= j < i ==> (#[trigger] rows[j]).chunk_id != chunk_id@,
            decreases self.embeddings@.len() - i,
        {
            if self.embeddings[i].chunk_id == id {
                assert(rows[i as int].chunk_id == chunk_id@);
                return true;
            }
            i = i + 1;
        }
        false
    }

    /// Stores the embedding of a chunk by a model, of a vector with
    /// `dimension` entries (`PersistEmbedding`). It fails, changing nothing,
    /// as [`embedding_refusal`] says: when the chunk or the crate is not
    /// stored (with a warning), when the vector is empty, and when the chunk
    /// has an embedding by another model. Otherwise the embedding is
    /// updated, or added when the chunk has none, and the chunk is marked
    /// as vectorized.
    pub fn persist_embedding(
        &mut self,
        specifier: &CrateSpecifier,
        chunk_id: &str,
        dimension: usize,
        model_name: &str,
        model_version: &str,
    ) -> (r: Result<EmbeddingStored, EmbeddingRefused>)
        requires
            old(self).well_formed(),
        ensures
            final(self).well_formed(),
            final(self)@.crates == old(self)@.crates,
            final(self)@.samples == old(self)@.samples,
            match embedding_refusal(old(self)@, specifier@, chunk_id@, dimension, model_name@, model_version@) {
                Some((warning, error)) => {
                    &&& r matches Err(x) && opt_view(x.warning) == warning && x.error.operation@ == embedding_operation(
                        specifier@,
                        chunk_id@,
                    ) && x.error.error@ == error
                    &&& final(self)@.chunks == old(self)@.chunks
                    &&& final(self)@.embeddings == old(self)@.embeddings
                },
                None => {
                    &&& r matches Ok(a) && a.chunk_id@ == chunk_id@ && a.specifier@ == specifier@
                    &&& final(self)@.chunks == chunks_vectorized(old(self)@, chunk_id@)
                    &&& final(self)@.embeddings == embeddings_after(
                        old(self)@,
                        specifier@,
                        chunk_id@,
                        dimension,
                        model_name@,
                        model_version@,
                    )
                },
            },
    {
        let text = specifier.to_text();
        let mut operation = String::from_str("persist embedding for chunk ");
        operation.append(chunk_id);
        operation.append(" (crate: ");
        operation.append(text.as_str());
        operation.append(")");
        let p = match self.find_chunk(chunk_id) {
            Some(p) => p,
            None => {
                let mut w = String::from_str("Cannot persist embedding: doc_chunk '");
                w.append(chunk_id);
                w.append("' not found for crate ");
                w.append(text.as_str());
                w.append(". The chunk must be persisted before embeddings can be stored.");
                let mut e = String::from_str("Documentation chunk '");
                e.append(chunk_id);
                e.append("' not found in database. Ensure chunks are persisted before embedding vectorization.");
                return Err(
                    EmbeddingRefused { warning: Some(w), error: DatabaseError { operation, error: e } },
                );
            },
        };
        let version = specifier.version().to_text();
        if self.find(specifier.name(), version.as_str()).is_none() {
            let mut w = String::from_str("Cannot persist embedding: crate ");
            w.append(text.as_str());
            w.append(" not found in database (chunk: ");
            w.append(chunk_id);
            w.append(")");
            let mut e = String::from_str("Crate '");
            e.append(text.as_str());
            e.append("' not found in database. Ensure crate is persisted before embedding vectorization.");
            return Err(EmbeddingRefused { warning: Some(w), error: DatabaseError { operation, error: e } });
        }
        if dimension == 0 {
            let mut e = String::from_str("Failed to create embedding record for chunk '");
            e.append(chunk_id);
            e.append("': the vector is empty");
            return Err(EmbeddingRefused { warning: None, error: DatabaseError { operation, error: e } });
        }
        let ghost emb_before = self@.embeddings;
        let ghost chunks_before = self@.chunks;
        let ghost crates_before = self@.crates;
        match self.find_embedding(chunk_id, model_name, model_version) {
            Some(e) => {
                let mut row = self.embeddings[e].duplicate();
                row.dimension = dimension;
                let ghost samples_before = self@.samples;
                self.embeddings.set(e, row);
                assert(self@.samples =~= samples_before);
                assert(self@.embeddings =~= emb_before.update(
                    e as int,
                    EmbeddingRowView { dimension, ..emb_before[e as int] },
                ));
                assert forall|i: int, j: int|
                    0 <= i < self@.embeddings.len() && 0 <= j < self@.embeddings.len() && i != j implies !embeddings_clash(
                    #[trigger] self@.embeddings[i],
                    #[trigger] self@.embeddings[j],
                ) by {
                    assert(!embeddings_clash(emb_before[i], emb_before[j]));
                }
            },
            None => {
                if self.has_embedding(chunk_id) {
                    let mut e = String::from_str("Failed to create embedding record for chunk '");
                    e.append(chunk_id);
                    e.append("': the chunk has an embedding by another model");
                    return Err(EmbeddingRefused { warning: None, error: DatabaseError { operation, error: e } });
                }
                let row = EmbeddingRow {
                    chunk_id: String::from_str(chunk_id),
                    crate_name: String::from_str(specifier.name()),
                    crate_version: version,
                    dimension,
                    model_name: String::from_str(model_name),
                    model_version: String::from_str(model_version),
                };
                let ghost samples_before = self@.samples;
                self.embeddings.push(row);
                assert(self@.samples =~= samples_before);
                assert(self@.embeddings =~= emb_before.push(
                    new_embedding(specifier@, chunk_id@, dimension, model_name@, model_version@),
                ));
                assert forall|i: int, j: int|
                    0 <= i < self@.embeddings.len() && 0 <= j < self@.embeddings.len() && i != j implies !embeddings_clash(
                    #[trigger] self@.embeddings[i],
                    #[trigger] self@.embeddings[j],
                ) by {
                    if i == emb_before.len() {
                        assert(emb_before[j].chunk_id != chunk_id@);
                    } else if j == emb_before.len() {
                        assert(emb_before[i].chunk_id != chunk_id@);
                    } else {
                        assert(!embeddings_clash(emb_before[i], emb_before[j]));
                    }
                }
            },
        }
        let ghost emb_after = self@.embeddings;
        let mut chunk = self.chunks[p].duplicate();
        chunk.vectorized = true;
        let ghost samples_before = self@.samples;
        self.chunks.set(p, chunk);
        assert(self@.samples =~= samples_before);
        assert(self@.chunks =~= chunks_before.update(p as int, ChunkRowView { vectorized: true, ..chunks_before[p as int] }));
        assert(self@.embeddings =~= emb_after);
        assert(self@.crates =~= crates_before);
        assert forall|i: int, j: int|
            0 <= i < self@.chunks.len() && 0 <= j < self@.chunks.len() && i != j implies !chunks_clash(
            #[trigger] self@.chunks[i],
            #[trigger] self@.chunks[j],
        ) by {
            assert(!chunks_clash(chunks_before[i], chunks_before[j]));
        }
        proof {
            reveal_strlit("Failed to create embedding record for chunk '");
        }
        Ok(EmbeddingStored { chunk_id: String::from_str(chunk_id), specifier: specifier.duplicate() })
    }

    /// Stores a code sample of a crate (`PersistCodeSample`). It fails,
    /// changing nothing, as [`sample_refusal`] says: when the crate is not
    /// stored, when the code is empty, when the sample type is not one of
    /// `example`, `test`, `usage` and `snippet`, and when the crate has a
    /// sample at that position.
    pub fn persist_code_sample(&mut self, req: &PersistCodeSample) -> (r: Result<(), DatabaseError>)
        requires
            old(self).well_formed(),
        ensures
            final(self).well_formed(),
            final(self)@.crates == old(self)@.crates,
            final(self)@.chunks == old(self)@.chunks,
            final(self)@.embeddings == old(self)@.embeddings,
            match sample_refusal(old(self)@, *req) {
                Some((operation, error)) => r matches Err(e) && e.operation@ == operation && e.error@ == error
                    && final(self)@.samples == old(self)@.samples,
                None => r is Ok && final(self)@.samples == old(self)@.samples.push(new_sample(*req)),
            },
    {
        let text = req.specifier.to_text();
        let version = req.specifier.version().to_text();
        if self.find(req.specifier.name(), version.as_str()).is_none() {
            let mut op = String::from_str("persist code sample for ");
            op.append(text.as_str());
            let mut e = String::from_str("Crate ");
            e.append(text.as_str());
            e.append(" not found in database");
            return Err(DatabaseError { operation: op, error: e });
        }
        let mut op = String::from_str("persist code sample ");
        push_decimal(&mut op, req.sample_index as u64);
        op.append(" for ");
        op.append(text.as_str());
        if req.code.as_str().unicode_len() == 0 {
            return Err(DatabaseError { operation: op, error: String::from_str("the code is empty") });
        }
        let t = req.sample_type.clone();
        if !(t == String::from_str("example") || t == String::from_str("test") || t == String::from_str("usage")
            || t == String::from_str("snippet")) {
            return Err(
                DatabaseError {
                    operation: op,
                    error: String::from_str("sample type must be example, test, usage or snippet"),
                },
            );
        }
        let ghost rows = self@.samples;
        let ghost n = new_sample(*req);
        let name = String::from_str(req.specifier.name());
        let mut i: usize = 0;
        while i < self.samples.len()
            invariant
                i <= self.samples@.len(),
                rows == self@.samples,
                rows.len() == self.samples@.len(),
                name@ == n.crate_name,
                version@ == n.crate_version,
                n == new_sample(*req),
                self@ == old(self)@,
                store_well_formed(self@),
                crate_position(self@.crates, req.specifier@.name, version_text(req.specifier@.version)) is Some,
                req.code@.len() > 0,
                is_sample_type(req.sample_type@),
                text@ == specifier_text(req.specifier@),
                op@ == "persist code sample "@ + decimal(req.sample_index as nat) + " for "@ + specifier_text(req.specifier@),
                forall|j: int| 0 <= j < i ==> !samples_clash(#[trigger] rows[j], n),
            decreases self.samples@.len() - i,
        {
            let row = &self.samples[i];
            if row.crate_name == name && row.crate_version == version && row.sample_index == req.sample_index {
                assert(samples_clash(rows[i as int], n));
                let mut e = String::from_str("sample ");
                push_decimal(&mut e, req.sample_index as u64);
                e.append(" of ");
                e.append(text.as_str());
                e.append(" is already stored");
                return Err(DatabaseError { operation: op, error: e });
            }
            i = i + 1;
        }
        let row = SampleRow {
            crate_name: name,
            crate_version: version,
            sample_index: req.sample_index,
            code: req.code.clone(),
            sample_type: req.sample_type.clone(),
            metadata: clone_sample_metadata(&req.metadata),
        };
        let ghost chunks_before = self@.chunks;
        let ghost crates_before = self@.crates;
        let ghost emb_before = self@.embeddings;
        self.samples.push(row);
        assert(self@.samples =~= rows.push(n));
        assert(self@.chunks =~= chunks_before);
        assert(self@.crates =~= crates_before);
        assert(self@.embeddings =~= emb_before);
        assert forall|a: int, b: int|
            0 <= a < self@.samples.len() && 0 <= b < self@.samples.len() && a != b implies !samples_clash(
            #[trigger] self@.samples[a],
            #[trigger] self@.samples[b],
        ) by {
            if a == rows.len() {
                assert(!samples_clash(rows[b], n));
            } else if b == rows.len() {
                assert(!samples_clash(rows[a], n));
            } else {
                assert(!samples_clash(rows[a], rows[b]));
            }
        }
        Ok(())
    }

    /// The chunks of a crate by increasing position (`QueryDocChunks`);
    /// none when the crate has no record.
    pub fn query_doc_chunks(&self, specifier: &CrateSpecifier) -> (out: Vec<DocChunkData>)
        requires
            self.well_formed(),
        ensures
            crate_position(self@.crates, specifier@.name, version_text(specifier@.version)) is None ==> out@.len() == 0,
            crate_position(self@.crates, specifier@.name, version_text(specifier@.version)) is Some ==> chunk_listing(
                chunks_view(out@),
                self@.chunks,
                specifier@.name,
                version_text(specifier@.version),
            ),
    {
        let version = specifier.version().to_text();
        let mut out: Vec<DocChunkData> = Vec::new();
        if self.find(specifier.name(), version.as_str()).is_none() {
            return out;
        }
        let ghost rows = self@.chunks;
        let ghost name = specifier@.name;
        let ghost vt = version@;
        let n = String::from_str(specifier.name());
        proof {
            reveal(listed_from);
            reveal(all_listed);
            reveal(by_position);
            assert(chunks_view(out@) =~= Seq::<DocChunkView>::empty());
        }
        let mut i: usize = 0;
        while i < self.chunks.len()
            invariant
                i <= self.chunks@.len(),
                rows == self@.chunks,
                rows.len() == self.chunks@.len(),
                store_well_formed(self@),
                n@ == name,
                vt == version@,
                partial_listing(chunks_view(out@), rows, name, vt, i as int),
            decreases self.chunks@.len() - i,
        {
            let row = &self.chunks[i];
            let ghost o = chunks_view(out@);
            if row.crate_name == n && row.crate_version == version {
                let d = row.data();
                proof {
                    lemma_listing_other_positions(o, rows, name, vt, i as int);
                }
                let mut q: usize = 0;
                while q < out.len() && out[q].chunk_index < d.chunk_index
                    invariant
                        q <= out@.len(),
                        o == chunks_view(out@),
                        forall|k: int| 0 <= k < q ==> (#[trigger] o[k]).chunk_index < d.chunk_index,
                    decreases out@.len() - q,
                {
                    q = q + 1;
                }
                let ghost dv = d@;
                out.insert(q, d);
                proof {
                    assert(chunks_view(out@) =~= o.insert(q as int, dv));
                    lemma_listing_insert(o, rows, name, vt, i as int, q as int);
                }
            } else {
                proof {
                    lemma_listing_skip(o, rows, name, vt, i as int);
                }
            }
            i = i + 1;
        }
        proof {
            lemma_listing_complete(chunks_view(out@), rows, name, vt);
        }
        out
    }

    /// A page of the crates in the order they were stored (`ListCrates`):
    /// `limit` of them (100 when not given) from position `offset` (0 when
    /// not given), and the number of crates as a `u32` (truncated).
    pub fn list_crates(&self, limit: Option<u64>, offset: Option<u64>) -> (r: (Vec<CrateSummary>, u32))
        ensures
            ({
                let n = self@.crates.len();
                let l: int = match limit {
                    Some(l) => l as int,
                    None => 100,
                };
                let o: int = match offset {
                    Some(o) => o as int,
                    None => 0,
                };
                let start = if o < n { o } else { n as int };
                let end = if o + l < n { o + l } else { n as int };
                &&& r.0@.len() == end - start
                &&& forall|k: int| 0 <= k < r.0@.len() ==> summary_matches(#[trigger] r.0@[k], self@.crates[start + k])
                &&& r.1 == n % 0x1_0000_0000
            }),
    {
        let ghost rows = self@.crates;
        let l: u64 = match limit {
            Some(l) => l,
            None => 100,
        };
        let o: u64 = match offset {
            Some(o) => o,
            None => 0,
        };
        let n = self.crates.len();
        let start: usize = if (o as u128) < (n as u128) { o as usize } else { n };
        let end: usize = if (o as u128) + (l as u128) < (n as u128) { (o + l) as usize } else { n };
        let mut page: Vec<CrateSummary> = Vec::new();
        let mut k: usize = start;
        while k < end
            invariant
                start <= k <= end <= n,
                n == self.crates@.len(),
                rows == self@.crates,
                page@.len() == k - start,
                forall|q: int| 0 <= q < page@.len() ==> summary_matches(#[trigger] page@[q], rows[start + q]),
            decreases end - k,
        {
            let row = &self.crates[k];
            page.push(
                CrateSummary {
                    name: String::from_str(row.specifier.name()),
                    version: row.specifier.version().to_text(),
                    status: String::from_str(row.status.as_str()),
                },
            );
            k = k + 1;
        }
        let total = ((n as u64) % 0x1_0000_0000u64) as u32;
        (page, total)
    }
}

/// The crate an event is about.
fn event_specifier(e: &RecordEvent) -> (s: &CrateSpecifier)
    ensures
        s@ == record_event_specifier(*e),
{
    match e {
        RecordEvent::Received { specifier, .. } => specifier,
        RecordEvent::Downloaded { specifier, .. } => specifier,
        RecordEvent::DownloadFailed { specifier, .. } => specifier,
        RecordEvent::Extracted { specifier } => specifier,
        RecordEvent::ExtractionFailed { specifier, .. } => specifier,
        RecordEvent::Chunked { specifier, .. } => specifier,
        RecordEvent::ChunksPersisted { specifier } => specifier,
        RecordEvent::Vectorized { specifier, .. } => specifier,
        RecordEvent::EmbeddingsPersisted { specifier } => specifier,
        RecordEvent::ProcessingFailed { specifier, .. } => specifier,
    }
}

fn duplicate_message(s: &CrateSpecifier) -> (m: String)
    ensures
        m@ == duplicate_crate_message(s@),
{
    let mut m = String::from_str("crate ");
    m.append(s.to_text().as_str());
    m.append(" is already stored");
    m
}

/// The chunks listed so far for a crate: each listed chunk is one of the
/// crate's chunks among the first `i`, each of those is listed, and the
/// positions increase.
pub open spec fn partial_listing(
    o: Seq<DocChunkView>,
    rows: Seq<ChunkRowView>,
    name: Seq<char>,
    version: Seq<char>,
    i: int,
) -> bool {
    listed_from(o, rows, name, version, i) && all_listed(o, rows, name, version, i) && by_position(o)
}

/// A chunk of the crate that is not listed yet has another position than
/// every listed chunk, since no two chunks clash.
proof fn lemma_listing_other_positions(
    o: Seq<DocChunkView>,
    rows: Seq<ChunkRowView>,
    name: Seq<char>,
    version: Seq<char>,
    i: int,
)
    requires
        partial_listing(o, rows, name, version, i),
        0 <= i < rows.len(),
        chunk_of(rows[i], name, version),
        forall|a: int, b: int|
            0 <= a < rows.len() && 0 <= b < rows.len() && a != b ==> !chunks_clash(#[trigger] rows[a], #[trigger] rows[b]),
    ensures
        forall|k: int| 0 <= k < o.len() ==> (#[trigger] o[k]).chunk_index != rows[i].chunk_index,
{
    reveal(listed_from);
    assert forall|k: int| 0 <= k < o.len() implies (#[trigger] o[k]).chunk_index != rows[i].chunk_index by {
        assert(chunk_among(rows, name, version, i, o[k]));
        let p = choose|p: int| 0 <= p < i && chunk_of(rows[p], name, version) && o[k] == chunk_data(#[trigger] rows[p]);
        assert(!chunks_clash(rows[p], rows[i]));
    }
}

/// Every chunk listed so far is one of the crate's first `i` chunks.
#[verifier::opaque]
pub open spec fn listed_from(o: Seq<DocChunkView>, rows: Seq<ChunkRowView>, name: Seq<char>, version: Seq<char>, i: int) -> bool {
    forall|k: int| 0 <= k < o.len() ==> chunk_among(rows, name, version, i, #[trigger] o[k])
}

/// Each of the crate's first `i` chunks is listed.
#[verifier::opaque]
pub open spec fn all_listed(o: Seq<DocChunkView>, rows: Seq<ChunkRowView>, name: Seq<char>, version: Seq<char>, i: int) -> bool {
    forall|p: int| 0 <= p < i && chunk_of(#[trigger] rows[p], name, version) ==> listed(o, chunk_data(rows[p]))
}

/// The listed positions increase.
#[verifier::opaque]
pub open spec fn by_position(o: Seq<DocChunkView>) -> bool {
    forall|a: int, b: int| 0 <= a < b < o.len() ==> (#[trigger] o[a]).chunk_index < (#[trigger] o[b]).chunk_index
}

proof fn lemma_insert_listed_from(o: Seq<DocChunkView>, rows: Seq<ChunkRowView>, name: Seq<char>, version: Seq<char>, i: int, q: int)
    requires
        listed_from(o, rows, name, version, i),
        0 <= i < rows.len(),
        chunk_of(rows[i], name, version),
        0 <= q <= o.len(),
    ensures
        listed_from(o.insert(q, chunk_data(rows[i])), rows, name, version, i + 1),
{
    reveal(listed_from);
    let d = chunk_data(rows[i]);
    let o2 = o.insert(q, d);
    o.insert_ensures(q, d);
    assert forall|k: int| 0 <= k < o2.len() implies chunk_among(rows, name, version, i + 1, #[trigger] o2[k]) by {
        if k < q {
            assert(o2[k] == o[k]);
            assert(chunk_among(rows, name, version, i, o[k]));
            let p = choose|p: int| 0 <= p < i && chunk_of(rows[p], name, version) && o[k] == chunk_data(#[trigger] rows[p]);
            assert(o2[k] == chunk_data(rows[p]));
        } else if k == q {
            assert(o2[k] == chunk_data(rows[i]));
        } else {
            assert(o2[k] == o[k - 1]);
            assert(chunk_among(rows, name, version, i, o[k - 1]));
            let p = choose|p: int| 0 <= p < i && chunk_of(rows[p], name, version) && o[k - 1] == chunk_data(#[trigger] rows[p]);
            assert(o2[k] == chunk_data(rows[p]));
        }
    }
}

proof fn lemma_insert_all_listed(o: Seq<DocChunkView>, rows: Seq<ChunkRowView>, name: Seq<char>, version: Seq<char>, i: int, q: int)
    requires
        all_listed(o, rows, name, version, i),
        0 <= i < rows.len(),
        chunk_of(rows[i], name, version),
        0 <= q <= o.len(),
    ensures
        all_listed(o.insert(q, chunk_data(rows[i])), rows, name, version, i + 1),
{
    reveal(all_listed);
    let d = chunk_data(rows[i]);
    let o2 = o.insert(q, d);
    o.insert_ensures(q, d);
    assert forall|p: int| 0 <= p < i + 1 && chunk_of(#[trigger] rows[p], name, version) implies listed(o2, chunk_data(rows[p])) by {
        if p == i {
            assert(o2[q] == chunk_data(rows[p]));
        } else {
            assert(listed(o, chunk_data(rows[p])));
            let k0 = choose|k: int| 0 <= k < o.len() && #[trigger] o[k] == chunk_data(rows[p]);
            if k0 < q {
                assert(o2[k0] == chunk_data(rows[p]));
            } else {
                assert(o2[k0 + 1] == chunk_data(rows[p]));
            }
        }
    }
}

proof fn lemma_insert_by_position(o: Seq<DocChunkView>, q: int, d: DocChunkView)
    requires
        by_position(o),
        0 <= q <= o.len(),
        forall|k: int| 0 <= k < q ==> (#[trigger] o[k]).chunk_index < d.chunk_index,
        forall|k: int| q <= k < o.len() ==> (#[trigger] o[k]).chunk_index > d.chunk_index,
    ensures
        by_position(o.insert(q, d)),
{
    reveal(by_position);
    let o2 = o.insert(q, d);
    o.insert_ensures(q, d);
    assert forall|a: int, b: int|
        0 <= a < b < o2.len() implies (#[trigger] o2[a]).chunk_index < (#[trigger] o2[b]).chunk_index by {
        if b < q {
            assert(o2[a] == o[a] && o2[b] == o[b]);
        } else if b == q {
            assert(o2[a] == o[a]);
        } else if a < q {
            assert(o2[a] == o[a] && o2[b] == o[b - 1]);
        } else if a == q {
            assert(o2[b] == o[b - 1]);
        } else {
            assert(o2[a] == o[a - 1] && o2[b] == o[b - 1]);
        }
    }
}

/// Inserting the next chunk of the crate where its position belongs keeps
/// the listing.
proof fn lemma_listing_insert(
    o: Seq<DocChunkView>,
    rows: Seq<ChunkRowView>,
    name: Seq<char>,
    version: Seq<char>,
    i: int,
    q: int,
)
    requires
        partial_listing(o, rows, name, version, i),
        0 <= i < rows.len(),
        chunk_of(rows[i], name, version),
        0 <= q <= o.len(),
        forall|k: int| 0 <= k < q ==> (#[trigger] o[k]).chunk_index < rows[i].chunk_index,
        q < o.len() ==> o[q].chunk_index >= rows[i].chunk_index,
        forall|k: int| 0 <= k < o.len() ==> (#[trigger] o[k]).chunk_index != rows[i].chunk_index,
    ensures
        partial_listing(o.insert(q, chunk_data(rows[i])), rows, name, version, i + 1),
{
    let d = chunk_data(rows[i]);
    reveal(by_position);
    assert forall|k: int| q <= k < o.len() implies (#[trigger] o[k]).chunk_index > d.chunk_index by {
        if k > q {
            assert(o[q].chunk_index < o[k].chunk_index);
        }
    }
    lemma_insert_listed_from(o, rows, name, version, i, q);
    lemma_insert_all_listed(o, rows, name, version, i, q);
    lemma_insert_by_position(o, q, d);
}

/// A chunk of another crate leaves the listing as it is.
proof fn lemma_listing_skip(
    o: Seq<DocChunkView>,
    rows: Seq<ChunkRowView>,
    name: Seq<char>,
    version: Seq<char>,
    i: int,
)
    requires
        partial_listing(o, rows, name, version, i),
        0 <= i < rows.len(),
        !chunk_of(rows[i], name, version),
    ensures
        partial_listing(o, rows, name, version, i + 1),
{
    reveal(listed_from);
    reveal(all_listed);
    assert forall|k: int| 0 <= k < o.len() implies chunk_among(rows, name, version, i + 1, #[trigger] o[k]) by {
        assert(chunk_among(rows, name, version, i, o[k]));
        let p = choose|p: int| 0 <= p < i && chunk_of(rows[p], name, version) && o[k] == chunk_data(#[trigger] rows[p]);
        assert(o[k] == chunk_data(rows[p]));
    }
}

/// A listing of all the chunks is the crate's chunk listing.
proof fn lemma_listing_complete(o: Seq<DocChunkView>, rows: Seq<ChunkRowView>, name: Seq<char>, version: Seq<char>)
    requires
        partial_listing(o, rows, name, version, rows.len() as int),
    ensures
        chunk_listing(o, rows, name, version),
{
    reveal(listed_from);
    reveal(all_listed);
    reveal(by_position);
}

/// What is retained is exactly what `keep` accepts: every retained element
/// is accepted, and every accepted element is retained.
proof fn lemma_retained_exact<T>(s: Seq<T>, keep: spec_fn(T) -> bool)
    ensures
        forall|k: int| 0 <= k < retained(s, keep).len() ==> keep(#[trigger] retained(s, keep)[k]),
        forall|j: int| 0 <= j < s.len() && keep(#[trigger] s[j]) ==> retained(s, keep).contains(s[j]),
    decreases s.len(),
{
    let pos = lemma_retained_from(s, keep);
    assert forall|k: int| 0 <= k < retained(s, keep).len() implies keep(#[trigger] retained(s, keep)[k]) by {
        assert(retained(s, keep)[k] == s[pos[k]]);
    }
    if s.len() > 0 {
        lemma_retained_exact(s.drop_last(), keep);
        let front = retained(s.drop_last(), keep);
        assert forall|j: int| 0 <= j < s.len() && keep(#[trigger] s[j]) implies retained(s, keep).contains(s[j]) by {
            if j == s.len() - 1 {
                assert(retained(s, keep)[front.len() as int] == s[j]);
            } else {
                assert(s.drop_last()[j] == s[j]);
                let k = choose|k: int| 0 <= k < front.len() && front[k] == s[j];
                assert(retained(s, keep)[k] == s[j]);
            }
        }
    }
}

/// Once a crate is stored anew, none of its chunks, embeddings and code
/// samples remain, and those of every other crate are all kept.
pub proof fn law_storing_a_crate_clears_its_data(v: StoreView, name: Seq<char>, version: Seq<char>)
    ensures
        forall|k: int|
            0 <= k < retained(v.chunks, chunk_not_of(name, version)).len() ==> !chunk_of(
                #[trigger] retained(v.chunks, chunk_not_of(name, version))[k],
                name,
                version,
            ),
        forall|j: int|
            0 <= j < v.chunks.len() && !chunk_of(#[trigger] v.chunks[j], name, version) ==> retained(
                v.chunks,
                chunk_not_of(name, version),
            ).contains(v.chunks[j]),
        forall|k: int|
            0 <= k < retained(v.embeddings, embedding_not_of(name, version)).len() ==> {
                let e = #[trigger] retained(v.embeddings, embedding_not_of(name, version))[k];
                !(e.crate_name == name && e.crate_version == version)
            },
        forall|j: int|
            0 <= j < v.embeddings.len() && !((#[trigger] v.embeddings[j]).crate_name == name
                && v.embeddings[j].crate_version == version) ==> retained(
                v.embeddings,
                embedding_not_of(name, version),
            ).contains(v.embeddings[j]),
        forall|k: int|
            0 <= k < retained(v.samples, sample_not_of(name, version)).len() ==> {
                let c = #[trigger] retained(v.samples, sample_not_of(name, version))[k];
                !(c.crate_name == name && c.crate_version == version)
            },
        forall|j: int|
            0 <= j < v.samples.len() && !((#[trigger] v.samples[j]).crate_name == name && v.samples[j].crate_version
                == version) ==> retained(v.samples, sample_not_of(name, version)).contains(v.samples[j]),
{
    lemma_retained_exact(v.chunks, chunk_not_of(name, version));
    lemma_retained_exact(v.embeddings, embedding_not_of(name, version));
    lemma_retained_exact(v.samples, sample_not_of(name, version));
}

/// A crate stored where it had no record is then found by its name and
/// version text, as the record just added: a query gives back the crate,
/// its features, the pending status and its creation time.
pub proof fn law_stored_crate_is_found(
    rows: Seq<CrateRowView>,
    s: CrateSpecifierView,
    features: Seq<Seq<char>>,
    now: Seq<char>,
)
    requires
        crate_position(rows, s.name, version_text(s.version)) is None,
    ensures
        crate_position(rows.push(new_row(s, features, now)), s.name, version_text(s.version)) == Some(
            rows.len() as int,
        ),
        rows.push(new_row(s, features, now))[rows.len() as int] == new_row(s, features, now),
{
    let after = rows.push(new_row(s, features, now));
    assert(is_crate(after[rows.len() as int].specifier, s.name, version_text(s.version)));
    let c = choose|i: int| 0 <= i < after.len() && is_crate(#[trigger] after[i].specifier, s.name, version_text(s.version));
    if c < rows.len() {
        assert(after[c] == rows[c]);
        assert(is_crate(rows[c].specifier, s.name, version_text(s.version)));
    }
}

/// The chunks once a chunk is stored still do not clash, and the chunk is
/// found by its identifier where it was, or at the end when it is new.
proof fn lemma_chunks_after(v: StoreView, req: PersistDocChunk)
    requires
        store_well_formed(v),
        chunk_refusal(v, req) is None,
    ensures
        ({
            let c = chunks_after(v, req);
            let p = match chunk_position(v.chunks, req.chunk_id@) {
                Some(p) => p,
                None => v.chunks.len() as int,
            };
            &&& forall|i: int, j: int|
                0 <= i < c.len() && 0 <= j < c.len() && i != j ==> !chunks_clash(#[trigger] c[i], #[trigger] c[j])
            &&& chunk_position(c, req.chunk_id@) == Some(p)
            &&& c[p] == match chunk_position(v.chunks, req.chunk_id@) {
                Some(q) => refreshed_chunk(v.chunks[q], req),
                None => new_chunk(req),
            }
        }),
{
    let c = chunks_after(v, req);
    let name = req.specifier@.name;
    let version = version_text(req.specifier@.version);
    match chunk_position(v.chunks, req.chunk_id@) {
        Some(q) => {
            assert(v.chunks[q].chunk_id == req.chunk_id@);
            assert forall|i: int, j: int|
                0 <= i < c.len() && 0 <= j < c.len() && i != j implies !chunks_clash(#[trigger] c[i], #[trigger] c[j]) by {
                assert(!chunks_clash(v.chunks[i], v.chunks[j]));
            }
            assert(c[q].chunk_id == req.chunk_id@);
            let w = choose|i: int| 0 <= i < c.len() && (#[trigger] c[i]).chunk_id == req.chunk_id@;
            if w != q {
                assert(chunks_clash(c[w], c[q]));
            }
        },
        None => {
            let n = v.chunks.len() as int;
            assert forall|i: int, j: int|
                0 <= i < c.len() && 0 <= j < c.len() && i != j implies !chunks_clash(#[trigger] c[i], #[trigger] c[j]) by {
                if i == n {
                    assert(v.chunks[j].chunk_id != req.chunk_id@);
                    assert(!(chunk_of(v.chunks[j], name, version) && v.chunks[j].chunk_index == req.chunk_index));
                } else if j == n {
                    assert(v.chunks[i].chunk_id != req.chunk_id@);
                    assert(!(chunk_of(v.chunks[i], name, version) && v.chunks[i].chunk_index == req.chunk_index));
                } else {
                    assert(!chunks_clash(v.chunks[i], v.chunks[j]));
                }
            }
            assert(c[n].chunk_id == req.chunk_id@);
            let w = choose|i: int| 0 <= i < c.len() && (#[trigger] c[i]).chunk_id == req.chunk_id@;
            if w != n {
                assert(chunks_clash(c[w], c[n]));
            }
        },
    }
}

/// A chunk that was stored reads back as it was written: the chunk with
/// its identifier holds the request's text, file, content type, counts and
/// details, and is not vectorized; a new chunk belongs to the request's
/// crate at the request's position.
pub proof fn law_stored_chunk_reads_back(v: StoreView, req: PersistDocChunk)
    requires
        store_well_formed(v),
        chunk_refusal(v, req) is None,
    ensures
        chunk_position(chunks_after(v, req), req.chunk_id@) is Some,
        ({
            let c = chunks_after(v, req);
            let p = chunk_position(c, req.chunk_id@)->Some_0;
            let n = new_chunk(req);
            &&& c[p].content == n.content
            &&& c[p].source_file == n.source_file
            &&& c[p].content_type == n.content_type
            &&& c[p].token_count == n.token_count
            &&& c[p].char_count == n.char_count
            &&& c[p].start_line == n.start_line && c[p].end_line == n.end_line
            &&& c[p].parent_module == n.parent_module && c[p].item_type == n.item_type
            &&& c[p].item_name == n.item_name
            &&& !c[p].vectorized
            &&& chunk_position(v.chunks, req.chunk_id@) is None ==> c[p] == n
        }),
{
    lemma_chunks_after(v, req);
}

/// Storing the same chunk a second time changes nothing more: the second
/// request is accepted and leaves the chunks as the first left them.
pub proof fn law_storing_a_chunk_twice(v: StoreView, req: PersistDocChunk)
    requires
        store_well_formed(v),
        chunk_refusal(v, req) is None,
    ensures
        ({
            let v1 = StoreView { chunks: chunks_after(v, req), ..v };
            &&& chunk_refusal(v1, req) is None
            &&& chunks_after(v1, req) == v1.chunks
        }),
{
    lemma_chunks_after(v, req);
    let v1 = StoreView { chunks: chunks_after(v, req), ..v };
    let p = chunk_position(v1.chunks, req.chunk_id@)->Some_0;
    assert(refreshed_chunk(v1.chunks[p], req) == v1.chunks[p]);
    assert(chunks_after(v1, req) =~= v1.chunks);
}

/// Storing the same embedding a second time changes nothing more: the
/// second request is accepted and leaves chunks and embeddings as the first
/// left them.
pub proof fn law_storing_an_embedding_twice(
    v: StoreView,
    s: CrateSpecifierView,
    chunk_id: Seq<char>,
    dimension: usize,
    model_name: Seq<char>,
    model_version: Seq<char>,
)
    requires
        store_well_formed(v),
        embedding_refusal(v, s, chunk_id, dimension, model_name, model_version) is None,
    ensures
        ({
            let v1 = StoreView {
                chunks: chunks_vectorized(v, chunk_id),
                embeddings: embeddings_after(v, s, chunk_id, dimension, model_name, model_version),
                ..v
            };
            &&& embedding_refusal(v1, s, chunk_id, dimension, model_name, model_version) is None
            &&& chunks_vectorized(v1, chunk_id) == v1.chunks
            &&& embeddings_after(v1, s, chunk_id, dimension, model_name, model_version) == v1.embeddings
        }),
{
    let v1 = StoreView {
        chunks: chunks_vectorized(v, chunk_id),
        embeddings: embeddings_after(v, s, chunk_id, dimension, model_name, model_version),
        ..v
    };
    // the chunk stays where it was
    let p = chunk_position(v.chunks, chunk_id)->Some_0;
    assert(v1.chunks[p].chunk_id == chunk_id);
    let w = choose|i: int| 0 <= i < v1.chunks.len() && (#[trigger] v1.chunks[i]).chunk_id == chunk_id;
    if w != p {
        assert(v.chunks[w].chunk_id == chunk_id);
        assert(chunks_clash(v.chunks[w], v.chunks[p]));
    }
    assert(chunk_position(v1.chunks, chunk_id) == Some(p));
    assert(chunks_vectorized(v1, chunk_id) =~= v1.chunks);
    // the embedding is where it was, or at the end
    let e = match embedding_position(v.embeddings, chunk_id, model_name, model_version) {
        Some(e) => e,
        None => v.embeddings.len() as int,
    };
    assert(is_embedding(v1.embeddings[e], chunk_id, model_name, model_version));
    let x = choose|i: int|
        0 <= i < v1.embeddings.len() && is_embedding(#[trigger] v1.embeddings[i], chunk_id, model_name, model_version);
    if x != e {
        if x < v.embeddings.len() && e < v.embeddings.len() {
            assert(embeddings_clash(v.embeddings[x], v.embeddings[e]));
        } else if x < v.embeddings.len() {
            assert(is_embedding(v.embeddings[x], chunk_id, model_name, model_version));
        }
    }
    assert(embedding_position(v1.embeddings, chunk_id, model_name, model_version) == Some(e));
    assert(embeddings_after(v1, s, chunk_id, dimension, model_name, model_version) =~= v1.embeddings);
}

/// Every event of the pipeline sets the status it names on the crate's
/// record (see [`event_status`]): `pending` for a received crate, then
/// `downloaded`, `download_failed`, `extracted`, `extraction_failed`,
/// `chunked`, `complete` and `failed`; the three failures count one more
/// retry (up to the largest count), and no other event changes the count.
pub proof fn law_events_set_their_status(r: CrateRowView, e: RecordEvent, now: Seq<char>)
    ensures
        updated_row(r, e, now).status == event_status(e),
        updated_row(r, e, now).specifier == r.specifier,
        updated_row(r, e, now).created_at == r.created_at,
        updated_row(r, e, now).updated_at == now,
        (event_failure(e) is Some && r.retry_count < u64::MAX) ==> updated_row(r, e, now).retry_count
            == r.retry_count + 1,
        event_failure(e) is None ==> updated_row(r, e, now).retry_count == r.retry_count,
        event_status(e) == match e {
            RecordEvent::Received { .. } => CrateStatus::Pending,
            RecordEvent::Downloaded { .. } => CrateStatus::Downloaded,
            RecordEvent::DownloadFailed { .. } => CrateStatus::DownloadFailed,
            RecordEvent::Extracted { .. } => CrateStatus::Extracted,
            RecordEvent::ExtractionFailed { .. } => CrateStatus::ExtractionFailed,
            RecordEvent::Chunked { .. } | RecordEvent::ChunksPersisted { .. } => CrateStatus::Chunked,
            RecordEvent::Vectorized { .. } | RecordEvent::EmbeddingsPersisted { .. } => CrateStatus::Complete,
            RecordEvent::ProcessingFailed { .. } => CrateStatus::Failed,
        },
{
}

/// A crate has at most one latest record.
proof fn lemma_latest_unique(rows: Seq<CrateRowView>, name: Seq<char>, a: int, b: int)
    requires
        is_latest(rows, name, a),
        is_latest(rows, name, b),
    ensures
        a == b,
{
    if a < b {
        assert(version_below(rows[a].specifier.version, rows[b].specifier.version));
        assert(!version_below(rows[a].specifier.version, rows[b].specifier.version));
    } else if b < a {
        assert(version_below(rows[b].specifier.version, rows[a].specifier.version));
        assert(!version_below(rows[b].specifier.version, rows[a].specifier.version));
    }
}


/// A chunk of a stored crate with some text and the content type
/// `markdown`, `rust`, `toml` or `text` is stored (not refused), unless
/// another chunk of the crate already holds its position; and every content
/// type the processor gives its chunks is one of these four.
pub proof fn law_chunk_content_types_accepted(v: StoreView, req: PersistDocChunk, k: ContentType, text: Seq<char>)
    requires
        crate_position(v.crates, req.specifier@.name, version_text(req.specifier@.version)) is Some,
        req.content@.len() > 0,
        req.metadata.content_type@ == "markdown"@ || req.metadata.content_type@ == "rust"@
            || req.metadata.content_type@ == "toml"@ || req.metadata.content_type@ == "text"@,
        chunk_position(v.chunks, req.chunk_id@) is Some || forall|j: int|
            0 <= j < v.chunks.len() && chunk_of(
                #[trigger] v.chunks[j],
                req.specifier@.name,
                version_text(req.specifier@.version),
            ) ==> v.chunks[j].chunk_index != req.chunk_index,
    ensures
        chunk_problem(req.content@, req.metadata.content_type@) is None,
        chunk_refusal(v, req) is None,
        text.len() > 0 ==> chunk_problem(text, content_kind_name(k)) is None,
{
}


/// A similarity search limited to a crate weighs exactly the embeddings of
/// that crate (by name and version) whose chunk is stored; one that is not
/// limited weighs every embedding whose chunk is stored.
pub proof fn law_search_stays_in_its_crate(v: StoreView, filter: Option<CrateSpecifier>)
    ensures
        forall|k: int|
            0 <= k < retained(v.embeddings, searched(v.chunks, search_filter(filter))).len() ==> {
                let e = #[trigger] retained(v.embeddings, searched(v.chunks, search_filter(filter)))[k];
                &&& chunk_position(v.chunks, e.chunk_id) is Some
                &&& match filter {
                    Some(c) => e.crate_name == c@.name && e.crate_version == version_text(c@.version),
                    None => true,
                }
            },
        forall|j: int|
            0 <= j < v.embeddings.len() && chunk_position(v.chunks, (#[trigger] v.embeddings[j]).chunk_id)
                is Some && match filter {
                Some(c) => v.embeddings[j].crate_name == c@.name && v.embeddings[j].crate_version
                    == version_text(c@.version),
                None => true,
            } ==> retained(v.embeddings, searched(v.chunks, search_filter(filter))).contains(v.embeddings[j]),
{
    let keep = searched(v.chunks, search_filter(filter));
    lemma_retained_exact(v.embeddings, keep);
    assert forall|k: int| 0 <= k < retained(v.embeddings, keep).len() implies {
        let e = #[trigger] retained(v.embeddings, keep)[k];
        &&& chunk_position(v.chunks, e.chunk_id) is Some
        &&& match filter {
            Some(c) => e.crate_name == c@.name && e.crate_version == version_text(c@.version),
            None => true,
        }
    } by {
        assert(keep(retained(v.embeddings, keep)[k]));
    }
}


/// A chunk is refused when its crate is not stored, when its text is empty,
/// and when its content type is none of `markdown`, `rust`, `toml` and
/// `text`.
pub proof fn law_chunk_refusals(v: StoreView, req: PersistDocChunk)
    ensures
        crate_position(v.crates, req.specifier@.name, version_text(req.specifier@.version)) is None
            ==> chunk_refusal(v, req) is Some,
        req.content@.len() == 0 ==> chunk_refusal(v, req) is Some,
        !(req.metadata.content_type@ == "markdown"@ || req.metadata.content_type@ == "rust"@
            || req.metadata.content_type@ == "toml"@ || req.metadata.content_type@ == "text"@)
            ==> chunk_refusal(v, req) is Some,
{
}

} // verus!
