//! Chunking of a crate's documentation into embeddable segments.
//!
//! A crate's README.md and Cargo.toml are split with a Markdown-aware
//! splitter and each of its Rust source files with a plain text splitter,
//! both measuring chunks in tokens of the configured tiktoken encoding
//! (`text-splitter` and `tiktoken-rs`). Blank files are skipped; a crate
//! without any chunk is an error. Each chunk is then given an identifier
//! made of the crate's name, its version and the chunk's position.
//!
//! The caller finds and reads the files; this module decides which files are
//! read and in which order, and everything that follows the reading.

use text_splitter::{ChunkConfig, MarkdownSplitter, TextSplitter};
use vstd::prelude::*;
use vstd::string::StrSliceExecFns;
use vstd::string::StringExecFns;

use crate::actors::config::{ProcessConfig, TokenEncoding};
use crate::crate_specifier::{specifier_text, version_text, CrateSpecifier, CrateSpecifierView};
use crate::precedence::{law_fields_order, path_below, path_ranks_below};
use crate::text::{
    clone_strings, contains_seq, contains_str, lemma_zero_padded_injective, push_replacing,
    push_zero_padded, replace_char, strings_view, zero_padded,
};

verus! {

#[verifier::external_type_specification]
#[verifier::external_body]
pub struct ExCoreBPE(tiktoken_rs::CoreBPE);

/// The `cl100k_base` tokenizer (`tiktoken_rs::cl100k_base`). It is built from
/// data embedded in `tiktoken-rs`, so it is always built (the crate's own
/// `singleton` module unwraps the same call); the tokenizer is opaque here.
#[verifier::external_body]
fn cl100k_tokenizer() -> (r: Option<tiktoken_rs::CoreBPE>)
    ensures
        r is Some,
{
    tiktoken_rs::cl100k_base().ok()
}

/// The `o200k_base` tokenizer (`tiktoken_rs::o200k_base`), built from
/// embedded data and so always built.
#[verifier::external_body]
fn o200k_tokenizer() -> (r: Option<tiktoken_rs::CoreBPE>)
    ensures
        r is Some,
{
    tiktoken_rs::o200k_base().ok()
}

/// The `p50k_base` tokenizer (`tiktoken_rs::p50k_base`), built from
/// embedded data and so always built.
#[verifier::external_body]
fn p50k_tokenizer() -> (r: Option<tiktoken_rs::CoreBPE>)
    ensures
        r is Some,
{
    tiktoken_rs::p50k_base().ok()
}

/// A tokenizer of one of the tiktoken encodings.
pub struct Tokenizer {
    encoding: TokenEncoding,
    bpe: tiktoken_rs::CoreBPE,
}

impl View for Tokenizer {
    type V = TokenEncoding;

    /// A tokenizer is known by its encoding: tokenizers of one encoding are
    /// built from the same data and split every text alike.
    closed spec fn view(&self) -> TokenEncoding {
        self.encoding
    }
}

/// The number of tokens of a text in an encoding, as tiktoken counts it.
pub uninterp spec fn token_count(encoding: TokenEncoding, text: Seq<char>) -> usize;

/// The chunks that `text_splitter::MarkdownSplitter` makes of a text,
/// measuring in tokens of an encoding.
pub uninterp spec fn markdown_split(
    encoding: TokenEncoding,
    chunk_size: usize,
    overlap: usize,
    text: Seq<char>,
) -> Seq<Seq<char>>;

/// The chunks that `text_splitter::TextSplitter` makes of a text, measuring
/// in tokens of an encoding.
pub uninterp spec fn text_split(
    encoding: TokenEncoding,
    chunk_size: usize,
    overlap: usize,
    text: Seq<char>,
) -> Seq<Seq<char>>;

/// A whitespace character in Unicode's sense (the `White_Space` property),
/// as `char::is_whitespace` and `str::trim` take it.
pub open spec fn is_white_space(c: char) -> bool {
    ||| '\t' <= c <= '\r'
    ||| c == ' ' || c == '\u{85}' || c == '\u{a0}' || c == '\u{1680}'
    ||| '\u{2000}' <= c <= '\u{200a}'
    ||| c == '\u{2028}' || c == '\u{2029}' || c == '\u{202f}' || c == '\u{205f}' || c == '\u{3000}'
}

/// A text of whitespace alone, which `str::trim` leaves empty.
pub open spec fn blank(text: Seq<char>) -> bool {
    forall|i: int| 0 <= i < text.len() ==> is_white_space(#[trigger] text[i])
}

/// The number of tokens of `text` (`CoreBPE::encode_with_special_tokens`,
/// then the length): a function of the encoding and the text.
///
/// The tokenizers' splitting patterns are run by `fancy-regex`, whose
/// search fails (and `tiktoken-rs` then unwraps, panicking) once one search
/// has backtracked 1,000,000 times (`vm.rs` counts a backtrack each time a
/// failed path pops a saved alternative). No text gets near that bound with
/// these patterns (`cl100k_base`, `o200k_base`, `p50k_base`), which are
/// alternations of a fixed number of branches:
/// - a branch without lookaround or possessive repeat is handed, whole, to
///   the `regex` engine (`compile.rs`: `visit` delegates a subexpression
///   that is not hard), so it fails with one backtrack, to the next branch;
/// - a possessive repeat such as `\p{L}++` is an atomic group, which
///   `analyze.rs` marks hard, so the backtracking machine runs it; but the
///   repeat inside is handed to the `regex` engine (`compile.rs` visits an
///   atomic group's child as not hard), and the group's end drops the
///   alternatives saved within it; an optional character before it (` ?`)
///   saves one more, so such a branch fails after a few backtracks;
/// - `\s+(?!\S)` is run by the machine, which saves one alternative per
///   whitespace character but, after the run, pops at most two of them
///   before the lookahead holds or the branch is left;
/// - every character starts a match of some branch (a letter, a digit,
///   whitespace, or any other character), so each search that `find_iter`
///   makes succeeds at its first position, after a few dozen backtracks at
///   most, whatever the text.
/// The pattern of special tokens is a plain alternation of literals, which
/// `fancy-regex` runs on the `regex` engine alone and which cannot fail.
#[verifier::external_body]
fn count_tokens(tokenizer: &Tokenizer, text: &str) -> (n: usize)
    ensures
        n == token_count(tokenizer@, text@),
{
    tokenizer.bpe.encode_with_special_tokens(text).len()
}

/// The chunks of `text` made by a `text_splitter::MarkdownSplitter` of
/// `chunk_size` tokens with `overlap` tokens of overlap (`ChunkConfig::new`,
/// `with_sizer`, `with_overlap`, then `chunks`): a function of the encoding,
/// the sizes and the text. `with_overlap` fails only when the overlap is not
/// below the chunk size, which `requires` rules out. Chunks are measured with
/// `CoreBPE::encode_ordinary`, which cannot fail (see [`count_tokens`]).
/// The splitter yields no empty chunk (it skips those that trimming
/// empties), and none at all for an empty text.
#[verifier::external_body]
fn markdown_chunks(tokenizer: &Tokenizer, chunk_size: usize, overlap: usize, text: &str) -> (v: Vec<String>)
    requires
        overlap < chunk_size,
    ensures
        strings_view(v@) == markdown_split(tokenizer@, chunk_size, overlap, text@),
        forall|i: int| 0 <= i < v@.len() ==> (#[trigger] v@[i])@.len() > 0,
        text@.len() == 0 ==> v@.len() == 0,
{
    let config = ChunkConfig::new(chunk_size).with_sizer(tokenizer.bpe.clone()).with_overlap(
        overlap,
    ).expect("overlap below the chunk size");
    MarkdownSplitter::new(config).chunks(text).map(|c| c.to_string()).collect()
}

/// The chunks of `text` made by a `text_splitter::TextSplitter` of
/// `chunk_size` tokens with `overlap` tokens of overlap: a function of the
/// encoding, the sizes and the text. Chunks are measured with
/// `CoreBPE::encode_ordinary`, which cannot fail (see [`count_tokens`]).
/// The splitter yields no empty chunk (it skips those that trimming
/// empties), and none at all for an empty text.
#[verifier::external_body]
fn text_chunks(tokenizer: &Tokenizer, chunk_size: usize, overlap: usize, text: &str) -> (v: Vec<String>)
    requires
        overlap < chunk_size,
    ensures
        strings_view(v@) == text_split(tokenizer@, chunk_size, overlap, text@),
        forall|i: int| 0 <= i < v@.len() ==> (#[trigger] v@[i])@.len() > 0,
        text@.len() == 0 ==> v@.len() == 0,
{
    let config = ChunkConfig::new(chunk_size).with_sizer(tokenizer.bpe.clone()).with_overlap(
        overlap,
    ).expect("overlap below the chunk size");
    TextSplitter::new(config).chunks(text).map(|c| c.to_string()).collect()
}

/// Whether a character is whitespace (see [`is_white_space`]).
fn white_space(c: char) -> (r: bool)
    ensures
        r == is_white_space(c),
{
    ('\t' <= c && c <= '\r') || c == ' ' || c == '\u{85}' || c == '\u{a0}' || c == '\u{1680}' || (
    '\u{2000}' <= c && c <= '\u{200a}') || c == '\u{2028}' || c == '\u{2029}' || c == '\u{202f}' || c
        == '\u{205f}' || c == '\u{3000}'
}

/// Whether a text holds nothing but whitespace.
fn is_blank(text: &str) -> (r: bool)
    ensures
        r == blank(text@),
        text@.len() == 0 ==> r,
{
    let n = text.unicode_len();
    let mut i: usize = 0;
    while i < n
        invariant
            n == text@.len(),
            i <= n,
            forall|k: int| 0 <= k < i ==> is_white_space(#[trigger] text@[k]),
        decreases n - i,
    {
        if !white_space(text.get_char(i)) {
            return false;
        }
        i = i + 1;
    }
    true
}

/// Content type for a chunk of documentation
#[derive(Debug, Clone, Copy, PartialEq, Eq, Structural)]
pub enum ContentType {
    Markdown,
    Rust,
    Toml,
}

/// The name of a content type.
pub open spec fn content_kind_name(c: ContentType) -> Seq<char> {
    match c {
        ContentType::Markdown => "markdown"@,
        ContentType::Rust => "rust"@,
        ContentType::Toml => "toml"@,
    }
}

impl ContentType {
    /// The name of this content type.
    pub fn as_str(&self) -> (s: &'static str)
        ensures
            s@ == content_kind_name(*self),
    {
        match self {
            ContentType::Markdown => "markdown",
            ContentType::Rust => "rust",
            ContentType::Toml => "toml",
        }
    }
}

/// Why a crate's documentation could not be chunked.
#[derive(Debug)]
pub enum ChunkingError {
    /// The tokenizer of this encoding could not be built.
    Tokenizer(TokenEncoding),
    /// No file gave any chunk; the crate is named by its specifier text.
    NoDocumentation(String),
}

/// The name of an encoding as it is printed in messages.
pub open spec fn encoding_name(e: TokenEncoding) -> Seq<char> {
    match e {
        TokenEncoding::Cl100k => "Cl100k"@,
        TokenEncoding::O200k => "O200k"@,
        TokenEncoding::P50k => "P50k"@,
    }
}

/// The message of a chunking error.
pub open spec fn chunking_error_message(e: ChunkingError) -> Seq<char> {
    match e {
        ChunkingError::Tokenizer(enc) => "Failed to create tokenizer for "@ + encoding_name(enc),
        ChunkingError::NoDocumentation(s) => "No documentation content found for "@ + s@,
    }
}

impl ChunkingError {
    /// The message of this error.
    pub fn message(&self) -> (s: String)
        ensures
            s@ == chunking_error_message(*self),
    {
        match self {
            ChunkingError::Tokenizer(enc) => {
                let mut s = String::from_str("Failed to create tokenizer for ");
                s.append(
                    match enc {
                        TokenEncoding::Cl100k => "Cl100k",
                        TokenEncoding::O200k => "O200k",
                        TokenEncoding::P50k => "P50k",
                    },
                );
                s
            },
            ChunkingError::NoDocumentation(spec) => {
                let mut s = String::from_str("No documentation content found for ");
                s.append(spec.as_str());
                s
            },
        }
    }
}

impl Tokenizer {
    /// Builds the tokenizer of an encoding. The encodings' data is embedded
    /// in `tiktoken-rs`, so building succeeds.
    pub fn new(encoding: TokenEncoding) -> (r: Result<Tokenizer, ChunkingError>)
        ensures
            r matches Ok(t) && t@ == encoding,
    {
        let bpe = match encoding {
            TokenEncoding::Cl100k => cl100k_tokenizer(),
            TokenEncoding::O200k => o200k_tokenizer(),
            TokenEncoding::P50k => p50k_tokenizer(),
        };
        match bpe {
            Some(bpe) => Ok(Tokenizer { encoding, bpe }),
            None => Err(ChunkingError::Tokenizer(encoding)),
        }
    }
}

/// The name of the directory that a crate's archive unpacks to, `name-version`.
pub open spec fn crate_directory_name(s: CrateSpecifierView) -> Seq<char> {
    s.name + "-"@ + version_text(s.version)
}

/// The name of the directory that a crate's archive unpacks to.
pub fn crate_directory(specifier: &CrateSpecifier) -> (s: String)
    ensures
        s@ == crate_directory_name(specifier@),
{
    let mut s = String::from_str(specifier.name());
    s.append("-");
    let v = specifier.version().to_text();
    s.append(v.as_str());
    s
}

/// Whether a Rust file found under `src/` is chunked: test and benchmark
/// files are left out.
pub open spec fn is_indexed_source_path(path: Seq<char>) -> bool {
    !contains_seq(path, "/tests/"@) && !contains_seq(path, "/benches/"@)
}

/// Whether a Rust file found under `src/` is chunked.
pub fn is_indexed_source(path: &str) -> (r: bool)
    ensures
        r == is_indexed_source_path(path@),
{
    !contains_str(path, "/tests/") && !contains_str(path, "/benches/")
}

/// Whether paths are in the order of [`path_below`]: none ranks below a
/// path before it.
pub open spec fn paths_sorted(s: Seq<Seq<char>>) -> bool {
    forall|i: int, j: int| 0 <= i < j < s.len() ==> !path_below(#[trigger] s[j], #[trigger] s[i])
}

/// The Rust sources in the order in which they are chunked: the same paths,
/// sorted component by component.
pub fn sorted_source_paths(paths: &Vec<String>) -> (r: Vec<String>)
    ensures
        strings_view(r@).to_multiset() == strings_view(paths@).to_multiset(),
        paths_sorted(strings_view(r@)),
{
    let ghost src = strings_view(paths@);
    let mut r: Vec<String> = Vec::new();
    let mut i: usize = 0;
    assert(src.take(0) =~= Seq::<Seq<char>>::empty());
    assert(strings_view(r@) =~= Seq::<Seq<char>>::empty());
    while i < paths.len()
        invariant
            i <= paths@.len(),
            src == strings_view(paths@),
            strings_view(r@).to_multiset() == src.take(i as int).to_multiset(),
            paths_sorted(strings_view(r@)),
        decreases paths@.len() - i,
    {
        let p = paths[i].clone();
        let ghost w = strings_view(r@);
        let mut k: usize = 0;
        while k < r.len() && !path_ranks_below(p.as_str(), r[k].as_str())
            invariant
                k <= r@.len(),
                w == strings_view(r@),
                forall|m: int| 0 <= m < k ==> !path_below(p@, #[trigger] w[m]),
            decreases r@.len() - k,
        {
            k = k + 1;
        }
        proof {
            assert forall|a: int, b: int| 0 <= a < b < w.len() + 1 implies !path_below(
                #[trigger] w.insert(k as int, p@)[b],
                #[trigger] w.insert(k as int, p@)[a],
            ) by {
                let wi = w.insert(k as int, p@);
                if a == k {
                    law_fields_order(w[b - 1], p@, w[k as int], '/', false);
                    law_fields_order(w[k as int], w[k as int], w[k as int], '/', false);
                    assert(wi[b] == w[b - 1]);
                } else if b == k {
                    assert(wi[a] == w[a]);
                } else if a < k {
                    assert(wi[a] == w[a]);
                    if b < k {
                        assert(wi[b] == w[b]);
                    } else {
                        assert(wi[b] == w[b - 1]);
                    }
                } else {
                    assert(wi[a] == w[a - 1]);
                    assert(wi[b] == w[b - 1]);
                }
            }
            vstd::seq_lib::to_multiset_insert(w, k as int, p@);
            vstd::seq_lib::to_multiset_build(src.take(i as int), src[i as int]);
            assert(src.take(i as int).push(src[i as int]) =~= src.take(i + 1));
        }
        r.insert(k, p);
        assert(strings_view(r@) =~= w.insert(k as int, paths@[i as int]@));
        i = i + 1;
    }
    assert(src.take(paths@.len() as int) =~= src);
    r
}

/// A documentation file: its name relative to the crate, how it is split,
/// and its text.
pub struct DocumentSource {
    pub source_file: String,
    pub content_type: ContentType,
    pub content: String,
}

/// The files that are chunked, in order: README.md and Cargo.toml (both
/// split as Markdown, the second reported as TOML), then the Rust sources.
pub open spec fn documentation_plan(rust_files: Seq<Seq<char>>) -> Seq<(Seq<char>, ContentType)> {
    seq![("README.md"@, ContentType::Markdown), ("Cargo.toml"@, ContentType::Toml)] + Seq::new(
        rust_files.len(),
        |i: int| (rust_files[i], ContentType::Rust),
    )
}

/// The files that are chunked, in order (see [`documentation_plan`]).
pub fn documentation_files(rust_files: &Vec<String>) -> (r: Vec<(String, ContentType)>)
    ensures
        r@.len() == documentation_plan(strings_view(rust_files@)).len(),
        forall|i: int|
            0 <= i < r@.len() ==> (#[trigger] r@[i]).0@ == documentation_plan(
                strings_view(rust_files@),
            )[i].0 && r@[i].1 == documentation_plan(strings_view(rust_files@))[i].1,
{
    let ghost plan = documentation_plan(strings_view(rust_files@));
    let mut r: Vec<(String, ContentType)> = Vec::new();
    r.push((String::from_str("README.md"), ContentType::Markdown));
    r.push((String::from_str("Cargo.toml"), ContentType::Toml));
    let mut i: usize = 0;
    while i < rust_files.len()
        invariant
            i <= rust_files@.len(),
            plan == documentation_plan(strings_view(rust_files@)),
            r@.len() == i + 2,
            forall|k: int| 0 <= k < r@.len() ==> (#[trigger] r@[k]).0@ == plan[k].0 && r@[k].1 == plan[k].1,
        decreases rust_files@.len() - i,
    {
        r.push((rust_files[i].clone(), ContentType::Rust));
        i = i + 1;
    }
    r
}

/// One chunk of documentation: its text, its file, the name of its content
/// type and its number of tokens.
pub struct ChunkRecord {
    pub content: String,
    pub source_file: String,
    pub content_type: String,
    pub token_count: usize,
}

/// The mathematical content of a chunk record.
pub struct RecordView {
    pub content: Seq<char>,
    pub source_file: Seq<char>,
    pub content_type: Seq<char>,
    pub token_count: usize,
}

pub open spec fn records_view(v: Seq<ChunkRecord>) -> Seq<RecordView> {
    Seq::new(
        v.len(),
        |i: int|
            RecordView {
                content: v[i].content@,
                source_file: v[i].source_file@,
                content_type: v[i].content_type@,
                token_count: v[i].token_count,
            },
    )
}

/// The sum of the token counts of records, each taken as a `u32` (truncated),
/// added with wrap-around.
pub open spec fn token_total(counts: Seq<usize>) -> u32
    decreases counts.len(),
{
    if counts.len() == 0 {
        0
    } else {
        ((token_total(counts.drop_last()) + (counts.last() as u32)) % 0x1_0000_0000) as u32
    }
}

pub open spec fn record_counts(v: Seq<ChunkRecord>) -> Seq<usize> {
    Seq::new(v.len(), |i: int| v[i].token_count)
}

/// The records of one file's chunks, given the chunks and their token counts.
pub open spec fn records_of(
    source_file: Seq<char>,
    content_type: ContentType,
    pieces: Seq<Seq<char>>,
    counts: Seq<usize>,
) -> Seq<RecordView> {
    Seq::new(
        pieces.len(),
        |k: int|
            RecordView {
                content: pieces[k],
                source_file,
                content_type: content_kind_name(content_type),
                token_count: counts[k],
            },
    )
}

/// The chunks of one file: none when it is blank, otherwise the Markdown
/// splitter's for Markdown and TOML files and the text splitter's for Rust
/// files.
pub open spec fn source_pieces(
    encoding: TokenEncoding,
    chunk_size: usize,
    overlap: usize,
    source: DocumentSource,
) -> Seq<Seq<char>> {
    if blank(source.content@) {
        Seq::empty()
    } else {
        match source.content_type {
            ContentType::Rust => text_split(encoding, chunk_size, overlap, source.content@),
            _ => markdown_split(encoding, chunk_size, overlap, source.content@),
        }
    }
}

/// The records of one file, each chunk with its token count.
pub open spec fn source_records(
    encoding: TokenEncoding,
    chunk_size: usize,
    overlap: usize,
    source: DocumentSource,
) -> Seq<RecordView> {
    let pieces = source_pieces(encoding, chunk_size, overlap, source);
    records_of(
        source.source_file@,
        source.content_type,
        pieces,
        Seq::new(pieces.len(), |k: int| token_count(encoding, pieces[k])),
    )
}

/// The records of all files, file after file.
pub open spec fn all_records(
    encoding: TokenEncoding,
    chunk_size: usize,
    overlap: usize,
    sources: Seq<DocumentSource>,
) -> Seq<RecordView>
    decreases sources.len(),
{
    if sources.len() == 0 {
        Seq::empty()
    } else {
        all_records(encoding, chunk_size, overlap, sources.drop_last()) + source_records(
            encoding,
            chunk_size,
            overlap,
            sources.last(),
        )
    }
}

/// The records of one file, given its chunks and their token counts, in order.
pub fn records_for_source(source: &DocumentSource, pieces: &Vec<String>, counts: &Vec<usize>) -> (r: Vec<
    ChunkRecord,
>)
    requires
        pieces@.len() == counts@.len(),
    ensures
        records_view(r@) == records_of(
            source.source_file@,
            source.content_type,
            strings_view(pieces@),
            counts@,
        ),
{
    let kind_name = source.content_type.as_str();
    let mut r: Vec<ChunkRecord> = Vec::new();
    let mut k: usize = 0;
    while k < pieces.len()
        invariant
            k <= pieces@.len(),
            pieces@.len() == counts@.len(),
            kind_name@ == content_kind_name(source.content_type),
            records_view(r@) == records_of(
                source.source_file@,
                source.content_type,
                strings_view(pieces@),
                counts@,
            ).take(k as int),
        decreases pieces@.len() - k,
    {
        let ghost before = records_view(r@);
        r.push(
            ChunkRecord {
                content: pieces[k].clone(),
                source_file: source.source_file.clone(),
                content_type: String::from_str(kind_name),
                token_count: counts[k],
            },
        );
        assert(records_view(r@) =~= before.push(
            records_of(source.source_file@, source.content_type, strings_view(pieces@), counts@)[k as int],
        ));
        assert(records_of(source.source_file@, source.content_type, strings_view(pieces@), counts@).take(
            k + 1,
        ) =~= records_of(source.source_file@, source.content_type, strings_view(pieces@), counts@).take(
            k as int,
        ).push(
            records_of(source.source_file@, source.content_type, strings_view(pieces@), counts@)[k as int],
        ));
        k = k + 1;
    }
    assert(records_of(source.source_file@, source.content_type, strings_view(pieces@), counts@).take(
        k as int,
    ) =~= records_of(source.source_file@, source.content_type, strings_view(pieces@), counts@));
    r
}

/// Chunks the documentation files of a crate, in the order given (see
/// [`all_records`]): blank files are skipped, Markdown and TOML files are
/// split with the Markdown splitter and Rust files with the text splitter,
/// and each chunk's tokens are counted. Returns the chunks (none of them
/// empty) and their total token count when some chunk came out, and fails
/// with `NoDocumentation` exactly when none did.
pub fn chunk_sources(config: &ProcessConfig, specifier: &CrateSpecifier, sources: &Vec<DocumentSource>) -> (r: Result<
    (Vec<ChunkRecord>, u32),
    ChunkingError,
>)
    requires
        config.chunk_overlap < config.chunk_size,
    ensures
        r is Ok <==> all_records(config.token_encoding, config.chunk_size, config.chunk_overlap, sources@).len() > 0,
        match r {
            Ok((records, total)) => {
                &&& records_view(records@) == all_records(
                    config.token_encoding,
                    config.chunk_size,
                    config.chunk_overlap,
                    sources@,
                )
                &&& records@.len() > 0
                &&& forall|i: int| 0 <= i < records@.len() ==> (#[trigger] records@[i]).content@.len() > 0
                &&& total == token_total(record_counts(records@))
            },
            Err(ChunkingError::Tokenizer(_)) => false,
            Err(ChunkingError::NoDocumentation(t)) => {
                &&& all_records(config.token_encoding, config.chunk_size, config.chunk_overlap, sources@).len() == 0
                &&& t@ == specifier_text(specifier@)
            },
        },
{
    let tokenizer = match Tokenizer::new(config.token_encoding) {
        Ok(t) => t,
        Err(e) => {
            return Err(e);
        },
    };
    let ghost enc = config.token_encoding;
    let ghost size = config.chunk_size;
    let ghost overlap = config.chunk_overlap;
    let mut records: Vec<ChunkRecord> = Vec::new();
    let mut total: u32 = 0;
    let mut j: usize = 0;
    while j < sources.len()
        invariant
            j <= sources@.len(),
            tokenizer@ == enc,
            enc == config.token_encoding,
            size == config.chunk_size,
            overlap == config.chunk_overlap,
            config.chunk_overlap < config.chunk_size,
            total == token_total(record_counts(records@)),
            records_view(records@) == all_records(enc, size, overlap, sources@.take(j as int)),
            forall|k: int| 0 <= k < records@.len() ==> (#[trigger] records@[k]).content@.len() > 0,
        decreases sources@.len() - j,
    {
        let source = &sources[j];
        assert(sources@.take(j + 1).drop_last() =~= sources@.take(j as int));
        assert(sources@.take(j + 1).last() == sources@[j as int]);
        if !is_blank(source.content.as_str()) {
            let pieces = match source.content_type {
                ContentType::Rust => text_chunks(
                    &tokenizer,
                    config.chunk_size,
                    config.chunk_overlap,
                    source.content.as_str(),
                ),
                _ => markdown_chunks(
                    &tokenizer,
                    config.chunk_size,
                    config.chunk_overlap,
                    source.content.as_str(),
                ),
            };
            assert(forall|i: int| 0 <= i < pieces@.len() ==> (#[trigger] pieces@[i])@.len() > 0);
            let mut counts: Vec<usize> = Vec::new();
            let mut p: usize = 0;
            while p < pieces.len()
                invariant
                    p <= pieces@.len(),
                    counts@.len() == p,
                    tokenizer@ == enc,
                    forall|q: int| 0 <= q < p ==> #[trigger] counts@[q] == token_count(enc, pieces@[q]@),
                decreases pieces@.len() - p,
            {
                counts.push(count_tokens(&tokenizer, pieces[p].as_str()));
                p = p + 1;
            }
            let new_records = records_for_source(source, &pieces, &counts);
            assert(strings_view(pieces@) == source_pieces(enc, size, overlap, *source));
            assert(counts@ =~= Seq::new(
                strings_view(pieces@).len(),
                |k: int| token_count(enc, strings_view(pieces@)[k]),
            ));
            assert forall|k: int| 0 <= k < new_records@.len() implies (#[trigger] new_records@[k]).content@.len()
                > 0 by {
                assert(records_view(new_records@).len() == new_records@.len());
                assert(records_view(new_records@)[k].content == strings_view(pieces@)[k]);
                assert(strings_view(pieces@)[k] == pieces@[k]@);
            }
            let mut q: usize = 0;
            let ghost head = records_view(records@);
            while q < new_records.len()
                invariant
                    q <= new_records@.len(),
                    total == token_total(record_counts(records@)),
                    records_view(records@) == head + records_view(new_records@).take(q as int),
                    forall|k: int| 0 <= k < records@.len() ==> (#[trigger] records@[k]).content@.len() > 0,
                    forall|k: int| 0 <= k < new_records@.len() ==> (#[trigger] new_records@[k]).content@.len() > 0,
                decreases new_records@.len() - q,
            {
                let rec = &new_records[q];
                let ghost before = records@;
                let count = rec.token_count;
                records.push(
                    ChunkRecord {
                        content: rec.content.clone(),
                        source_file: rec.source_file.clone(),
                        content_type: rec.content_type.clone(),
                        token_count: count,
                    },
                );
                total = total.wrapping_add(count as u32);
                assert(record_counts(records@).drop_last() =~= record_counts(before));
                assert(record_counts(records@).last() == count);
                assert(records_view(records@) =~= records_view(before).push(records_view(new_records@)[q as int]));
                assert(records_view(new_records@).take(q + 1) =~= records_view(new_records@).take(q as int).push(
                    records_view(new_records@)[q as int],
                ));
                q = q + 1;
            }
            assert(records_view(new_records@).take(q as int) =~= records_view(new_records@));
        } else {
            assert(source_pieces(enc, size, overlap, *source) =~= Seq::<Seq<char>>::empty());
            assert(source_records(enc, size, overlap, *source) =~= Seq::<RecordView>::empty());
            assert(records_view(records@) =~= records_view(records@) + Seq::<RecordView>::empty());
        }
        j = j + 1;
    }
    assert(sources@.take(j as int) =~= sources@);
    if records.len() == 0 {
        return Err(ChunkingError::NoDocumentation(specifier.to_text()));
    }
    Ok((records, total))
}

/// The identifier of the chunk at `index` of a crate: the name with `-`
/// replaced by `_`, the version with `.` replaced by `_`, and the index with
/// at least three digits, joined by `_`.
pub open spec fn chunk_identifier(s: CrateSpecifierView, index: nat) -> Seq<char> {
    replace_char(s.name, '-', '_') + "_"@ + replace_char(version_text(s.version), '.', '_') + "_"@
        + zero_padded(index, 3)
}

/// The identifier of the chunk at `index` of a crate (see [`chunk_identifier`]).
pub fn chunk_id(specifier: &CrateSpecifier, index: usize) -> (s: String)
    ensures
        s@ == chunk_identifier(specifier@, index as nat),
{
    let mut s = String::new();
    push_replacing(&mut s, specifier.name(), '-', '_');
    s.append("_");
    let v = specifier.version().to_text();
    push_replacing(&mut s, v.as_str(), '.', '_');
    s.append("_");
    push_zero_padded(&mut s, index as u64, 3);
    proof {
        reveal_strlit("_");
    }
    assert(s@ =~= chunk_identifier(specifier@, index as nat));
    s
}

/// The chunks of one crate get different identifiers: the identifier
/// determines the chunk's position.
pub proof fn law_chunk_ids_distinct(s: CrateSpecifierView, i: nat, j: nat)
    requires
        chunk_identifier(s, i) == chunk_identifier(s, j),
    ensures
        i == j,
{
    let prefix = replace_char(s.name, '-', '_') + "_"@ + replace_char(version_text(s.version), '.', '_')
        + "_"@;
    assert(chunk_identifier(s, i) == prefix + zero_padded(i, 3));
    assert(chunk_identifier(s, j) == prefix + zero_padded(j, 3));
    assert((prefix + zero_padded(i, 3)).skip(prefix.len() as int) =~= zero_padded(i, 3));
    assert((prefix + zero_padded(j, 3)).skip(prefix.len() as int) =~= zero_padded(j, 3));
    lemma_zero_padded_injective(i, j, 3);
}

/// What is known of a chunk besides its text.
pub struct ChunkMetadata {
    pub content_type: String,
    pub start_line: Option<usize>,
    pub end_line: Option<usize>,
    pub token_count: usize,
    pub char_count: usize,
    pub parent_module: Option<String>,
    pub item_type: Option<String>,
    pub item_name: Option<String>,
}

/// A request to store one chunk.
pub struct PersistDocChunk {
    pub specifier: CrateSpecifier,
    pub chunk_index: usize,
    pub chunk_id: String,
    pub content: String,
    pub source_file: String,
    pub metadata: ChunkMetadata,
    pub features: Option<Vec<String>>,
}

/// The requests that store the chunks of a crate, one per chunk in order:
/// each with its position, its identifier, its text and file, its content
/// type and token count, the length of its text in UTF-8 bytes, and the
/// crate's features.
pub fn persist_requests(specifier: &CrateSpecifier, features: &Vec<String>, records: &Vec<ChunkRecord>) -> (r: Vec<
    PersistDocChunk,
>)
    ensures
        r@.len() == records@.len(),
        forall|i: int|
            0 <= i < r@.len() ==> {
                let q = #[trigger] r@[i];
                &&& q.specifier@ == specifier@
                &&& q.chunk_index == i
                &&& q.chunk_id@ == chunk_identifier(specifier@, i as nat)
                &&& q.content@ == records@[i].content@
                &&& q.source_file@ == records@[i].source_file@
                &&& q.metadata.content_type@ == records@[i].content_type@
                &&& q.metadata.token_count == records@[i].token_count
                &&& q.metadata.char_count == vstd::utf8::encode_utf8(records@[i].content@).len() as usize
                &&& q.metadata.start_line is None && q.metadata.end_line is None
                &&& q.metadata.parent_module is None && q.metadata.item_type is None
                &&& q.metadata.item_name is None
                &&& q.features matches Some(f) && strings_view(f@) == strings_view(features@)
            },
{
    let mut r: Vec<PersistDocChunk> = Vec::new();
    let mut i: usize = 0;
    while i < records.len()
        invariant
            i <= records@.len(),
            r@.len() == i,
            forall|k: int|
                0 <= k < i ==> {
                    let q = #[trigger] r@[k];
                    &&& q.specifier@ == specifier@
                    &&& q.chunk_index == k
                    &&& q.chunk_id@ == chunk_identifier(specifier@, k as nat)
                    &&& q.content@ == records@[k].content@
                    &&& q.source_file@ == records@[k].source_file@
                    &&& q.metadata.content_type@ == records@[k].content_type@
                    &&& q.metadata.token_count == records@[k].token_count
                    &&& q.metadata.char_count == vstd::utf8::encode_utf8(records@[k].content@).len() as usize
                    &&& q.metadata.start_line is None && q.metadata.end_line is None
                    &&& q.metadata.parent_module is None && q.metadata.item_type is None
                    &&& q.metadata.item_name is None
                    &&& q.features matches Some(f) && strings_view(f@) == strings_view(features@)
                },
        decreases records@.len() - i,
    {
        let rec = &records[i];
        r.push(
            PersistDocChunk {
                specifier: specifier.duplicate(),
                chunk_index: i,
                chunk_id: chunk_id(specifier, i),
                content: rec.content.clone(),
                source_file: rec.source_file.clone(),
                metadata: ChunkMetadata {
                    content_type: rec.content_type.clone(),
                    start_line: None,
                    end_line: None,
                    token_count: rec.token_count,
                    char_count: rec.content.as_str().len(),
                    parent_module: None,
                    item_type: None,
                    item_name: None,
                },
                features: Some(clone_strings(features)),
            },
        );
        i = i + 1;
    }
    r
}

/// The number of chunks as announced, a `u32` (truncated).
pub fn chunk_count(records: &Vec<ChunkRecord>) -> (n: u32)
    ensures
        n == records@.len() % 0x1_0000_0000,
{
    let len = records.len();
    ((len as u64) % 0x1_0000_0000u64) as u32
}

/// The processor's state: its configuration, which does not change.
pub struct ProcessorActor {
    config: ProcessConfig,
}

impl ProcessorActor {
    /// The configuration.
    pub closed spec fn spec_config(&self) -> ProcessConfig {
        self.config
    }

    /// Creates a new ProcessorActor with the given configuration
    pub fn new(config: ProcessConfig) -> (p: Self)
        ensures
            p.spec_config() == config,
    {
        ProcessorActor { config }
    }

    /// The configuration.
    pub fn config(&self) -> (c: &ProcessConfig)
        ensures
            *c == self.spec_config(),
    {
        &self.config
    }
}

} // verus!
