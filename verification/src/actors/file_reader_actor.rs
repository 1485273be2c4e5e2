//! Documentation extraction from an unpacked crate.
//!
//! A crate counts as extracted when its directory exists, its README.md (if
//! any), its Cargo.toml and its first source file among `lib.rs`,
//! `src/lib.rs` and `src/main.rs` can be read and none is larger than the
//! configured limit. The caller looks at the files; this module decides from
//! what was found, and classifies failures by their message.

use vstd::prelude::*;
use vstd::string::StringExecFns;

use crate::actors::config::ReadConfig;
use crate::text::{contains_seq, contains_str, decimal, push_decimal};

verus! {

/// What was found of one file.
pub enum FileState {
    /// The file does not exist.
    Missing,
    /// Its metadata could not be read; the cause.
    MetadataFailed(String),
    /// It exists with this size; `read_error` is the cause when its text
    /// could not be read.
    Present { size: u64, read_error: Option<String> },
}

/// One file: the text of its path, and what was found of it.
pub struct FileProbe {
    pub path: String,
    pub state: FileState,
}

/// What was found of an unpacked crate.
pub struct CrateProbe {
    /// The text of the crate directory's path
    pub crate_dir: String,
    /// Whether the crate directory exists
    pub dir_exists: bool,
    pub readme: FileProbe,
    pub cargo_toml: FileProbe,
    /// The source candidates, in the order of [`source_candidates`]
    pub sources: Vec<FileProbe>,
}

/// The source files looked for, in order, relative to the crate directory.
pub open spec fn source_candidate_paths() -> Seq<Seq<Seq<char>>> {
    seq![seq!["lib.rs"@], seq!["src"@, "lib.rs"@], seq!["src"@, "main.rs"@]]
}

/// The source files looked for, in order, as path components relative to
/// the crate directory: `lib.rs`, `src/lib.rs`, then `src/main.rs` for
/// binary crates.
pub fn source_candidates() -> (r: Vec<Vec<&'static str>>)
    ensures
        r@.len() == 3,
        forall|i: int, j: int|
            0 <= i < 3 && 0 <= j < r@[i]@.len() ==> (#[trigger] r@[i]@[j])@ == source_candidate_paths()[i][j],
        forall|i: int| 0 <= i < 3 ==> (#[trigger] r@[i])@.len() == source_candidate_paths()[i].len(),
{
    let mut r: Vec<Vec<&'static str>> = Vec::new();
    let mut a: Vec<&'static str> = Vec::new();
    a.push("lib.rs");
    let mut b: Vec<&'static str> = Vec::new();
    b.push("src");
    b.push("lib.rs");
    let mut c: Vec<&'static str> = Vec::new();
    c.push("src");
    c.push("main.rs");
    r.push(a);
    r.push(b);
    r.push(c);
    r
}

/// What reading one file gives: nothing when it is missing, its size when
/// it could be read within the limit, otherwise the failure's message.
pub open spec fn file_outcome(max_size: u64, f: FileProbe) -> Option<Result<u64, Seq<char>>> {
    match f.state {
        FileState::Missing => None,
        FileState::MetadataFailed(cause) => Some(
            Err("Failed to read file metadata: "@ + f.path@ + ": "@ + cause@),
        ),
        FileState::Present { size, read_error } => if size > max_size {
            Some(
                Err(
                    "File size ("@ + decimal(size as nat) + " bytes) exceeds maximum allowed ("@
                        + decimal(max_size as nat) + " bytes): "@ + f.path@,
                ),
            )
        } else {
            match read_error {
                Some(cause) => Some(Err("Failed to read file: "@ + f.path@ + ": "@ + cause@)),
                None => Some(Ok(size)),
            }
        },
    }
}

/// The first source candidate that exists, if any.
pub open spec fn first_present(max_size: u64, sources: Seq<FileProbe>) -> Option<int>
    decreases sources.len(),
{
    if sources.len() == 0 {
        None
    } else if file_outcome(max_size, sources[0]) is Some {
        Some(0)
    } else {
        match first_present(max_size, sources.drop_first()) {
            Some(i) => Some(i + 1),
            None => None,
        }
    }
}

/// `a + b`, wrapping around past `u64::MAX`.
pub open spec fn wrap_add64(a: u64, b: u64) -> u64 {
    if a + b > u64::MAX {
        (a + b - 0x1_0000_0000_0000_0000) as u64
    } else {
        (a + b) as u64
    }
}

/// The last step of an extraction: the first source candidate that exists
/// must be read; its size is added to the total and it is counted.
pub open spec fn source_stage(
    max_size: u64,
    sources: Seq<FileProbe>,
    total: u64,
    count: u32,
    crate_dir: Seq<char>,
) -> Result<(u64, u32), Seq<char>> {
    match first_present(max_size, sources) {
        None => Err("No lib.rs or main.rs found in crate directory: "@ + crate_dir),
        Some(i) => match file_outcome(max_size, sources[i]) {
            Some(Ok(src)) => Ok((wrap_add64(total, src), (count + 1) as u32)),
            Some(Err(m)) => Err(m),
            None => Err(Seq::empty()),
        },
    }
}

/// The extraction's result: the total size of the files read (adding with
/// wrap-around) and their number, or the message of the first failure.
pub open spec fn extraction(max_size: u64, p: CrateProbe) -> Result<(u64, u32), Seq<char>> {
    if !p.dir_exists {
        Err("Crate directory does not exist: "@ + p.crate_dir@)
    } else {
        let readme = file_outcome(max_size, p.readme);
        match readme {
            Some(Err(m)) => Err(m),
            _ => {
                let bytes: u64 = match readme {
                    Some(Ok(s)) => s,
                    _ => 0,
                };
                let count: u32 = if readme is Some { 1 } else { 0 };
                match file_outcome(max_size, p.cargo_toml) {
                    None => Err("Cargo.toml not found in crate directory: "@ + p.crate_dir@),
                    Some(Err(m)) => Err(m),
                    Some(Ok(cargo)) => source_stage(
                        max_size,
                        p.sources@,
                        wrap_add64(bytes, cargo),
                        (count + 1) as u32,
                        p.crate_dir@,
                    ),
                }
            },
        }
    }
}

/// Reads one file's outcome (see [`file_outcome`]).
fn read_outcome(max_size: u64, f: &FileProbe) -> (r: Option<Result<u64, String>>)
    ensures
        match (r, file_outcome(max_size, *f)) {
            (None, None) => true,
            (Some(Ok(a)), Some(Ok(b))) => a == b,
            (Some(Err(a)), Some(Err(b))) => a@ == b,
            _ => false,
        },
{
    match &f.state {
        FileState::Missing => None,
        FileState::MetadataFailed(cause) => {
            let mut m = String::from_str("Failed to read file metadata: ");
            m.append(f.path.as_str());
            m.append(": ");
            m.append(cause.as_str());
            Some(Err(m))
        },
        FileState::Present { size, read_error } => {
            if *size > max_size {
                let mut m = String::from_str("File size (");
                push_decimal(&mut m, *size);
                m.append(" bytes) exceeds maximum allowed (");
                push_decimal(&mut m, max_size);
                m.append(" bytes): ");
                m.append(f.path.as_str());
                Some(Err(m))
            } else {
                match read_error {
                    Some(cause) => {
                        let mut m = String::from_str("Failed to read file: ");
                        m.append(f.path.as_str());
                        m.append(": ");
                        m.append(cause.as_str());
                        Some(Err(m))
                    },
                    None => Some(Ok(*size)),
                }
            }
        },
    }
}

/// Decides the extraction of a crate from what was found of its files (see
/// [`extraction`]).
pub fn extract_documentation(config: &ReadConfig, probe: &CrateProbe) -> (r: Result<(u64, u32), String>)
    ensures
        match (r, extraction(config.max_file_size_bytes, *probe)) {
            (Ok(a), Ok(b)) => a == b,
            (Err(a), Err(b)) => a@ == b,
            _ => false,
        },
{
    let max = config.max_file_size_bytes;
    if !probe.dir_exists {
        let mut m = String::from_str("Crate directory does not exist: ");
        m.append(probe.crate_dir.as_str());
        return Err(m);
    }
    let mut total: u64 = 0;
    let mut count: u32 = 0;
    match read_outcome(max, &probe.readme) {
        Some(Err(m)) => {
            return Err(m);
        },
        Some(Ok(s)) => {
            total = s;
            count = 1;
        },
        None => {},
    }
    match read_outcome(max, &probe.cargo_toml) {
        None => {
            let mut m = String::from_str("Cargo.toml not found in crate directory: ");
            m.append(probe.crate_dir.as_str());
            Err(m)
        },
        Some(Err(m)) => Err(m),
        Some(Ok(cargo)) => {
            total = total.wrapping_add(cargo);
            count = count + 1;
            let ghost sources = probe.sources@;
            let mut i: usize = 0;
            assert(sources.skip(0) =~= sources);
            while i < probe.sources.len()
                invariant
                    i <= sources.len(),
                    sources == probe.sources@,
                    count <= 2,
                    max == config.max_file_size_bytes,
                    extraction(max, *probe) == source_stage(max, sources, total, count, probe.crate_dir@),
                    first_present(max, sources) == match first_present(max, sources.skip(i as int)) {
                        Some(k) => Some(k + i),
                        None => None::<int>,
                    },
                decreases sources.len() - i,
            {
                let ghost rest = sources.skip(i as int);
                assert(rest[0] == sources[i as int]);
                match read_outcome(max, &probe.sources[i]) {
                    Some(Err(m)) => {
                        assert(rest.len() > 0 && file_outcome(max, rest[0]) is Some);
                        assert(first_present(max, rest) == Some(0int));
                        return Err(m);
                    },
                    Some(Ok(src)) => {
                        assert(rest.len() > 0 && file_outcome(max, rest[0]) is Some);
                        assert(first_present(max, rest) == Some(0int));
                        let t = total.wrapping_add(src);
                        return Ok((t, count + 1));
                    },
                    None => {},
                }
                assert(rest.drop_first() =~= sources.skip(i + 1));
                i = i + 1;
            }
            let mut m = String::from_str("No lib.rs or main.rs found in crate directory: ");
            m.append(probe.crate_dir.as_str());
            Err(m)
        },
    }
}

/// The kind of an extraction failure.
#[derive(Debug, Clone, Copy, PartialEq, Eq, Structural)]
pub enum ExtractionErrorKind {
    FileNotFound,
    FileTooLarge,
    PermissionDenied,
    InvalidFormat,
    Other,
}

/// The kind of an extraction failure, judged from its message.
pub open spec fn extraction_error_kind(m: Seq<char>) -> ExtractionErrorKind {
    if contains_seq(m, "does not exist"@) || contains_seq(m, "not found"@) {
        ExtractionErrorKind::FileNotFound
    } else if contains_seq(m, "exceeds maximum"@) || contains_seq(m, "too large"@) {
        ExtractionErrorKind::FileTooLarge
    } else if contains_seq(m, "Permission denied"@) || contains_seq(m, "access denied"@)
        || contains_seq(m, "Forbidden"@) {
        ExtractionErrorKind::PermissionDenied
    } else if contains_seq(m, "Invalid"@) || contains_seq(m, "malformed"@) {
        ExtractionErrorKind::InvalidFormat
    } else {
        ExtractionErrorKind::Other
    }
}

/// Classifies an extraction failure by its message (see [`extraction_error_kind`]).
pub fn classify_extraction_error(message: &str) -> (k: ExtractionErrorKind)
    ensures
        k == extraction_error_kind(message@),
{
    if contains_str(message, "does not exist") || contains_str(message, "not found") {
        ExtractionErrorKind::FileNotFound
    } else if contains_str(message, "exceeds maximum") || contains_str(message, "too large") {
        ExtractionErrorKind::FileTooLarge
    } else if contains_str(message, "Permission denied") || contains_str(message, "access denied")
        || contains_str(message, "Forbidden") {
        ExtractionErrorKind::PermissionDenied
    } else if contains_str(message, "Invalid") || contains_str(message, "malformed") {
        ExtractionErrorKind::InvalidFormat
    } else {
        ExtractionErrorKind::Other
    }
}

/// The file reader's state: its configuration, which does not change.
pub struct FileReaderActor {
    config: ReadConfig,
}

impl FileReaderActor {
    /// The configuration.
    pub closed spec fn spec_config(&self) -> ReadConfig {
        self.config
    }

    /// Creates a new FileReaderActor with the given configuration
    pub fn new(config: ReadConfig) -> (f: Self)
        ensures
            f.spec_config() == config,
    {
        FileReaderActor { config }
    }

    /// The configuration.
    pub fn config(&self) -> (c: &ReadConfig)
        ensures
            *c == self.spec_config(),
    {
        &self.config
    }
}


/// The first source candidate that exists is the first one not missing.
proof fn lemma_first_present(max_size: u64, sources: Seq<FileProbe>)
    ensures
        match first_present(max_size, sources) {
            Some(i) => 0 <= i < sources.len() && !(sources[i].state is Missing) && forall|j: int|
                0 <= j < i ==> (#[trigger] sources[j]).state is Missing,
            None => forall|j: int| 0 <= j < sources.len() ==> (#[trigger] sources[j]).state is Missing,
        },
    decreases sources.len(),
{
    if sources.len() > 0 {
        lemma_first_present(max_size, sources.drop_first());
        assert forall|j: int| 1 <= j < sources.len() implies sources[j] == sources.drop_first()[j - 1] by {}
    }
}

/// A file that exists, is within the size limit and could be read.
pub open spec fn readable(max_size: u64, f: FileProbe) -> bool {
    f.state matches FileState::Present { size, read_error } && size <= max_size && read_error is None
}

/// An extraction succeeds exactly when the crate directory exists, the
/// README is missing or readable, Cargo.toml is readable, and the first
/// source candidate that exists is readable. A successful extraction reads
/// Cargo.toml, the README when it exists, and that source file: it counts
/// exactly those files and adds up their sizes (wrapping around past
/// `u64::MAX`).
pub proof fn law_extraction_counts_files_read(max_size: u64, p: CrateProbe)
    ensures
        extraction(max_size, p) is Ok <==> {
            &&& p.dir_exists
            &&& (p.readme.state is Missing || readable(max_size, p.readme))
            &&& readable(max_size, p.cargo_toml)
            &&& exists|i: int|
                #![trigger p.sources@[i]]
                {
                    &&& 0 <= i < p.sources@.len()
                    &&& forall|j: int| 0 <= j < i ==> (#[trigger] p.sources@[j]).state is Missing
                    &&& readable(max_size, p.sources@[i])
                }
        },
        extraction(max_size, p) matches Ok((bytes, count)) ==> {
            &&& count == 2 + (if p.readme.state is Missing { 0int } else { 1int })
            &&& p.cargo_toml.state matches FileState::Present { size: cargo, .. }
            &&& exists|i: int|
                #![trigger p.sources@[i]]
                {
                    &&& 0 <= i < p.sources@.len()
                    &&& forall|j: int| 0 <= j < i ==> (#[trigger] p.sources@[j]).state is Missing
                    &&& p.sources@[i].state matches FileState::Present { size: src, .. }
                    &&& bytes == wrap_add64(
                        wrap_add64(
                            match p.readme.state {
                                FileState::Present { size, .. } => size,
                                _ => 0,
                            },
                            cargo,
                        ),
                        src,
                    )
                }
        },
{
    lemma_first_present(max_size, p.sources@);
}

} // verus!
