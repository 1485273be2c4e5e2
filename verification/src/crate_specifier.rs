//! Strongly-typed crate specifiers: a validated crate name and a semantic version.
//!
//! Versions are parsed by the `semver` crate and names are validated by
//! `cargo-util-schemas`; what those crates compute is named by the spec
//! functions [`semver_parse`] and [`package_name_check`].

use vstd::prelude::*;
use vstd::string::StrSliceExecFns;
use vstd::string::StringExecFns;

use crate::text::{decimal, push_decimal};

verus! {

/// A semantic version, as `semver` represents it: three numbers and the
/// (possibly empty) pre-release and build-metadata identifiers. Every value
/// is one that `semver` accepts: its text parses back to it.
#[derive(Debug, PartialEq, Eq, Hash)]
pub struct Version {
    major: u64,
    minor: u64,
    patch: u64,
    /// Pre-release identifiers, without the leading `-` (empty if none)
    pre: String,
    /// Build metadata, without the leading `+` (empty if none)
    build: String,
}

/// The mathematical content of a [`Version`].
pub struct VersionView {
    pub major: u64,
    pub minor: u64,
    pub patch: u64,
    pub pre: Seq<char>,
    pub build: Seq<char>,
}

impl View for Version {
    type V = VersionView;

    closed spec fn view(&self) -> VersionView {
        VersionView {
            major: self.major,
            minor: self.minor,
            patch: self.patch,
            pre: self.pre@,
            build: self.build@,
        }
    }
}

/// The canonical text of a version: `major.minor.patch`, then `-pre` and
/// `+build` when those are not empty.
pub open spec fn version_text(v: VersionView) -> Seq<char> {
    decimal(v.major as nat) + "."@ + decimal(v.minor as nat) + "."@ + decimal(v.patch as nat) + (
    if v.pre.len() > 0 {
        "-"@ + v.pre
    } else {
        Seq::empty()
    }) + (if v.build.len() > 0 {
        "+"@ + v.build
    } else {
        Seq::empty()
    })
}

/// What `semver::Version::parse` gives for a text: the version, or the
/// message of its error.
pub uninterp spec fn semver_parse(text: Seq<char>) -> Result<VersionView, Seq<char>>;

/// What `cargo_util_schemas::manifest::PackageName::new` says of a name:
/// `None` when it accepts it, otherwise the message of its error.
pub uninterp spec fn package_name_check(name: Seq<char>) -> Option<Seq<char>>;

pub open spec fn is_ascii_letter(c: char) -> bool {
    ('a' <= c && c <= 'z') || ('A' <= c && c <= 'Z')
}

pub open spec fn is_ascii_digit(c: char) -> bool {
    '0' <= c && c <= '9'
}

/// An ASCII character that may appear in a plain crate name.
pub open spec fn is_name_char(c: char) -> bool {
    is_ascii_letter(c) || is_ascii_digit(c) || c == '_' || c == '-'
}

/// A non-empty name of ASCII letters, digits, `_` and `-` whose first
/// character is a letter or `_`.
pub open spec fn is_plain_crate_name(name: Seq<char>) -> bool {
    &&& name.len() > 0
    &&& (is_ascii_letter(name[0]) || name[0] == '_')
    &&& forall|i: int| 0 <= i < name.len() ==> is_name_char(#[trigger] name[i])
}

pub open spec fn version_result_view(r: Result<Version, String>) -> Result<VersionView, Seq<char>> {
    match r {
        Ok(v) => Ok(v@),
        Err(e) => Err(e@),
    }
}

/// Parses a version with `semver::Version::parse`; an error is given as its
/// message. A parsed version's canonical text (what `semver`'s `Display`
/// writes: `major.minor.patch`, then `-pre` and `+build` when not empty, see
/// [`version_text`]) parses back to the same version.
#[verifier::external_body]
fn semver_version_parse(text: &str) -> (r: Result<Version, String>)
    ensures
        version_result_view(r) == semver_parse(text@),
        r is Ok ==> semver_parse(version_text(r->Ok_0@)) == Ok::<VersionView, Seq<char>>(r->Ok_0@),
{
    match semver::Version::parse(text) {
        Ok(v) => Ok(
            Version {
                major: v.major,
                minor: v.minor,
                patch: v.patch,
                pre: v.pre.as_str().to_string(),
                build: v.build.as_str().to_string(),
            },
        ),
        Err(e) => Err(e.to_string()),
    }
}

/// Validates a crate name with `cargo_util_schemas::manifest::PackageName::new`;
/// a rejection is given as its message. As that function's source shows, an
/// empty name, a name that starts with a digit and a name whose first
/// character is ASCII but neither a letter nor `_` are rejected, a name with an
/// ASCII character other than a letter, a digit, `_`, `-` or `:` is rejected,
/// and a plain name (see [`is_plain_crate_name`]) is accepted. Which names
/// with other characters are accepted (Unicode identifier classes) is left to
/// [`package_name_check`].
#[verifier::external_body]
fn check_package_name(name: &str) -> (r: Option<String>)
    ensures
        match r {
            Some(m) => package_name_check(name@) == Some(m@),
            None => package_name_check(name@) == None::<Seq<char>>,
        },
        name@.len() == 0 ==> r is Some,
        name@.len() > 0 && is_ascii_digit(name@[0]) ==> r is Some,
        name@.len() > 0 && (name@[0] as u32) < 128 && !is_ascii_letter(name@[0]) && name@[0] != '_'
            ==> r is Some,
        (exists|i: int|
            0 <= i < name@.len() && (name@[i] as u32) < 128 && !is_name_char(#[trigger] name@[i])
                && name@[i] != ':') ==> r is Some,
        is_plain_crate_name(name@) ==> r is None,
{
    match cargo_util_schemas::manifest::PackageName::new(name) {
        Ok(_) => None,
        Err(e) => Some(e.to_string()),
    }
}

impl Version {
    /// A version is one that `semver` gives back when its text is parsed.
    #[verifier::type_invariant]
    spec fn parses_back(self) -> bool {
        semver_parse(version_text(self@)) == Ok::<VersionView, Seq<char>>(self@)
    }

    /// The major number.
    pub fn major(&self) -> (r: u64)
        ensures
            r == self@.major,
    {
        self.major
    }

    /// The minor number.
    pub fn minor(&self) -> (r: u64)
        ensures
            r == self@.minor,
    {
        self.minor
    }

    /// The patch number.
    pub fn patch(&self) -> (r: u64)
        ensures
            r == self@.patch,
    {
        self.patch
    }

    /// The pre-release identifiers, without the leading `-` (empty if none).
    pub fn pre(&self) -> (r: &str)
        ensures
            r@ == self@.pre,
    {
        self.pre.as_str()
    }

    /// The build metadata, without the leading `+` (empty if none).
    pub fn build(&self) -> (r: &str)
        ensures
            r@ == self@.build,
    {
        self.build.as_str()
    }

    /// Parses a semantic version (see [`semver_parse`]); the text of a parsed
    /// version parses back to it.
    pub fn parse(text: &str) -> (r: Result<Version, String>)
        ensures
            version_result_view(r) == semver_parse(text@),
            r matches Ok(v) ==> semver_parse(version_text(v@)) == Ok::<VersionView, Seq<char>>(v@),
    {
        semver_version_parse(text)
    }

    /// The canonical text of this version (see [`version_text`]), which
    /// parses back to this version.
    pub fn to_text(&self) -> (s: String)
        ensures
            s@ == version_text(self@),
            semver_parse(s@) == Ok::<VersionView, Seq<char>>(self@),
    {
        proof {
            use_type_invariant(self);
        }
        let mut s = String::new();
        push_decimal(&mut s, self.major);
        s.append(".");
        push_decimal(&mut s, self.minor);
        s.append(".");
        push_decimal(&mut s, self.patch);
        if self.pre.as_str().unicode_len() > 0 {
            s.append("-");
            s.append(self.pre.as_str());
        }
        if self.build.as_str().unicode_len() > 0 {
            s.append("+");
            s.append(self.build.as_str());
        }
        proof {
            reveal_strlit(".");
            reveal_strlit("-");
            reveal_strlit("+");
        }
        assert(s@ =~= version_text(self@));
        s
    }

    /// Whether two versions are equal in all their parts.
    pub fn same_as(&self, other: &Version) -> (r: bool)
        ensures
            r == (self@ == other@),
    {
        self.major == other.major && self.minor == other.minor && self.patch == other.patch
            && self.pre == other.pre && self.build == other.build
    }

    /// A copy of this version.
    pub fn duplicate(&self) -> (r: Version)
        ensures
            r@ == self@,
    {
        proof {
            use_type_invariant(self);
        }
        Version {
            major: self.major,
            minor: self.minor,
            patch: self.patch,
            pre: self.pre.clone(),
            build: self.build.clone(),
        }
    }
}

/// Strongly-typed crate specifier combining name and version. Its name is
/// one that `cargo-util-schemas` accepts and holds no `@`.
#[derive(Debug, PartialEq, Eq, Hash)]
pub struct CrateSpecifier {
    /// Crate name (e.g., "serde")
    name: String,
    /// Semantic version
    version: Version,
}

/// The mathematical content of a [`CrateSpecifier`].
pub struct CrateSpecifierView {
    pub name: Seq<char>,
    pub version: VersionView,
}

impl View for CrateSpecifier {
    type V = CrateSpecifierView;

    closed spec fn view(&self) -> CrateSpecifierView {
        CrateSpecifierView { name: self.name@, version: self.version@ }
    }
}

/// Why a crate specifier was rejected.
#[derive(Debug, Clone, PartialEq, Eq)]
pub enum CrateSpecifierError {
    /// The name was rejected; the message says why.
    InvalidCrateName(String),
    /// The version was rejected; the message says why.
    InvalidVersion(String),
    /// The text had no `@` between name and version.
    MissingVersion(String),
}

/// The mathematical content of a [`CrateSpecifierError`].
pub enum CrateSpecifierErrorView {
    InvalidCrateName(Seq<char>),
    InvalidVersion(Seq<char>),
    MissingVersion(Seq<char>),
}

impl View for CrateSpecifierError {
    type V = CrateSpecifierErrorView;

    open spec fn view(&self) -> CrateSpecifierErrorView {
        match self {
            CrateSpecifierError::InvalidCrateName(m) => CrateSpecifierErrorView::InvalidCrateName(
                m@,
            ),
            CrateSpecifierError::InvalidVersion(m) => CrateSpecifierErrorView::InvalidVersion(m@),
            CrateSpecifierError::MissingVersion(m) => CrateSpecifierErrorView::MissingVersion(m@),
        }
    }
}

pub open spec fn specifier_result_view(r: Result<CrateSpecifier, CrateSpecifierError>) -> Result<
    CrateSpecifierView,
    CrateSpecifierErrorView,
> {
    match r {
        Ok(s) => Ok(s@),
        Err(e) => Err(e@),
    }
}

/// What validating a name gives: the specifier, or the name's rejection.
pub open spec fn specifier_of(name: Seq<char>, version: VersionView) -> Result<
    CrateSpecifierView,
    CrateSpecifierErrorView,
> {
    match package_name_check(name) {
        None => Ok(CrateSpecifierView { name, version }),
        Some(m) => Err(CrateSpecifierErrorView::InvalidCrateName(m)),
    }
}

/// What a name and a version text give: the version is parsed first, then
/// the name is validated.
pub open spec fn specifier_from_parts(name: Seq<char>, version: Seq<char>) -> Result<
    CrateSpecifierView,
    CrateSpecifierErrorView,
> {
    match semver_parse(version) {
        Err(m) => Err(CrateSpecifierErrorView::InvalidVersion(m)),
        Ok(v) => specifier_of(name, v),
    }
}

/// The position of the first occurrence of `c` in `s`, if there is one.
pub open spec fn first_index_of(s: Seq<char>, c: char) -> Option<int>
    decreases s.len(),
{
    if s.len() == 0 {
        None
    } else if s[0] == c {
        Some(0)
    } else {
        match first_index_of(s.drop_first(), c) {
            Some(i) => Some(i + 1),
            None => None,
        }
    }
}

/// The parse of a `name@version` text: split at the first `@`.
pub open spec fn specifier_parse(s: Seq<char>) -> Result<
    CrateSpecifierView,
    CrateSpecifierErrorView,
> {
    match first_index_of(s, '@') {
        None => Err(CrateSpecifierErrorView::MissingVersion(s)),
        Some(i) => specifier_from_parts(s.take(i), s.skip(i + 1)),
    }
}

/// A text `name@version` whose first `@` follows a plain crate name (see
/// [`is_plain_crate_name`]) and precedes a version that `semver` accepts.
pub open spec fn plain_specifier_text(s: Seq<char>) -> bool {
    first_index_of(s, '@') matches Some(i) && is_plain_crate_name(s.take(i)) && semver_parse(
        s.skip(i + 1),
    ) is Ok
}

/// The text of a specifier: `name@version`.
pub open spec fn specifier_text(s: CrateSpecifierView) -> Seq<char> {
    s.name + "@"@ + version_text(s.version)
}

/// `first_index_of` finds the first match.
proof fn lemma_first_index_of(s: Seq<char>, c: char, i: int)
    requires
        0 <= i < s.len(),
        s[i] == c,
        forall|j: int| 0 <= j < i ==> s[j] != c,
    ensures
        first_index_of(s, c) == Some(i),
    decreases s.len(),
{
    if i > 0 {
        lemma_first_index_of(s.drop_first(), c, i - 1);
    }
}

/// `first_index_of` finds nothing when `c` does not occur.
proof fn lemma_first_index_of_none(s: Seq<char>, c: char)
    requires
        forall|j: int| 0 <= j < s.len() ==> s[j] != c,
    ensures
        first_index_of(s, c) is None,
    decreases s.len(),
{
    if s.len() > 0 {
        lemma_first_index_of_none(s.drop_first(), c);
    }
}

impl CrateSpecifier {
    /// The name is accepted and holds no `@`.
    #[verifier::type_invariant]
    spec fn valid_name(self) -> bool {
        package_name_check(self.name@) is None && !self.name@.contains('@')
    }

    /// Create a new CrateSpecifier with validation of the name.
    pub fn new(name: String, version: Version) -> (r: Result<Self, CrateSpecifierError>)
        ensures
            specifier_result_view(r) == specifier_of(name@, version@),
            r is Ok ==> !name@.contains('@'),
            is_plain_crate_name(name@) ==> r is Ok,
            name@.len() == 0 ==> r is Err,
            name@.len() > 0 && (name@[0] as u32) < 128 && !is_ascii_letter(name@[0]) && name@[0] != '_'
                ==> r is Err,
    {
        let ghost n = name@;
        let checked = check_package_name(name.as_str());
        proof {
            if n.contains('@') {
                let i = choose|i: int| 0 <= i < n.len() && n[i] == '@';
                assert((n[i] as u32) < 128 && !is_name_char(n[i]) && n[i] != ':');
            }
        }
        match checked {
            Some(msg) => Err(CrateSpecifierError::InvalidCrateName(msg)),
            None => Ok(Self { name, version }),
        }
    }

    /// Builds a specifier from a name and the text of its version (the form
    /// with separate `name` and `version` fields).
    pub fn from_parts(name: String, version: &str) -> (r: Result<Self, CrateSpecifierError>)
        ensures
            specifier_result_view(r) == specifier_from_parts(name@, version@),
            r is Ok ==> !name@.contains('@'),
            is_plain_crate_name(name@) && semver_parse(version@) is Ok ==> r is Ok,
            r matches Ok(c) ==> specifier_parse(specifier_text(c@)) == Ok::<
                CrateSpecifierView,
                CrateSpecifierErrorView,
            >(c@),
    {
        match Version::parse(version) {
            Ok(v) => {
                let r = Self::new(name, v);
                proof {
                    if r is Ok {
                        law_text_roundtrip(r->Ok_0@);
                    }
                }
                r
            },
            Err(msg) => Err(CrateSpecifierError::InvalidVersion(msg)),
        }
    }

    /// Parses a `name@version` specifier, splitting at the first `@`. A
    /// plain name with a valid version is accepted, and the text of a parsed
    /// specifier parses back to it.
    pub fn parse(s: &str) -> (r: Result<Self, CrateSpecifierError>)
        ensures
            specifier_result_view(r) == specifier_parse(s@),
            plain_specifier_text(s@) ==> r is Ok,
            r matches Ok(c) ==> specifier_parse(specifier_text(c@)) == Ok::<
                CrateSpecifierView,
                CrateSpecifierErrorView,
            >(c@),
    {
        let n = s.unicode_len();
        let mut i: usize = 0;
        while i < n
            invariant
                n == s@.len(),
                i <= n,
                forall|j: int| 0 <= j < i ==> s@[j] != '@',
            decreases n - i,
        {
            if s.get_char(i) == '@' {
                proof {
                    lemma_first_index_of(s@, '@', i as int);
                }
                let name = s.substring_char(0, i);
                let version = s.substring_char(i + 1, n);
                assert(name@ =~= s@.take(i as int));
                assert(version@ =~= s@.skip(i + 1));
                return Self::from_parts(String::from_str(name), version);
            }
            i = i + 1;
        }
        proof {
            lemma_first_index_of_none(s@, '@');
        }
        Err(CrateSpecifierError::MissingVersion(String::from_str(s)))
    }

    /// Get the crate name
    pub fn name(&self) -> (r: &str)
        ensures
            r@ == self@.name,
    {
        self.name.as_str()
    }

    /// Get the semantic version
    pub fn version(&self) -> (r: &Version)
        ensures
            r@ == self@.version,
    {
        &self.version
    }

    /// The text of this specifier, `name@version`, which parses back to this
    /// specifier.
    pub fn to_text(&self) -> (s: String)
        ensures
            s@ == specifier_text(self@),
            specifier_parse(s@) == Ok::<CrateSpecifierView, CrateSpecifierErrorView>(self@),
    {
        proof {
            use_type_invariant(self);
            use_type_invariant(&self.version);
            law_text_roundtrip(self@);
        }
        let mut s = self.name.clone();
        s.append("@");
        let v = self.version.to_text();
        s.append(v.as_str());
        s
    }

    /// Whether two specifiers have the same name and version.
    pub fn same_as(&self, other: &CrateSpecifier) -> (r: bool)
        ensures
            r == (self@ == other@),
    {
        self.name == other.name && self.version.same_as(&other.version)
    }

    /// A copy of this specifier.
    pub fn duplicate(&self) -> (r: CrateSpecifier)
        ensures
            r@ == self@,
    {
        proof {
            use_type_invariant(self);
        }
        CrateSpecifier { name: self.name.clone(), version: self.version.duplicate() }
    }
}

impl Clone for Version {
    fn clone(&self) -> (r: Self)
        ensures
            r@ == self@,
    {
        self.duplicate()
    }
}

impl Clone for CrateSpecifier {
    fn clone(&self) -> (r: Self)
        ensures
            r@ == self@,
    {
        self.duplicate()
    }
}

impl std::str::FromStr for CrateSpecifier {
    type Err = CrateSpecifierError;

    /// Parses `name@version` (see [`CrateSpecifier::parse`]).
    fn from_str(s: &str) -> (r: Result<Self, Self::Err>)
        ensures
            specifier_result_view(r) == specifier_parse(s@),
            plain_specifier_text(s@) ==> r is Ok,
            r matches Ok(c) ==> specifier_parse(specifier_text(c@)) == Ok::<
                CrateSpecifierView,
                CrateSpecifierErrorView,
            >(c@),
    {
        CrateSpecifier::parse(s)
    }
}

impl CrateSpecifierError {
    /// The message of this error.
    pub fn message(&self) -> (s: String)
        ensures
            s@ == specifier_error_message(self@),
    {
        match self {
            CrateSpecifierError::InvalidCrateName(name) => {
                let mut s = String::from_str("Invalid crate name: '");
                s.append(name.as_str());
                s.append("'");
                s
            },
            CrateSpecifierError::InvalidVersion(e) => {
                let mut s = String::from_str("Invalid semantic version: ");
                s.append(e.as_str());
                s
            },
            CrateSpecifierError::MissingVersion(text) => {
                let mut s = String::from_str("Missing version in specifier: '");
                s.append(text.as_str());
                s.append("'. Expected format: 'name@version'");
                s
            },
        }
    }
}

/// The message of a specifier error.
pub open spec fn specifier_error_message(e: CrateSpecifierErrorView) -> Seq<char> {
    match e {
        CrateSpecifierErrorView::InvalidCrateName(m) => "Invalid crate name: '"@ + m + "'"@,
        CrateSpecifierErrorView::InvalidVersion(m) => "Invalid semantic version: "@ + m,
        CrateSpecifierErrorView::MissingVersion(t) => "Missing version in specifier: '"@ + t
            + "'. Expected format: 'name@version'"@,
    }
}


/// A specifier's text parses back to the same specifier, provided the
/// version's text parses back to the same version and the name is accepted
/// and holds no `@`: the text splits at the `@` after the name. Every
/// [`CrateSpecifier`] meets these conditions (they are the invariants of
/// [`Version`] and [`CrateSpecifier`]), so [`CrateSpecifier::to_text`]
/// always gives a text that parses back to the specifier.
pub proof fn law_text_roundtrip(s: CrateSpecifierView)
    requires
        package_name_check(s.name) is None,
        !s.name.contains('@'),
        semver_parse(version_text(s.version)) == Ok::<VersionView, Seq<char>>(s.version),
    ensures
        specifier_parse(specifier_text(s)) == Ok::<CrateSpecifierView, CrateSpecifierErrorView>(s),
{
    reveal_strlit("@");
    let t = specifier_text(s);
    let n = s.name.len() as int;
    assert(t[n] == '@');
    assert forall|j: int| 0 <= j < n implies t[j] != '@' by {
        assert(t[j] == s.name[j]);
    }
    lemma_first_index_of(t, '@', n);
    assert(t.take(n) =~= s.name);
    assert(t.skip(n + 1) =~= version_text(s.version));
}
} // verus!
