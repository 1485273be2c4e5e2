//! Semantic-version precedence, and the order of relative paths.
//!
//! Versions compare by their major, minor and patch numbers, then by their
//! pre-release identifiers: a release ranks above its pre-releases, and
//! pre-releases compare identifier by identifier (numeric identifiers by
//! value and below alphanumeric ones, alphanumeric ones in ASCII order, a
//! shorter list below a longer one that it begins). Build metadata plays
//! no part in precedence. Relative paths are ordered the same way, component
//! by component.

use vstd::prelude::*;
use vstd::string::StrSliceExecFns;

use crate::crate_specifier::{is_ascii_digit, Version, VersionView};

verus! {

/// Lexicographic order of texts by character (the order of their UTF-8
/// bytes too); a proper prefix ranks below the longer text.
pub open spec fn text_below(a: Seq<char>, b: Seq<char>) -> bool
    decreases a.len(),
{
    if b.len() == 0 {
        false
    } else if a.len() == 0 {
        true
    } else if a[0] != b[0] {
        a[0] < b[0]
    } else {
        text_below(a.drop_first(), b.drop_first())
    }
}

/// A text made of ASCII digits only.
pub open spec fn all_digits(s: Seq<char>) -> bool {
    forall|i: int| 0 <= i < s.len() ==> is_ascii_digit(#[trigger] s[i])
}

/// The order of two pre-release identifiers: numeric ones by value (a
/// shorter one first, then by text), numeric below alphanumeric, and
/// alphanumeric ones in ASCII order.
pub open spec fn identifier_below(a: Seq<char>, b: Seq<char>) -> bool {
    if all_digits(a) && all_digits(b) {
        a.len() < b.len() || (a.len() == b.len() && text_below(a, b))
    } else if all_digits(a) {
        true
    } else if all_digits(b) {
        false
    } else {
        text_below(a, b)
    }
}

/// The length of the first field of a text whose fields are separated by
/// `sep`.
pub open spec fn field_end(s: Seq<char>, sep: char) -> nat
    decreases s.len(),
{
    if s.len() == 0 {
        0
    } else if s[0] == sep {
        0
    } else {
        1 + field_end(s.drop_first(), sep)
    }
}

/// The order of two fields: pre-release identifiers (`numeric`) in the
/// order of [`identifier_below`], other fields by text.
pub open spec fn element_below(a: Seq<char>, b: Seq<char>, numeric: bool) -> bool {
    if numeric {
        identifier_below(a, b)
    } else {
        text_below(a, b)
    }
}

/// The order of two texts whose fields are separated by `sep`: field by
/// field, and when the fields of one begin those of the other, the one with
/// fewer fields ranks below.
pub open spec fn fields_below(a: Seq<char>, b: Seq<char>, sep: char, numeric: bool) -> bool
    decreases a.len(),
{
    let da = field_end(a, sep) as int;
    let db = field_end(b, sep) as int;
    let ia = a.take(da);
    let ib = b.take(db);
    if element_below(ia, ib, numeric) {
        true
    } else if ia != ib {
        false
    } else if da >= a.len() {
        db < b.len()
    } else if db >= b.len() {
        false
    } else {
        fields_below(a.skip(da + 1), b.skip(db + 1), sep, numeric)
    }
}

/// The order of two non-empty pre-release texts, identifier by identifier.
pub open spec fn pre_identifiers_below(a: Seq<char>, b: Seq<char>) -> bool {
    fields_below(a, b, '.', true)
}

/// The order of two relative paths, component by component (the order of
/// `std::path::Path` on paths without `.` components or doubled slashes).
pub open spec fn path_below(a: Seq<char>, b: Seq<char>) -> bool {
    fields_below(a, b, '/', false)
}

/// The order of pre-release texts: a pre-release ranks below a release
/// (an empty text), and two pre-releases compare by their identifiers.
pub open spec fn pre_below(a: Seq<char>, b: Seq<char>) -> bool {
    a.len() > 0 && (b.len() == 0 || pre_identifiers_below(a, b))
}

/// Semantic-version precedence: `a` ranks below `b`.
pub open spec fn version_below(a: VersionView, b: VersionView) -> bool {
    ||| a.major < b.major
    ||| a.major == b.major && a.minor < b.minor
    ||| a.major == b.major && a.minor == b.minor && a.patch < b.patch
    ||| a.major == b.major && a.minor == b.minor && a.patch == b.patch && pre_below(a.pre, b.pre)
}

/// Two versions of equal precedence: they differ at most in build metadata.
pub open spec fn same_rank(a: VersionView, b: VersionView) -> bool {
    a.major == b.major && a.minor == b.minor && a.patch == b.patch && a.pre == b.pre
}

proof fn lemma_text_irreflexive(a: Seq<char>)
    ensures
        !text_below(a, a),
    decreases a.len(),
{
    if a.len() > 0 {
        lemma_text_irreflexive(a.drop_first());
    }
}

proof fn lemma_text_transitive(a: Seq<char>, b: Seq<char>, c: Seq<char>)
    requires
        text_below(a, b),
        text_below(b, c),
    ensures
        text_below(a, c),
    decreases a.len(),
{
    if a.len() > 0 && a[0] == b[0] && b[0] == c[0] {
        lemma_text_transitive(a.drop_first(), b.drop_first(), c.drop_first());
    }
}

proof fn lemma_text_total(a: Seq<char>, b: Seq<char>)
    requires
        a != b,
    ensures
        text_below(a, b) || text_below(b, a),
    decreases a.len(),
{
    if a.len() > 0 && b.len() > 0 && a[0] == b[0] {
        if a.drop_first() == b.drop_first() {
            assert(a.drop_first().len() == a.len() - 1);
            assert(b.drop_first().len() == b.len() - 1);
            assert(a =~= b) by {
                assert forall|i: int| 0 <= i < a.len() implies a[i] == b[i] by {
                    if i > 0 {
                        assert(a[i] == a.drop_first()[i - 1]);
                        assert(b[i] == b.drop_first()[i - 1]);
                    }
                }
            }
        }
        lemma_text_total(a.drop_first(), b.drop_first());
    } else if a.len() == 0 && b.len() == 0 {
        assert(a =~= b);
    }
}

proof fn lemma_element_order(a: Seq<char>, b: Seq<char>, c: Seq<char>, numeric: bool)
    ensures
        !element_below(a, a, numeric),
        element_below(a, b, numeric) && element_below(b, c, numeric) ==> element_below(a, c, numeric),
        a != b ==> element_below(a, b, numeric) || element_below(b, a, numeric),
{
    lemma_text_irreflexive(a);
    if text_below(a, b) && text_below(b, c) {
        lemma_text_transitive(a, b, c);
    }
    if a != b {
        lemma_text_total(a, b);
    }
}

proof fn lemma_field_end(s: Seq<char>, sep: char)
    ensures
        field_end(s, sep) <= s.len(),
        forall|i: int| 0 <= i < field_end(s, sep) ==> s[i] != sep,
        field_end(s, sep) < s.len() ==> s[field_end(s, sep) as int] == sep,
    decreases s.len(),
{
    if s.len() > 0 && s[0] != sep {
        let t = s.drop_first();
        lemma_field_end(t, sep);
        assert forall|i: int| 0 <= i < field_end(s, sep) implies s[i] != sep by {
            if i > 0 {
                assert(s[i] == t[i - 1]);
            }
        }
    }
}

/// The first `k` characters hold no separator and the next one, if any, is
/// one: the first field is `k` characters long.
proof fn lemma_field_end_at(s: Seq<char>, sep: char, k: int)
    requires
        0 <= k <= s.len(),
        forall|i: int| 0 <= i < k ==> s[i] != sep,
        k < s.len() ==> s[k] == sep,
    ensures
        field_end(s, sep) == k,
    decreases k,
{
    if k > 0 {
        let t = s.drop_first();
        assert forall|i: int| 0 <= i < k - 1 implies t[i] != sep by {
            assert(t[i] == s[i + 1]);
        }
        lemma_field_end_at(t, sep, k - 1);
    }
}

proof fn lemma_fields_irreflexive(a: Seq<char>, sep: char, numeric: bool)
    ensures
        !fields_below(a, a, sep, numeric),
    decreases a.len(),
{
    let d = field_end(a, sep) as int;
    lemma_element_order(a.take(d), a.take(d), a.take(d), numeric);
    if d < a.len() {
        lemma_fields_irreflexive(a.skip(d + 1), sep, numeric);
    }
}

proof fn lemma_fields_transitive(a: Seq<char>, b: Seq<char>, c: Seq<char>, sep: char, numeric: bool)
    requires
        fields_below(a, b, sep, numeric),
        fields_below(b, c, sep, numeric),
    ensures
        fields_below(a, c, sep, numeric),
    decreases a.len(),
{
    let (da, db, dc) = (field_end(a, sep) as int, field_end(b, sep) as int, field_end(c, sep) as int);
    let (ia, ib, ic) = (a.take(da), b.take(db), c.take(dc));
    lemma_element_order(ia, ib, ic, numeric);
    lemma_element_order(ia, ia, ia, numeric);
    if ia == ib && ib == ic && da < a.len() && db < b.len() && dc < c.len() {
        lemma_field_end(a, sep);
        if fields_below(a.skip(da + 1), b.skip(db + 1), sep, numeric) && fields_below(
            b.skip(db + 1),
            c.skip(dc + 1),
            sep,
            numeric,
        ) {
            lemma_fields_transitive(a.skip(da + 1), b.skip(db + 1), c.skip(dc + 1), sep, numeric);
        }
    }
}

/// A text is its first field, the separator and the rest, when it holds
/// the separator.
proof fn lemma_split_at_separator(a: Seq<char>, sep: char)
    requires
        field_end(a, sep) < a.len(),
    ensures
        a =~= a.take(field_end(a, sep) as int) + seq![sep] + a.skip(field_end(a, sep) as int + 1),
{
    lemma_field_end(a, sep);
}

proof fn lemma_fields_total(a: Seq<char>, b: Seq<char>, sep: char, numeric: bool)
    requires
        a != b,
    ensures
        fields_below(a, b, sep, numeric) || fields_below(b, a, sep, numeric),
    decreases a.len(),
{
    let (da, db) = (field_end(a, sep) as int, field_end(b, sep) as int);
    let (ia, ib) = (a.take(da), b.take(db));
    lemma_field_end(a, sep);
    lemma_field_end(b, sep);
    lemma_element_order(ia, ib, ib, numeric);
    if ia == ib {
        if da >= a.len() && db >= b.len() {
            assert(a =~= ia);
            assert(b =~= ib);
        } else if da < a.len() && db < b.len() {
            lemma_split_at_separator(a, sep);
            lemma_split_at_separator(b, sep);
            if a.skip(da + 1) == b.skip(db + 1) {
                assert(a == b);
            }
            lemma_fields_total(a.skip(da + 1), b.skip(db + 1), sep, numeric);
        }
    }
}

/// Texts split into fields at `sep` are in a strict total order: no text
/// ranks below itself, ranking below is transitive, and of two different
/// texts one ranks below the other.
pub proof fn law_fields_order(a: Seq<char>, b: Seq<char>, c: Seq<char>, sep: char, numeric: bool)
    ensures
        !fields_below(a, a, sep, numeric),
        fields_below(a, b, sep, numeric) && fields_below(b, c, sep, numeric) ==> fields_below(
            a,
            c,
            sep,
            numeric,
        ),
        a != b ==> fields_below(a, b, sep, numeric) || fields_below(b, a, sep, numeric),
{
    lemma_fields_irreflexive(a, sep, numeric);
    if fields_below(a, b, sep, numeric) && fields_below(b, c, sep, numeric) {
        lemma_fields_transitive(a, b, c, sep, numeric);
    }
    if a != b {
        lemma_fields_total(a, b, sep, numeric);
    }
}

/// Semantic-version precedence is a strict order, total up to versions of
/// equal rank (which differ at most in build metadata): no version ranks
/// below itself, ranking below is transitive, and of two versions either
/// one ranks below the other or both have the same rank.
pub proof fn law_version_order(a: VersionView, b: VersionView, c: VersionView)
    ensures
        !version_below(a, a),
        version_below(a, b) && version_below(b, c) ==> version_below(a, c),
        version_below(a, b) || version_below(b, a) || same_rank(a, b),
        same_rank(a, b) ==> (version_below(a, c) == version_below(b, c)) && (version_below(c, a)
            == version_below(c, b)),
{
    law_fields_order(a.pre, b.pre, c.pre, '.', true);
}

/// Whether one stretch of a text ranks below a stretch of another, in the
/// order of [`text_below`].
fn text_below_at(a: &str, alo: usize, ahi: usize, b: &str, blo: usize, bhi: usize) -> (r: bool)
    requires
        alo <= ahi <= a@.len(),
        blo <= bhi <= b@.len(),
    ensures
        r == text_below(a@.subrange(alo as int, ahi as int), b@.subrange(blo as int, bhi as int)),
    decreases ahi - alo,
{
    if blo == bhi {
        return false;
    }
    if alo == ahi {
        return true;
    }
    let x = a.get_char(alo);
    let y = b.get_char(blo);
    if x != y {
        return x < y;
    }
    proof {
        assert(a@.subrange(alo as int, ahi as int).drop_first() =~= a@.subrange(alo + 1, ahi as int));
        assert(b@.subrange(blo as int, bhi as int).drop_first() =~= b@.subrange(blo + 1, bhi as int));
    }
    text_below_at(a, alo + 1, ahi, b, blo + 1, bhi)
}

/// Whether two stretches of texts are equal.
fn same_text_at(a: &str, alo: usize, ahi: usize, b: &str, blo: usize, bhi: usize) -> (r: bool)
    requires
        alo <= ahi <= a@.len(),
        blo <= bhi <= b@.len(),
    ensures
        r == (a@.subrange(alo as int, ahi as int) == b@.subrange(blo as int, bhi as int)),
{
    let ghost sa = a@.subrange(alo as int, ahi as int);
    let ghost sb = b@.subrange(blo as int, bhi as int);
    if ahi - alo != bhi - blo {
        assert(sa.len() != sb.len());
        return false;
    }
    let mut k: usize = 0;
    while k < ahi - alo
        invariant
            alo <= ahi <= a@.len(),
            blo <= bhi <= b@.len(),
            ahi - alo == bhi - blo,
            k <= ahi - alo,
            sa == a@.subrange(alo as int, ahi as int),
            sb == b@.subrange(blo as int, bhi as int),
            forall|i: int| 0 <= i < k ==> sa[i] == sb[i],
        decreases ahi - alo - k,
    {
        if a.get_char(alo + k) != b.get_char(blo + k) {
            assert(sa[k as int] != sb[k as int]);
            return false;
        }
        k = k + 1;
    }
    assert(sa =~= sb);
    true
}

/// Whether a stretch of a text is made of ASCII digits only.
fn all_digits_at(s: &str, lo: usize, hi: usize) -> (r: bool)
    requires
        lo <= hi <= s@.len(),
    ensures
        r == all_digits(s@.subrange(lo as int, hi as int)),
{
    let ghost t = s@.subrange(lo as int, hi as int);
    let mut k: usize = lo;
    while k < hi
        invariant
            lo <= k <= hi <= s@.len(),
            t == s@.subrange(lo as int, hi as int),
            forall|i: int| 0 <= i < k - lo ==> is_ascii_digit(#[trigger] t[i]),
        decreases hi - k,
    {
        let c = s.get_char(k);
        if !('0' <= c && c <= '9') {
            assert(t[k - lo] == c);
            return false;
        }
        assert(t[k - lo] == c);
        k = k + 1;
    }
    true
}

/// Whether a stretch of a text holds a field that ranks below the one in a
/// stretch of another, in the order of [`element_below`].
fn element_below_at(a: &str, alo: usize, ahi: usize, b: &str, blo: usize, bhi: usize, numeric: bool) -> (r: bool)
    requires
        alo <= ahi <= a@.len(),
        blo <= bhi <= b@.len(),
    ensures
        r == element_below(a@.subrange(alo as int, ahi as int), b@.subrange(blo as int, bhi as int), numeric),
{
    if !numeric {
        return text_below_at(a, alo, ahi, b, blo, bhi);
    }
    let da = all_digits_at(a, alo, ahi);
    let db = all_digits_at(b, blo, bhi);
    if da && db {
        let la = ahi - alo;
        let lb = bhi - blo;
        la < lb || (la == lb && text_below_at(a, alo, ahi, b, blo, bhi))
    } else if da {
        true
    } else if db {
        false
    } else {
        text_below_at(a, alo, ahi, b, blo, bhi)
    }
}

/// The position of the first separator at or after `lo`, or the text's
/// length.
fn field_end_from(s: &str, lo: usize, sep: char) -> (d: usize)
    requires
        lo <= s@.len(),
    ensures
        lo <= d <= s@.len(),
        d - lo == field_end(s@.skip(lo as int), sep),
{
    let n = s.unicode_len();
    let ghost t = s@.skip(lo as int);
    let mut k: usize = lo;
    while k < n
        invariant
            lo <= k <= n,
            n == s@.len(),
            t == s@.skip(lo as int),
            forall|i: int| 0 <= i < k - lo ==> #[trigger] t[i] != sep,
        decreases n - k,
    {
        if s.get_char(k) == sep {
            assert(t[k - lo] == sep);
            proof {
                lemma_field_end_at(t, sep, k - lo);
            }
            return k;
        }
        assert(t[k - lo] != sep);
        k = k + 1;
    }
    proof {
        lemma_field_end_at(t, sep, k - lo);
    }
    k
}

/// Whether the fields of `a` from `alo` on rank below those of `b` from
/// `blo` on, in the order of [`fields_below`].
fn fields_below_from(a: &str, alo: usize, b: &str, blo: usize, sep: char, numeric: bool) -> (r: bool)
    requires
        alo <= a@.len(),
        blo <= b@.len(),
    ensures
        r == fields_below(a@.skip(alo as int), b@.skip(blo as int), sep, numeric),
    decreases a@.len() - alo,
{
    let na = a.unicode_len();
    let nb = b.unicode_len();
    let da = field_end_from(a, alo, sep);
    let db = field_end_from(b, blo, sep);
    let ghost sa = a@.skip(alo as int);
    let ghost sb = b@.skip(blo as int);
    assert(sa.take(da - alo) =~= a@.subrange(alo as int, da as int));
    assert(sb.take(db - blo) =~= b@.subrange(blo as int, db as int));
    if element_below_at(a, alo, da, b, blo, db, numeric) {
        return true;
    }
    if !same_text_at(a, alo, da, b, blo, db) {
        return false;
    }
    if da >= na {
        return db < nb;
    }
    if db >= nb {
        return false;
    }
    assert(sa.skip(da - alo + 1) =~= a@.skip(da + 1));
    assert(sb.skip(db - blo + 1) =~= b@.skip(db + 1));
    fields_below_from(a, da + 1, b, db + 1, sep, numeric)
}

/// Whether the relative path `a` ranks below `b`, component by component
/// (see [`path_below`]).
pub fn path_ranks_below(a: &str, b: &str) -> (r: bool)
    ensures
        r == path_below(a@, b@),
{
    assert(a@.skip(0) =~= a@);
    assert(b@.skip(0) =~= b@);
    fields_below_from(a, 0, b, 0, '/', false)
}

impl Version {
    /// Whether this version ranks below `other` in semantic-version
    /// precedence (see [`version_below`]).
    pub fn ranks_below(&self, other: &Version) -> (r: bool)
        ensures
            r == version_below(self@, other@),
    {
        if self.major() != other.major() {
            return self.major() < other.major();
        }
        if self.minor() != other.minor() {
            return self.minor() < other.minor();
        }
        if self.patch() != other.patch() {
            return self.patch() < other.patch();
        }
        let a = self.pre();
        let b = other.pre();
        assert(a@.skip(0) =~= a@);
        assert(b@.skip(0) =~= b@);
        a.unicode_len() > 0 && (b.unicode_len() == 0 || fields_below_from(a, 0, b, 0, '.', true))
    }
}

} // verus!
