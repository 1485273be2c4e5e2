//! Small string-building helpers with exact specifications.

use vstd::prelude::*;
use vstd::string::StrSliceExecFns;
use vstd::string::StringExecFns;

verus! {

/// The character of a decimal digit.
pub open spec fn digit_char(d: nat) -> char
    recommends
        d < 10,
{
    ((48 + d) as u8) as char
}

/// The decimal representation of a natural number, without leading zeros.
pub open spec fn decimal(n: nat) -> Seq<char>
    decreases n,
{
    if n < 10 {
        seq![digit_char(n)]
    } else {
        decimal(n / 10).push(digit_char(n % 10))
    }
}

/// Appends one character at the end of a string (`String::push`).
#[verifier::external_body]
pub(crate) fn push_char(s: &mut String, c: char)
    ensures
        final(s)@ == old(s)@.push(c),
{
    s.push(c);
}

/// Appends the decimal representation of `n` to `out`.
pub fn push_decimal(out: &mut String, n: u64)
    ensures
        final(out)@ == old(out)@ + decimal(n as nat),
    decreases n,
{
    if n >= 10 {
        push_decimal(out, n / 10);
    }
    let d: u8 = (n % 10) as u8;
    let c: char = (48u8 + d) as char;
    push_char(out, c);
    proof {
        assert(old(out)@ + decimal(n as nat) =~= old(out)@ + decimal(n as nat));
    }
}

/// The decimal representation of `n`.
pub fn to_decimal(n: u64) -> (s: String)
    ensures
        s@ == decimal(n as nat),
{
    let mut s = String::new();
    push_decimal(&mut s, n);
    proof {
        assert(s@ =~= decimal(n as nat));
    }
    s
}

/// Whether two string slices hold the same characters.
pub fn str_eq(a: &str, b: &str) -> (r: bool)
    ensures
        r == (a@ == b@),
{
    let x = String::from_str(a);
    let y = String::from_str(b);
    x == y
}

/// Whether `s` begins with `prefix`.
pub fn starts_with(s: &str, prefix: &str) -> (r: bool)
    ensures
        r == prefix@.is_prefix_of(s@),
{
    let n = s.unicode_len();
    let m = prefix.unicode_len();
    if m > n {
        return false;
    }
    let head = s.substring_char(0, m);
    let r = str_eq(head, prefix);
    assert(r == (prefix@ =~= s@.take(m as int)));
    r
}

/// The characters of each string of a sequence.
pub open spec fn strings_view(v: Seq<String>) -> Seq<Seq<char>> {
    Seq::new(v.len(), |i: int| v[i]@)
}

/// A copy of a vector of strings.
pub fn clone_strings(v: &Vec<String>) -> (r: Vec<String>)
    ensures
        strings_view(r@) == strings_view(v@),
{
    let mut r: Vec<String> = Vec::new();
    let mut i: usize = 0;
    while i < v.len()
        invariant
            i <= v.len(),
            strings_view(r@) == strings_view(v@).take(i as int),
        decreases v.len() - i,
    {
        let item: String = v[i].clone();
        assert(item@ == v@[i as int]@);
        let ghost before = r@;
        assert(strings_view(before).len() == before.len());
        assert(strings_view(v@).take(i as int).len() == i);
        assert(before.len() == i);
        r.push(item);
        assert(r@ == before.push(item));
        assert forall|k: int| 0 <= k < i implies #[trigger] r@[k]@ == v@[k]@ by {
            assert(strings_view(before)[k] == strings_view(v@).take(i as int)[k]);
            assert(strings_view(before)[k] == before[k]@);
            assert(strings_view(v@)[k] == v@[k]@);
            assert(r@[k] == before[k]);
        }
        i = i + 1;
        assert(strings_view(r@) =~= strings_view(v@).take(i as int));
    }
    assert(strings_view(v@).take(i as int) =~= strings_view(v@));
    r
}


/// Whether `p` occurs in `s` as a contiguous part.
pub open spec fn contains_seq(s: Seq<char>, p: Seq<char>) -> bool {
    exists|i: int| 0 <= i && i + p.len() <= s.len() && #[trigger] s.subrange(i, i + p.len()) == p
}

/// Whether `pattern` occurs in `s`.
pub fn contains_str(s: &str, pattern: &str) -> (r: bool)
    ensures
        r == contains_seq(s@, pattern@),
{
    let n = s.unicode_len();
    let m = pattern.unicode_len();
    if m > n {
        assert forall|i: int| 0 <= i && i + pattern@.len() <= s@.len() implies #[trigger] s@.subrange(i, i + pattern@.len()) != pattern@ by {}
        return false;
    }
    let last = n - m;
    let mut i: usize = 0;
    while i < last
        invariant
            n == s@.len(),
            m == pattern@.len(),
            last == n - m,
            i <= last,
            forall|k: int| 0 <= k < i ==> #[trigger] s@.subrange(k, k + m) != pattern@,
        decreases last - i,
    {
        let part = s.substring_char(i, i + m);
        if str_eq(part, pattern) {
            assert(s@.subrange(i as int, i + m) == pattern@);
            return true;
        }
        i = i + 1;
    }
    let part = s.substring_char(last, n);
    if str_eq(part, pattern) {
        assert(s@.subrange(last as int, last + m) == pattern@);
        return true;
    }
    assert forall|k: int| 0 <= k && k + pattern@.len() <= s@.len() implies #[trigger] s@.subrange(k, k + pattern@.len()) != pattern@ by {
        assert(k <= last);
    }
    false
}

/// `s` with every `from` replaced by `to`.
pub open spec fn replace_char(s: Seq<char>, from: char, to: char) -> Seq<char> {
    Seq::new(s.len(), |i: int| if s[i] == from { to } else { s[i] })
}

/// Appends `s` to `out`, with every `from` replaced by `to`.
pub fn push_replacing(out: &mut String, s: &str, from: char, to: char)
    ensures
        final(out)@ == old(out)@ + replace_char(s@, from, to),
{
    let n = s.unicode_len();
    let ghost start = out@;
    let mut i: usize = 0;
    while i < n
        invariant
            n == s@.len(),
            i <= n,
            out@ == start + replace_char(s@, from, to).take(i as int),
        decreases n - i,
    {
        let c = s.get_char(i);
        let d = if c == from { to } else { c };
        push_char(out, d);
        assert(replace_char(s@, from, to).take(i + 1) =~= replace_char(s@, from, to).take(i as int).push(d));
        i = i + 1;
    }
    assert(replace_char(s@, from, to).take(n as int) =~= replace_char(s@, from, to));
}

/// The decimal digits of `n`, with zeros in front to make at least `width` characters.
pub open spec fn zero_padded(n: nat, width: nat) -> Seq<char> {
    if decimal(n).len() >= width {
        decimal(n)
    } else {
        Seq::new((width - decimal(n).len()) as nat, |i: int| '0') + decimal(n)
    }
}

/// The number of decimal digits of `n`.
pub fn decimal_len(n: u64) -> (len: usize)
    ensures
        len == decimal(n as nat).len(),
{
    let s = to_decimal(n);
    s.as_str().unicode_len()
}

/// Appends `n` in decimal, zero-padded to at least `width` characters.
pub fn push_zero_padded(out: &mut String, n: u64, width: usize)
    ensures
        final(out)@ == old(out)@ + zero_padded(n as nat, width as nat),
{
    let len = decimal_len(n);
    let ghost start = out@;
    if len < width {
        let mut k: usize = 0;
        while k < width - len
            invariant
                len < width,
                k <= width - len,
                out@ == start + Seq::new(k as nat, |i: int| '0'),
            decreases width - len - k,
        {
            push_char(out, '0');
            assert(Seq::new((k + 1) as nat, |i: int| '0') =~= Seq::new(k as nat, |i: int| '0').push('0'));
            k = k + 1;
        }
    }
    let ghost mid = out@;
    push_decimal(out, n);
    assert(out@ =~= start + zero_padded(n as nat, width as nat));
}

/// Different digits have different characters, and only 0 is written `0`.
proof fn lemma_digit_char(a: nat, b: nat)
    requires
        a < 10,
        b < 10,
    ensures
        digit_char(a) == digit_char(b) ==> a == b,
        digit_char(a) == '0' <==> a == 0,
{
    assert(digit_char(a) as u32 == 48 + a);
    assert(digit_char(b) as u32 == 48 + b);
}

/// A decimal representation has at least one digit, at least two from 10
/// on, and does not start with `0` unless the number is 0.
pub proof fn lemma_decimal_shape(n: nat)
    ensures
        decimal(n).len() >= 1,
        n >= 10 ==> decimal(n).len() >= 2,
        n > 0 ==> decimal(n)[0] != '0',
        n == 0 ==> decimal(n) == seq!['0'],
    decreases n,
{
    if n < 10 {
        lemma_digit_char(n, 0);
    } else {
        lemma_decimal_shape(n / 10);
        assert(decimal(n)[0] == decimal(n / 10)[0]);
    }
}

/// Different numbers have different decimal representations.
pub proof fn lemma_decimal_injective(a: nat, b: nat)
    requires
        decimal(a) == decimal(b),
    ensures
        a == b,
    decreases a,
{
    lemma_decimal_shape(a);
    lemma_decimal_shape(b);
    if a < 10 && b < 10 {
        assert(decimal(a)[0] == decimal(b)[0]);
        lemma_digit_char(a, b);
    } else if a >= 10 && b >= 10 {
        let da = decimal(a);
        let db = decimal(b);
        assert(da.last() == db.last());
        lemma_digit_char(a % 10, b % 10);
        assert(da.drop_last() =~= decimal(a / 10));
        assert(db.drop_last() =~= decimal(b / 10));
        lemma_decimal_injective(a / 10, b / 10);
    } else {
        assert(decimal(a).len() == decimal(b).len());
    }
}

/// Different numbers have different zero-padded representations.
pub proof fn lemma_zero_padded_injective(a: nat, b: nat, width: nat)
    requires
        zero_padded(a, width) == zero_padded(b, width),
    ensures
        a == b,
{
    lemma_decimal_shape(a);
    lemma_decimal_shape(b);
    let da = decimal(a);
    let db = decimal(b);
    let pa = zero_padded(a, width);
    let pb = zero_padded(b, width);
    if da.len() >= width && db.len() >= width {
        lemma_decimal_injective(a, b);
    } else if da.len() < width && db.len() < width {
        if da.len() == db.len() {
            assert(pa.subrange(width - da.len(), width as int) =~= da);
            assert(pb.subrange(width - db.len(), width as int) =~= db);
            lemma_decimal_injective(a, b);
        } else if da.len() < db.len() {
            let k = width - db.len();
            assert(pb[k] == db[0]);
            assert(pa[k] == '0');
            if b == 0 {
                assert(db.len() == 1);
            }
        } else {
            let k = width - da.len();
            assert(pa[k] == da[0]);
            assert(pb[k] == '0');
            if a == 0 {
                assert(da.len() == 1);
            }
        }
    } else if da.len() >= width {
        assert(pa.len() == pb.len());
        assert(pb[0] == '0');
        assert(pa[0] == da[0]);
    } else {
        assert(pa.len() == pb.len());
        assert(pa[0] == '0');
        assert(pb[0] == db[0]);
    }
}
} // verus!
