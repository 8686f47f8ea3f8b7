//! Verified text helpers: prefix tests, ASCII case-insensitive equality and
//! concatenation, stated over the `Seq<char>` view of strings.

use vstd::prelude::*;
use vstd::string::*;

verus! {

/// `prefix` is a prefix of `s`.
pub open spec fn starts_with(s: Seq<char>, prefix: Seq<char>) -> bool {
    prefix.len() <= s.len() && s.subrange(0, prefix.len() as int) == prefix
}

/// `suffix` is a suffix of `s`.
pub open spec fn ends_with(s: Seq<char>, suffix: Seq<char>) -> bool {
    suffix.len() <= s.len() && s.subrange(s.len() - suffix.len(), s.len() as int) == suffix
}

/// A sequence starts with each of its prefixes and ends with each of its
/// suffixes; a prefix or suffix agrees with the sequence character by character.
pub proof fn lemma_prefix_suffix(p: Seq<char>, q: Seq<char>, s: Seq<char>, t: Seq<char>)
    ensures
        starts_with(p + q, p),
        ends_with(p + q, q),
        starts_with(s, t) ==> t.len() <= s.len() && forall|i: int| 0 <= i < t.len() ==> #[trigger] s[i] == t[i],
        ends_with(s, t) ==> t.len() <= s.len() && forall|i: int|
            0 <= i < t.len() ==> #[trigger] s[s.len() - t.len() + i] == t[i],
{
    assert((p + q).subrange(0, p.len() as int) =~= p);
    assert((p + q).subrange(p.len() as int, (p + q).len() as int) =~= q);
    if starts_with(s, t) {
        assert forall|i: int| 0 <= i < t.len() implies #[trigger] s[i] == t[i] by {
            assert(s.subrange(0, t.len() as int)[i] == t[i]);
        }
    }
    if ends_with(s, t) {
        assert forall|i: int| 0 <= i < t.len() implies #[trigger] s[s.len() - t.len() + i] == t[i] by {
            assert(s.subrange(s.len() - t.len(), s.len() as int)[i] == t[i]);
        }
    }
}

/// The code point of `c` with ASCII upper-case letters mapped to lower case.
pub open spec fn ascii_fold(c: char) -> u32 {
    if 65 <= (c as u32) <= 90 {
        (c as u32 + 32) as u32
    } else {
        c as u32
    }
}

/// Two strings are equal once ASCII letters are folded to one case.
pub open spec fn eq_ignore_ascii_case(a: Seq<char>, b: Seq<char>) -> bool {
    &&& a.len() == b.len()
    &&& forall|i: int| 0 <= i < a.len() ==> #[trigger] ascii_fold(a[i]) == ascii_fold(b[i])
}

/// Two characters fold alike exactly when they are equal or are the same
/// ASCII letter in upper and lower case.
pub proof fn lemma_ascii_fold_matches_letters_only(c: char, d: char)
    ensures
        ascii_fold(c) == ascii_fold(d) <==> (c == d || (65 <= (c as u32) <= 90 && (d as u32) == (c as u32) + 32)
            || (65 <= (d as u32) <= 90 && (c as u32) == (d as u32) + 32)),
{
}

/// Strings equal up to ASCII case have the same length, and at each position
/// hold the same character or the same ASCII letter in the other case; a
/// string is equal up to case to itself.
pub proof fn lemma_eq_ignore_ascii_case_positions(a: Seq<char>, b: Seq<char>)
    ensures
        eq_ignore_ascii_case(a, a),
        eq_ignore_ascii_case(a, b) ==> a.len() == b.len() && forall|i: int|
            0 <= i < a.len() ==> (#[trigger] a[i] == b[i] || (65 <= (a[i] as u32) <= 90 && (b[i] as u32) == (a[i]
                as u32) + 32) || (65 <= (b[i] as u32) <= 90 && (a[i] as u32) == (b[i] as u32) + 32)),
{
    if eq_ignore_ascii_case(a, b) {
        assert forall|i: int| 0 <= i < a.len() implies (#[trigger] a[i] == b[i] || (65 <= (a[i] as u32) <= 90 && (b[i]
            as u32) == (a[i] as u32) + 32) || (65 <= (b[i] as u32) <= 90 && (a[i] as u32) == (b[i] as u32) + 32)) by {
            assert(ascii_fold(a[i]) == ascii_fold(b[i]));
            lemma_ascii_fold_matches_letters_only(a[i], b[i]);
        }
    }
}

/// Equality up to ASCII case is reflexive and symmetric.
pub proof fn lemma_eq_ignore_ascii_case_equivalence(a: Seq<char>, b: Seq<char>)
    ensures
        eq_ignore_ascii_case(a, a),
        eq_ignore_ascii_case(a, b) == eq_ignore_ascii_case(b, a),
{
}

/// Equality up to ASCII case is transitive.
pub proof fn lemma_eq_ignore_ascii_case_transitive(a: Seq<char>, b: Seq<char>, c: Seq<char>)
    requires
        eq_ignore_ascii_case(a, b),
        eq_ignore_ascii_case(b, c),
    ensures
        eq_ignore_ascii_case(a, c),
{
    assert forall|i: int| 0 <= i < a.len() implies #[trigger] ascii_fold(a[i]) == ascii_fold(c[i]) by {
        assert(ascii_fold(a[i]) == ascii_fold(b[i]));
        assert(ascii_fold(b[i]) == ascii_fold(c[i]));
    }
}

fn fold_char(c: char) -> (r: u32)
    ensures
        r == ascii_fold(c),
{
    let v = c as u32;
    if 65 <= v && v <= 90 {
        v + 32
    } else {
        v
    }
}

/// Whether `s` starts with `prefix`, compared character by character.
pub fn has_prefix(s: &str, prefix: &str) -> (r: bool)
    ensures
        r == starts_with(s@, prefix@),
{
    let n = s.unicode_len();
    let m = prefix.unicode_len();
    if m > n {
        return false;
    }
    let mut i: usize = 0;
    while i < m
        invariant
            m == prefix@.len(),
            n == s@.len(),
            m <= n,
            i <= m,
            forall|j: int| 0 <= j < i ==> s@[j] == prefix@[j],
        decreases m - i,
    {
        if s.get_char(i) != prefix.get_char(i) {
            assert(s@.subrange(0, m as int)[i as int] != prefix@[i as int]);
            return false;
        }
        i = i + 1;
    }
    assert(s@.subrange(0, m as int) =~= prefix@);
    true
}

/// Whether `s` ends with `suffix`, compared character by character.
pub fn has_suffix(s: &str, suffix: &str) -> (r: bool)
    ensures
        r == ends_with(s@, suffix@),
{
    let n = s.unicode_len();
    let m = suffix.unicode_len();
    if m > n {
        return false;
    }
    let start = n - m;
    let mut i: usize = 0;
    while i < m
        invariant
            m == suffix@.len(),
            n == s@.len(),
            m <= n,
            start == n - m,
            i <= m,
            forall|j: int| 0 <= j < i ==> s@[start + j] == suffix@[j],
        decreases m - i,
    {
        if s.get_char(start + i) != suffix.get_char(i) {
            assert(s@.subrange(start as int, n as int)[i as int] != suffix@[i as int]);
            return false;
        }
        i = i + 1;
    }
    assert(s@.subrange(start as int, n as int) =~= suffix@);
    true
}

/// ASCII case-insensitive equality of two strings.
pub fn str_eq_ignore_ascii_case(a: &str, b: &str) -> (r: bool)
    ensures
        r == eq_ignore_ascii_case(a@, b@),
{
    let n = a.unicode_len();
    let m = b.unicode_len();
    if n != m {
        return false;
    }
    let mut i: usize = 0;
    while i < n
        invariant
            n == a@.len(),
            m == b@.len(),
            n == m,
            i <= n,
            forall|j: int| 0 <= j < i ==> #[trigger] ascii_fold(a@[j]) == ascii_fold(b@[j]),
        decreases n - i,
    {
        if fold_char(a.get_char(i)) != fold_char(b.get_char(i)) {
            return false;
        }
        i = i + 1;
    }
    true
}

/// A new string holding `a` followed by `b`.
pub fn concat(a: &str, b: &str) -> (r: String)
    ensures
        r@ == a@ + b@,
{
    let mut r = String::from_str(a);
    r.append(b);
    r
}

} // verus!
