//! Comparisons and slicing of text by characters.

use vstd::prelude::*;

verus! {

broadcast use vstd::string::group_string_axioms;

/// The text of an optional string.
pub open spec fn spec_opt_text(o: Option<String>) -> Option<Seq<char>> {
    match o {
        Some(s) => Some(s@),
        None => None,
    }
}

/// Whether `s` begins with `prefix`.
pub open spec fn spec_starts_with(s: Seq<char>, prefix: Seq<char>) -> bool {
    prefix.len() <= s.len() && s.subrange(0, prefix.len() as int) == prefix
}

/// Whether `s` ends with `suffix`.
pub open spec fn spec_ends_with(s: Seq<char>, suffix: Seq<char>) -> bool {
    suffix.len() <= s.len() && s.subrange(s.len() - suffix.len(), s.len() as int) == suffix
}

/// Whether the characters of `a` from `a_start` equal the first `n` characters of `b` from `b_start`.
fn chars_match(a: &str, a_start: usize, b: &str, b_start: usize, n: usize) -> (r: bool)
    requires
        a_start + n <= a@.len(),
        b_start + n <= b@.len(),
        a@.len() <= usize::MAX,
        b@.len() <= usize::MAX,
    ensures
        r == (a@.subrange(a_start as int, a_start + n) == b@.subrange(b_start as int, b_start + n)),
{
    let mut i: usize = 0;
    while i < n
        invariant
            a_start + n <= a@.len(),
            b_start + n <= b@.len(),
            a@.len() <= usize::MAX,
            b@.len() <= usize::MAX,
            0 <= i <= n,
            a@.subrange(a_start as int, a_start + i) == b@.subrange(b_start as int, b_start + i),
        decreases n - i,
    {
        if a.get_char(a_start + i) != b.get_char(b_start + i) {
            assert(a@.subrange(a_start as int, a_start + n)[i as int] != b@.subrange(b_start as int, b_start + n)[i as int]);
            return false;
        }
        assert(a@.subrange(a_start as int, a_start + i + 1) =~= a@.subrange(a_start as int, a_start + i).push(a@[a_start + i]));
        assert(b@.subrange(b_start as int, b_start + i + 1) =~= b@.subrange(b_start as int, b_start + i).push(b@[b_start + i]));
        i = i + 1;
    }
    true
}

/// Whether two texts are equal.
pub fn str_eq(a: &str, b: &str) -> (r: bool)
    ensures
        r == (a@ == b@),
{
    let n = a.unicode_len();
    if n != b.unicode_len() {
        return false;
    }
    let r = chars_match(a, 0, b, 0, n);
    assert(a@.subrange(0, n as int) =~= a@);
    assert(b@.subrange(0, n as int) =~= b@);
    r
}

/// Whether `s` begins with `prefix`.
pub fn starts_with(s: &str, prefix: &str) -> (r: bool)
    ensures
        r == spec_starts_with(s@, prefix@),
{
    let n = prefix.unicode_len();
    let len = s.unicode_len();
    if n > len {
        return false;
    }
    let r = chars_match(s, 0, prefix, 0, n);
    assert(prefix@.subrange(0, n as int) =~= prefix@);
    r
}

/// Whether `s` ends with `suffix`.
pub fn ends_with(s: &str, suffix: &str) -> (r: bool)
    ensures
        r == spec_ends_with(s@, suffix@),
{
    let n = suffix.unicode_len();
    let len = s.unicode_len();
    if n > len {
        return false;
    }
    let r = chars_match(s, len - n, suffix, 0, n);
    assert(suffix@.subrange(0, n as int) =~= suffix@);
    r
}

/// `s` without `prefix`, where it begins with it.
pub fn strip_prefix(s: &str, prefix: &str) -> (r: Option<String>)
    ensures
        r is Some <==> spec_starts_with(s@, prefix@),
        r matches Some(t) ==> t@ == s@.subrange(prefix@.len() as int, s@.len() as int),
{
    if starts_with(s, prefix) {
        let len = s.unicode_len();
        let n = prefix.unicode_len();
        Some(s.substring_char(n, len).to_string())
    } else {
        None
    }
}

/// `s` without `suffix`, where it ends with it.
pub fn strip_suffix(s: &str, suffix: &str) -> (r: Option<String>)
    ensures
        r is Some <==> spec_ends_with(s@, suffix@),
        r matches Some(t) ==> t@ == s@.subrange(0, s@.len() - suffix@.len()),
{
    if ends_with(s, suffix) {
        let len = s.unicode_len();
        let n = suffix.unicode_len();
        Some(s.substring_char(0, len - n).to_string())
    } else {
        None
    }
}

} // verus!
