//! Searching in bytes and in characters: the first occurrence of an item
//! or of a pattern, prefixes and suffixes.

use crate::text::chars_of;
use vstd::prelude::*;

verus! {

/// Position of the first `x` in `s`, or `s.len()` where `s` holds none.
pub open spec fn first_at<T>(s: Seq<T>, x: T) -> int
    decreases s.len(),
{
    if s.len() == 0 || s[0] == x {
        0
    } else {
        1 + first_at(s.skip(1), x)
    }
}

/// `first_at` is the one position before which no `x` stands and at which,
/// unless it is the end, an `x` does.
pub proof fn lemma_first_at<T>(s: Seq<T>, x: T, k: int)
    requires
        0 <= k <= s.len(),
        forall|j: int| 0 <= j < k ==> s[j] != x,
        k < s.len() ==> s[k] == x,
    ensures
        first_at(s, x) == k,
    decreases s.len(),
{
    if s.len() == 0 || s[0] == x {
    } else {
        lemma_first_at(s.skip(1), x, k - 1);
    }
}

/// What `lemma_first_at` assumes holds of `first_at` itself.
pub proof fn lemma_first_at_bounds<T>(s: Seq<T>, x: T)
    ensures
        0 <= first_at(s, x) <= s.len(),
        forall|j: int| 0 <= j < first_at(s, x) ==> s[j] != x,
        first_at(s, x) < s.len() ==> s[first_at(s, x)] == x,
    decreases s.len(),
{
    if s.len() == 0 || s[0] == x {
    } else {
        let t = s.skip(1);
        lemma_first_at_bounds(t, x);
        assert forall|j: int| 0 <= j < first_at(s, x) implies s[j] != x by {
            if j > 0 {
                assert(t[j - 1] == s[j]);
            }
        }
    }
}

/// The pieces of `s` between occurrences of `sep`: one more than there are
/// separators, so never empty.
pub open spec fn split<T>(s: Seq<T>, sep: T) -> Seq<Seq<T>>
    decreases s.len(),
{
    let k = first_at(s, sep);
    if 0 <= k < s.len() {
        seq![s.take(k)] + split(s.skip(k + 1), sep)
    } else {
        seq![s]
    }
}

/// The first byte equal to `x` at or after `from`, or the length.
pub fn find_byte(s: &[u8], from: usize, x: u8) -> (k: usize)
    requires
        from <= s@.len(),
    ensures
        from <= k <= s@.len(),
        k - from == first_at(s@.skip(from as int), x),
        k < s@.len() ==> s@[k as int] == x,
        forall|j: int| from <= j < k ==> s@[j] != x,
{
    let mut k: usize = from;
    while k < s.len() && s[k] != x
        invariant
            from <= k <= s@.len(),
            forall|j: int| from <= j < k ==> s@[j] != x,
        decreases s@.len() - k,
    {
        k += 1;
    }
    proof {
        lemma_first_at(s@.skip(from as int), x, k - from);
    }
    k
}

/// The first character equal to `x` at or after `from`, or the length.
pub fn find_char(s: &[char], from: usize, x: char) -> (k: usize)
    requires
        from <= s@.len(),
    ensures
        from <= k <= s@.len(),
        k - from == first_at(s@.skip(from as int), x),
        k < s@.len() ==> s@[k as int] == x,
        forall|j: int| from <= j < k ==> s@[j] != x,
{
    let mut k: usize = from;
    while k < s.len() && s[k] != x
        invariant
            from <= k <= s@.len(),
            forall|j: int| from <= j < k ==> s@[j] != x,
        decreases s@.len() - k,
    {
        k += 1;
    }
    proof {
        lemma_first_at(s@.skip(from as int), x, k - from);
    }
    k
}

/// Whether `s` holds the character `c`.
pub fn has_char(s: &[char], c: char) -> (b: bool)
    ensures
        b == s@.contains(c),
{
    let k = find_char(s, 0, c);
    k < s.len()
}

/// Whether the characters `s` begin with the characters `prefix`.
pub fn has_prefix(s: &[char], prefix: &[char]) -> (b: bool)
    ensures
        b == prefix@.is_prefix_of(s@),
{
    if prefix.len() > s.len() {
        return false;
    }
    let mut i: usize = 0;
    while i < prefix.len()
        invariant
            i <= prefix@.len() <= s@.len(),
            forall|j: int| 0 <= j < i ==> s@[j] == prefix@[j],
        decreases prefix@.len() - i,
    {
        if s[i] != prefix[i] {
            return false;
        }
        i += 1;
    }
    true
}

/// Whether the characters `s` begin with the string `prefix`.
pub fn starts_with(s: &[char], prefix: &str) -> (b: bool)
    ensures
        b == prefix@.is_prefix_of(s@),
{
    let mut i: usize = 0;
    let mut ok = true;
    for c in it: prefix.chars()
        invariant
            it.seq() == prefix@,
            ok ==> i == it.index() && i <= s@.len() && forall|j: int|
                0 <= j < i ==> s@[j] == prefix@[j],
            !ok ==> !prefix@.is_prefix_of(s@),
    {
        if ok {
            if i < s.len() && s[i] == c {
                i += 1;
            } else {
                ok = false;
            }
        }
    }
    ok
}

/// Whether `s` ends with `suffix`.
pub fn ends_with(s: &[char], suffix: &[char]) -> (b: bool)
    ensures
        b == suffix@.is_suffix_of(s@),
{
    if suffix.len() > s.len() {
        return false;
    }
    matches_at(s, suffix, s.len() - suffix.len())
}

/// Whether the characters `s` are the text of `t`.
pub fn same_text(s: &[char], t: &str) -> (b: bool)
    ensures
        b == (s@ == t@),
{
    let p = chars_of(t);
    if p.len() != s.len() {
        return false;
    }
    let b = has_prefix(s, p.as_slice());
    assert(s@.subrange(0, s@.len() as int) == s@);
    b
}

/// Whether `pattern` stands in `text` at position `at`.
pub open spec fn occurs_at(text: Seq<char>, pattern: Seq<char>, at: int) -> bool {
    0 <= at && at + pattern.len() <= text.len() && text.subrange(at, at + pattern.len()) == pattern
}

/// Whether `pattern` stands somewhere in `text`.
pub open spec fn contains(text: Seq<char>, pattern: Seq<char>) -> bool {
    exists|at: int| occurs_at(text, pattern, at)
}

/// Whether `at` is the first position at which `pattern` stands in `text`.
pub open spec fn first_occurs_at(text: Seq<char>, pattern: Seq<char>, at: int) -> bool {
    occurs_at(text, pattern, at) && forall|j: int| 0 <= j < at ==> !occurs_at(text, pattern, j)
}

/// Whether `pattern` stands in `s` at `at`.
pub fn matches_at(s: &[char], pattern: &[char], at: usize) -> (b: bool)
    requires
        at <= s@.len(),
    ensures
        b == occurs_at(s@, pattern@, at as int),
{
    if pattern.len() > s.len() - at {
        return false;
    }
    let n = s.len();
    let mut i: usize = 0;
    while i < pattern.len()
        invariant
            i <= pattern@.len(),
            n == s@.len(),
            at + pattern@.len() <= n,
            forall|j: int| 0 <= j < i ==> s@[at + j] == pattern@[j],
        decreases pattern@.len() - i,
    {
        if s[at + i] != pattern[i] {
            return false;
        }
        i += 1;
    }
    assert(s@.subrange(at as int, at + pattern@.len()) =~= pattern@);
    true
}

/// The first position at which `pattern` stands in `text`, if it does
/// anywhere.
pub open spec fn position_of(text: Seq<char>, pattern: Seq<char>) -> Option<int> {
    if contains(text, pattern) {
        Some(choose|at: int| first_occurs_at(text, pattern, at))
    } else {
        None
    }
}

/// A first position is the first position.
pub proof fn lemma_position_of(text: Seq<char>, pattern: Seq<char>, at: int)
    requires
        first_occurs_at(text, pattern, at),
    ensures
        position_of(text, pattern) == Some(at),
{
}

/// The first position at which `pattern` stands in `s`, if it does anywhere.
pub fn find(s: &[char], pattern: &[char]) -> (r: Option<usize>)
    ensures
        match r {
            Some(at) => first_occurs_at(s@, pattern@, at as int) && position_of(s@, pattern@)
                == Some(at as int),
            None => !contains(s@, pattern@) && position_of(s@, pattern@) is None,
        },
{
    let mut at: usize = 0;
    while at < s.len()
        invariant
            at <= s@.len(),
            forall|j: int| 0 <= j < at ==> !occurs_at(s@, pattern@, j),
        decreases s@.len() - at,
    {
        if matches_at(s, pattern, at) {
            proof {
                lemma_position_of(s@, pattern@, at as int);
            }
            return Some(at);
        }
        at += 1;
    }
    if matches_at(s, pattern, at) {
        proof {
            lemma_position_of(s@, pattern@, at as int);
        }
        Some(at)
    } else {
        None
    }
}

/// Whether `text` holds `pattern` somewhere.
pub fn str_contains(text: &str, pattern: &str) -> (b: bool)
    ensures
        b == contains(text@, pattern@),
{
    let t = chars_of(text);
    let p = chars_of(pattern);
    find(t.as_slice(), p.as_slice()).is_some()
}

} // verus!
