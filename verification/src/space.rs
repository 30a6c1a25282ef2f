//! White space, and texts without the white space around them.

use crate::text::{chars_of, push_chars};
use vstd::prelude::*;

verus! {

/// Whether `c` is white space: one of the code points with the Unicode
/// property `White_Space`.
pub open spec fn is_whitespace(c: char) -> bool {
    let u = c as u32;
    ||| 0x09 <= u <= 0x0d
    ||| u == 0x20
    ||| u == 0x85
    ||| u == 0xa0
    ||| u == 0x1680
    ||| 0x2000 <= u <= 0x200a
    ||| u == 0x2028
    ||| u == 0x2029
    ||| u == 0x202f
    ||| u == 0x205f
    ||| u == 0x3000
}

/// Whether `c` is white space.
pub fn is_space(c: char) -> (b: bool)
    ensures
        b == is_whitespace(c),
{
    let u: u32 = c as u32;
    (0x09 <= u && u <= 0x0d) || u == 0x20 || u == 0x85 || u == 0xa0 || u == 0x1680 || (0x2000 <= u
        && u <= 0x200a) || u == 0x2028 || u == 0x2029 || u == 0x202f || u == 0x205f || u == 0x3000
}

/// `s` without the white space at its start.
pub open spec fn trim_start(s: Seq<char>) -> Seq<char>
    decreases s.len(),
{
    if s.len() > 0 && is_whitespace(s[0]) {
        trim_start(s.skip(1))
    } else {
        s
    }
}

/// `s` without the white space at its end.
pub open spec fn trim_end(s: Seq<char>) -> Seq<char>
    decreases s.len(),
{
    if s.len() > 0 && is_whitespace(s.last()) {
        trim_end(s.drop_last())
    } else {
        s
    }
}

/// `s` without the white space at its start and at its end.
pub open spec fn trim(s: Seq<char>) -> Seq<char> {
    trim_end(trim_start(s))
}

/// Where `trim_start` of `s[from..to]` begins.
pub fn skip_space(s: &[char], from: usize, to: usize) -> (k: usize)
    requires
        from <= to <= s@.len(),
    ensures
        from <= k <= to,
        trim_start(s@.subrange(from as int, to as int)) == s@.subrange(k as int, to as int),
{
    let mut k: usize = from;
    while k < to && is_space(s[k])
        invariant
            from <= k <= to <= s@.len(),
            trim_start(s@.subrange(from as int, to as int)) == trim_start(
                s@.subrange(k as int, to as int),
            ),
        decreases to - k,
    {
        assert(s@.subrange(k as int, to as int).skip(1) == s@.subrange(k + 1, to as int));
        k += 1;
    }
    k
}

/// Where `trim_end` of `s[from..to]` ends.
pub fn skip_space_back(s: &[char], from: usize, to: usize) -> (k: usize)
    requires
        from <= to <= s@.len(),
    ensures
        from <= k <= to,
        trim_end(s@.subrange(from as int, to as int)) == s@.subrange(from as int, k as int),
{
    let mut k: usize = to;
    while k > from && is_space(s[k - 1])
        invariant
            from <= k <= to <= s@.len(),
            trim_end(s@.subrange(from as int, to as int)) == trim_end(
                s@.subrange(from as int, k as int),
            ),
        decreases k - from,
    {
        assert(s@.subrange(from as int, k as int).drop_last() == s@.subrange(from as int, k - 1));
        k -= 1;
    }
    k
}

/// The bounds of `trim` of `s[from..to]`.
pub fn trim_bounds(s: &[char], from: usize, to: usize) -> (r: (usize, usize))
    requires
        from <= to <= s@.len(),
    ensures
        from <= r.0 <= r.1 <= to,
        trim(s@.subrange(from as int, to as int)) == s@.subrange(r.0 as int, r.1 as int),
{
    let a = skip_space(s, from, to);
    let b = skip_space_back(s, a, to);
    (a, b)
}

/// The string made of `trim` of `s`.
pub fn trimmed(s: &str) -> (out: String)
    ensures
        out@ == trim(s@),
{
    let chars = chars_of(s);
    let (a, b) = trim_bounds(chars.as_slice(), 0, chars.len());
    assert(chars@.subrange(0, chars@.len() as int) == chars@);
    let mut out = String::new();
    push_chars(&mut out, chars.as_slice(), a, b);
    out
}

/// Whether `s` is empty or white space only.
pub fn is_blank(s: &str) -> (b: bool)
    ensures
        b == (trim(s@).len() == 0),
{
    let chars = chars_of(s);
    let (a, b) = trim_bounds(chars.as_slice(), 0, chars.len());
    assert(chars@.subrange(0, chars@.len() as int) == chars@);
    a == b
}

} // verus!
