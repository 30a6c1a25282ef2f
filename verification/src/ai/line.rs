//! One line of an answer: whether it holds a commit message, and which.

use crate::scan::{contains, find, has_char, position_of, same_text, starts_with};
use crate::space::{skip_space, trim, trim_bounds, trim_start};
use crate::text::{chars_of, lowercase, string_of};
use vstd::prelude::*;
use vstd::slice::slice_subrange;
use vstd::utf8::encode_utf8;

verus! {

/// A fence of a code block.
pub const FENCE: &'static str = "```";

/// What ends the number of a list item.
pub const NUMBER_END: &'static str = ". ";

/// What ends the lead-in of an objection.
pub const LEAD_END: &'static str = ": ";

/// The length in bytes beyond which a line is no suggestion.
pub const MAX_SUGGESTION_BYTES: usize = 200;

/// Whether `c` is one of the digits `0` to `9`.
pub open spec fn is_ascii_digit(c: char) -> bool {
    '0' <= c <= '9'
}

/// Whether `s` holds digits only.
pub open spec fn all_digits(s: Seq<char>) -> bool {
    forall|i: int| 0 <= i < s.len() ==> is_ascii_digit(#[trigger] s[i])
}

/// `c` without the number that it begins with, where what stands before the
/// first `. `, at `dot`, is a number.
pub open spec fn without_number(c: Seq<char>, dot: int) -> Seq<char> {
    if dot > 0 && all_digits(c.take(dot)) {
        if c.len() > dot + 2 {
            trim_start(c.skip(dot + 2))
        } else {
            Seq::empty()
        }
    } else {
        c
    }
}

/// `c` without the two characters of a bullet at its start.
pub open spec fn without_bullet(c: Seq<char>) -> Seq<char> {
    if c.len() > 2 {
        trim_start(c.skip(2))
    } else {
        Seq::empty()
    }
}

/// What follows the first `: ` in `c`, trimmed, where there is something;
/// else `c`.
pub open spec fn after_lead(c: Seq<char>) -> Seq<char> {
    match position_of(c, LEAD_END@) {
        Some(colon) => if c.len() > colon + 2 {
            trim(c.skip(colon + 2))
        } else {
            c
        },
        None => c,
    }
}

/// A line without what marks it as an item of a list or as an objection. A
/// line that holds `. ` is looked at for a number only.
pub open spec fn without_marker(c: Seq<char>) -> Seq<char> {
    match position_of(c, NUMBER_END@) {
        Some(dot) => without_number(c, dot),
        None => if "- "@.is_prefix_of(c) || "* "@.is_prefix_of(c) {
            without_bullet(c)
        } else if "however,"@.is_prefix_of(lowercase(c)) {
            after_lead(c)
        } else {
            c
        },
    }
}

/// Whether a line, in lower case, is talk around the messages and not a
/// message.
pub open spec fn is_chatter(lowered: Seq<char>) -> bool {
    ||| "here are"@.is_prefix_of(lowered)
    ||| "sure,"@.is_prefix_of(lowered)
    ||| "okay,"@.is_prefix_of(lowered)
    ||| "response:"@.is_prefix_of(lowered)
    ||| "given the"@.is_prefix_of(lowered)
    ||| "the ai suggests"@.is_prefix_of(lowered)
    ||| "i suggest"@.is_prefix_of(lowered)
    ||| contains(lowered, "possible commit message"@)
    ||| contains(lowered, "commit message based on the provided diff"@)
}

/// Whether a cleaned line is kept as a suggestion. `lowered` is its
/// lower-case form.
pub open spec fn is_suggestion(s: Seq<char>, lowered: Seq<char>) -> bool {
    &&& s.len() > 0
    &&& !is_chatter(lowered)
    &&& s.contains(':')
    &&& !(encode_utf8(s).len() > MAX_SUGGESTION_BYTES && !s.contains('\n'))
}

/// The suggestion that a line holds, if it holds one: the line trimmed and
/// without its marker, unless it is empty, a fence, talk, without a colon or
/// too long.
pub open spec fn suggestion_of(line: Seq<char>) -> Option<Seq<char>> {
    let c = trim(line);
    if c.len() == 0 || c == FENCE@ {
        None
    } else {
        let s = trim(without_marker(c));
        if is_suggestion(s, lowercase(s)) {
            Some(s)
        } else {
            None
        }
    }
}

/// Whether the first `n` characters of `s` are digits.
fn digits_only(s: &[char], n: usize) -> (b: bool)
    requires
        n <= s@.len(),
    ensures
        b == all_digits(s@.take(n as int)),
{
    let mut i: usize = 0;
    while i < n
        invariant
            i <= n <= s@.len(),
            forall|j: int| 0 <= j < i ==> is_ascii_digit(#[trigger] s@.take(n as int)[j]),
        decreases n - i,
    {
        if !('0' <= s[i] && s[i] <= '9') {
            assert(!is_ascii_digit(s@.take(n as int)[i as int]));
            return false;
        }
        i += 1;
    }
    true
}

/// A line that is no item of a list, without the lead-in of an objection:
/// where its lower-case form `lowered` begins with `however,`, what follows
/// the first `: `.
pub fn strip_objection<'a>(c: &'a [char], lowered: &[char]) -> (r: &'a [char])
    ensures
        r@ == if "however,"@.is_prefix_of(lowered@) {
            after_lead(c@)
        } else {
            c@
        },
{
    if !starts_with(lowered, "however,") {
        return c;
    }
    let n = c.len();
    let mark = chars_of(LEAD_END);
    match find(c, mark.as_slice()) {
        Some(colon) => {
            if n - colon > 2 {
                let (a, b) = trim_bounds(c, colon + 2, n);
                slice_subrange(c, a, b)
            } else {
                c
            }
        },
        None => c,
    }
}

/// A line without what marks it as an item of a list or as an objection.
pub fn strip_marker<'a>(c: &'a [char]) -> (r: &'a [char])
    ensures
        r@ == without_marker(c@),
{
    let n = c.len();
    let mark = chars_of(NUMBER_END);
    match find(c, mark.as_slice()) {
        Some(dot) => {
            if dot > 0 && digits_only(c, dot) {
                if n - dot > 2 {
                    let k = skip_space(c, dot + 2, n);
                    slice_subrange(c, k, n)
                } else {
                    slice_subrange(c, 0, 0)
                }
            } else {
                c
            }
        },
        None => {
            if starts_with(c, "- ") || starts_with(c, "* ") {
                if n > 2 {
                    let k = skip_space(c, 2, n);
                    slice_subrange(c, k, n)
                } else {
                    slice_subrange(c, 0, 0)
                }
            } else {
                let lowered = string_of(c).as_str().to_lowercase();
                let low = chars_of(lowered.as_str());
                strip_objection(c, low.as_slice())
            }
        },
    }
}

/// Whether a line, given in lower case, is talk around the messages.
pub fn is_chatter_line(lowered: &[char]) -> (b: bool)
    ensures
        b == is_chatter(lowered@),
{
    let possible = chars_of("possible commit message");
    let based = chars_of("commit message based on the provided diff");
    starts_with(lowered, "here are") || starts_with(lowered, "sure,") || starts_with(
        lowered,
        "okay,",
    ) || starts_with(lowered, "response:") || starts_with(lowered, "given the") || starts_with(
        lowered,
        "the ai suggests",
    ) || starts_with(lowered, "i suggest") || find(lowered, possible.as_slice()).is_some() || find(
        lowered,
        based.as_slice(),
    ).is_some()
}

/// Whether the cleaned line `s`, with `lowered` its lower-case form, is kept
/// as a suggestion.
pub fn keeps(s: &str, lowered: &str) -> (b: bool)
    ensures
        b == is_suggestion(s@, lowered@),
{
    let chars = chars_of(s);
    let low = chars_of(lowered);
    if chars.len() == 0 {
        return false;
    }
    if is_chatter_line(low.as_slice()) || !has_char(chars.as_slice(), ':') {
        return false;
    }
    !(s.as_bytes().len() > MAX_SUGGESTION_BYTES && !has_char(chars.as_slice(), '\n'))
}

/// The suggestion that a line holds, if it holds one.
pub fn clean_line(line: &[char]) -> (r: Option<String>)
    ensures
        match r {
            Some(s) => suggestion_of(line@) == Some(s@),
            None => suggestion_of(line@) is None,
        },
{
    let (a, b) = trim_bounds(line, 0, line.len());
    assert(line@.subrange(0, line@.len() as int) == line@);
    let c = slice_subrange(line, a, b);
    if c.len() == 0 || same_text(c, FENCE) {
        return None;
    }
    let bare = strip_marker(c);
    let (x, y) = trim_bounds(bare, 0, bare.len());
    assert(bare@.subrange(0, bare@.len() as int) == bare@);
    let s = string_of(slice_subrange(bare, x, y));
    let lowered = s.as_str().to_lowercase();
    if keeps(s.as_str(), lowered.as_str()) {
        Some(s)
    } else {
        None
    }
}

} // verus!
