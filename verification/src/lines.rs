//! The lines of a text, and texts in a row with a separator between them.

use crate::scan::{find_char, first_at};
use crate::text::texts;
use vstd::prelude::*;
use vstd::string::StringExecFns;

verus! {

/// `line` without the carriage return at its end, if it has one.
pub open spec fn strip_cr(line: Seq<char>) -> Seq<char> {
    if line.len() > 0 && line.last() == '\r' {
        line.drop_last()
    } else {
        line
    }
}

/// The lines of a text. A line ends at a line feed, which is not part of it,
/// nor is a carriage return right before that line feed. What follows the last
/// line feed is a line too, unless it is empty.
pub open spec fn lines(s: Seq<char>) -> Seq<Seq<char>>
    decreases s.len(),
{
    if s.len() == 0 {
        Seq::empty()
    } else {
        let k = first_at(s, '\n');
        if 0 <= k < s.len() {
            seq![strip_cr(s.take(k))] + lines(s.skip(k + 1))
        } else {
            seq![s]
        }
    }
}

/// The line that begins at `pos`: where it ends and where the next one
/// begins.
pub fn line_at(s: &[char], pos: usize) -> (r: (usize, usize))
    requires
        pos < s@.len(),
    ensures
        pos <= r.0 <= r.1 <= s@.len(),
        pos < r.1,
        lines(s@.skip(pos as int)) == seq![s@.subrange(pos as int, r.0 as int)] + lines(
            s@.skip(r.1 as int),
        ),
{
    let n = s.len();
    let ghost rest = s@.skip(pos as int);
    let feed = find_char(s, pos, '\n');
    let mut end = feed;
    if feed < n && end > pos && s[end - 1] == '\r' {
        end = end - 1;
    }
    proof {
        let line = s@.subrange(pos as int, end as int);
        let whole = rest.take(feed - pos);
        if feed < n {
            if whole.len() > 0 && whole.last() == '\r' {
                assert(line =~= whole.drop_last());
            } else {
                assert(line =~= whole);
            }
            assert(rest.skip(feed - pos + 1) == s@.skip(feed + 1));
        }
    }
    if feed < n {
        (end, feed + 1)
    } else {
        (end, n)
    }
}

/// The texts of `parts` in a row, with `sep` between each two.
pub open spec fn join(parts: Seq<Seq<char>>, sep: Seq<char>) -> Seq<char>
    decreases parts.len(),
{
    if parts.len() == 0 {
        Seq::empty()
    } else if parts.len() == 1 {
        parts[0]
    } else {
        join(parts.drop_last(), sep) + sep + parts.last()
    }
}

/// `join` of one more part: the separator comes before it unless it is the
/// first.
pub proof fn lemma_join_push(parts: Seq<Seq<char>>, sep: Seq<char>, part: Seq<char>)
    ensures
        join(parts.push(part), sep) == if parts.len() == 0 {
            part
        } else {
            join(parts, sep) + sep + part
        },
{
    assert(parts.push(part).drop_last() =~= parts);
}

/// The strings of `parts` in a row, with `sep` between each two.
pub fn join_strings(parts: &Vec<String>, sep: &str) -> (out: String)
    ensures
        out@ == join(texts(parts@), sep@),
{
    let mut out = String::new();
    let mut i: usize = 0;
    while i < parts.len()
        invariant
            i <= parts@.len(),
            out@ == join(texts(parts@).take(i as int), sep@),
        decreases parts@.len() - i,
    {
        let ghost done = texts(parts@).take(i as int);
        if i > 0 {
            out.append(sep);
        }
        out.append(parts[i].as_str());
        proof {
            lemma_join_push(done, sep@, parts@[i as int]@);
            assert(texts(parts@).take(i + 1) =~= done.push(parts@[i as int]@));
        }
        i += 1;
    }
    assert(texts(parts@).take(parts@.len() as int) =~= texts(parts@));
    out
}

} // verus!
