//! The diff annotator: marks the added and the removed lines of a unified
//! diff in words, and leaves every other line as it is.

use crate::lines::{join, lemma_join_push, line_at, lines};
use crate::scan::starts_with;
use crate::text::{chars_of, push_chars};
use vstd::prelude::*;
use vstd::slice::slice_subrange;
use vstd::string::StringExecFns;

verus! {

/// What stands in place of the `+` of an added line.
pub const ADDED_MARK: &'static str = "[ADDED_LINE]: ";

/// What stands in place of the `-` of a removed line.
pub const REMOVED_MARK: &'static str = "[REMOVED_LINE]: ";

/// Whether `line` is metadata of the diff: a file header, a mode, rename, copy
/// or similarity line, a notice on binary files, or a hunk header.
pub open spec fn is_header(line: Seq<char>) -> bool {
    ||| "+++"@.is_prefix_of(line)
    ||| "---"@.is_prefix_of(line)
    ||| "diff --git"@.is_prefix_of(line)
    ||| "index"@.is_prefix_of(line)
    ||| "old mode"@.is_prefix_of(line)
    ||| "new mode"@.is_prefix_of(line)
    ||| "deleted file mode"@.is_prefix_of(line)
    ||| "new file mode"@.is_prefix_of(line)
    ||| "copy from"@.is_prefix_of(line)
    ||| "copy to"@.is_prefix_of(line)
    ||| "rename from"@.is_prefix_of(line)
    ||| "rename to"@.is_prefix_of(line)
    ||| "similarity index"@.is_prefix_of(line)
    ||| "dissimilarity index"@.is_prefix_of(line)
    ||| "Binary files"@.is_prefix_of(line)
    ||| "@@"@.is_prefix_of(line)
}

/// One line, annotated: a header stays; otherwise a leading `+` or `-` gives
/// way to its mark, and what follows it stays; any other line stays.
pub open spec fn annotate_line(line: Seq<char>) -> Seq<char> {
    if is_header(line) {
        line
    } else if line.len() > 0 && line[0] == '+' {
        ADDED_MARK@ + line.skip(1)
    } else if line.len() > 0 && line[0] == '-' {
        REMOVED_MARK@ + line.skip(1)
    } else {
        line
    }
}

/// A whole diff, annotated: its lines, each annotated, with one line feed
/// between each two.
pub open spec fn annotated(diff: Seq<char>) -> Seq<char> {
    join(lines(diff).map_values(|line: Seq<char>| annotate_line(line)), seq!['\n'])
}

/// Whether `line` is metadata of the diff.
pub fn is_header_line(line: &[char]) -> (b: bool)
    ensures
        b == is_header(line@),
{
    starts_with(line, "+++") || starts_with(line, "---") || starts_with(line, "diff --git")
        || starts_with(line, "index") || starts_with(line, "old mode") || starts_with(
        line,
        "new mode",
    ) || starts_with(line, "deleted file mode") || starts_with(line, "new file mode")
        || starts_with(line, "copy from") || starts_with(line, "copy to") || starts_with(
        line,
        "rename from",
    ) || starts_with(line, "rename to") || starts_with(line, "similarity index") || starts_with(
        line,
        "dissimilarity index",
    ) || starts_with(line, "Binary files") || starts_with(line, "@@")
}

/// Appends `line`, annotated, to `out`.
pub fn push_annotated(out: &mut String, line: &[char])
    ensures
        final(out)@ == old(out)@ + annotate_line(line@),
{
    let n = line.len();
    let mut from: usize = 0;
    if !is_header_line(line) && n > 0 {
        if line[0] == '+' {
            out.append(ADDED_MARK);
            from = 1;
        } else if line[0] == '-' {
            out.append(REMOVED_MARK);
            from = 1;
        }
    }
    push_chars(out, line, from, n);
}

/// Annotates a unified diff for a reader that does not know the format: the
/// result is `annotated` of the diff. An empty diff gives an empty text.
pub fn preprocess_diff_for_ai(raw_diff: &str) -> (out: String)
    ensures
        out@ == annotated(raw_diff@),
        raw_diff@.len() == 0 ==> out@.len() == 0,
{
    let chars = chars_of(raw_diff);
    let text = chars.as_slice();
    let n = text.len();
    let mut out = String::new();
    let mut pos: usize = 0;
    let mut first = true;
    let ghost mark = |line: Seq<char>| annotate_line(line);
    let ghost sep = seq!['\n'];
    let ghost mut done: Seq<Seq<char>> = Seq::empty();
    assert(text@.skip(0) == text@);
    while pos < n
        invariant
            n == text@.len(),
            text@ == raw_diff@,
            pos <= n,
            sep == seq!['\n'],
            mark == (|line: Seq<char>| annotate_line(line)),
            lines(text@) == done + lines(text@.skip(pos as int)),
            out@ == join(done.map_values(mark), sep),
            first == (done.len() == 0),
        decreases n - pos,
    {
        let (end, next) = line_at(text, pos);
        let line = slice_subrange(text, pos, end);
        if !first {
            out.push('\n');
        }
        push_annotated(&mut out, line);
        proof {
            lemma_join_push(done.map_values(mark), sep, mark(line@));
            assert(done.push(line@).map_values(mark) =~= done.map_values(mark).push(mark(line@)));
            done = done.push(line@);
        }
        first = false;
        pos = next;
    }
    out
}

} // verus!
