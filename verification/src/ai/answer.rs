//! A whole answer: the text blocks of its candidates, and the commit
//! messages in them.

use crate::ai::error::AiError;
use crate::ai::line::{clean_line, suggestion_of, FENCE};
use crate::lines::{line_at, lines};
use crate::scan::{ends_with, has_prefix};
use crate::space::{trim, trim_bounds, trimmed};
use crate::text::{chars_of, texts};
use vstd::prelude::*;
use vstd::slice::slice_subrange;

verus! {

/// One piece of a candidate's content.
#[derive(Debug, Clone)]
pub struct ModelPart {
    /// The text of the piece, if it has one.
    pub text: Option<String>,
}

/// The content of a candidate.
#[derive(Debug, Clone)]
pub struct ModelContent {
    /// The pieces of the content, if it has any.
    pub parts: Option<Vec<ModelPart>>,
}

/// One answer of the text generator.
#[derive(Debug, Clone)]
pub struct Candidate {
    /// What the candidate says, if anything.
    pub content: Option<ModelContent>,
}

/// The error that the service reports in place of candidates.
#[derive(Debug, Clone)]
pub struct ApiErrorDetail {
    /// The number of the error.
    pub code: i32,
    /// The error in words.
    pub message: String,
    /// The name of the error.
    pub status: String,
}

/// A fence with the line feed behind it.
pub const FENCE_OPEN: &'static str = "```\n";

/// A fence with the line feed before it.
pub const FENCE_CLOSE: &'static str = "\n```";

/// `p` without `open` at its start and `close` at its end, trimmed; where
/// what follows `open` does not end with `close`, the whole of `p`, trimmed.
pub open spec fn unfenced_by(p: Seq<char>, open: Seq<char>, close: Seq<char>) -> Seq<char> {
    let inner = p.skip(open.len() as int);
    if close.is_suffix_of(inner) {
        trim(inner.take(inner.len() - close.len()))
    } else {
        trim(p)
    }
}

/// A text block without the fences around it, if it has them.
pub open spec fn unfenced(p: Seq<char>) -> Seq<char> {
    if FENCE_OPEN@.is_prefix_of(p) && FENCE_CLOSE@.is_suffix_of(p) {
        unfenced_by(p, FENCE_OPEN@, FENCE_CLOSE@)
    } else if FENCE@.is_prefix_of(p) && FENCE@.is_suffix_of(p) {
        unfenced_by(p, FENCE@, FENCE@)
    } else {
        p
    }
}

/// The suggestions of the given lines, in their order.
pub open spec fn suggestions_of_lines(ls: Seq<Seq<char>>) -> Seq<Seq<char>>
    decreases ls.len(),
{
    if ls.len() == 0 {
        Seq::empty()
    } else {
        let before = suggestions_of_lines(ls.drop_last());
        match suggestion_of(ls.last()) {
            Some(s) => before.push(s),
            None => before,
        }
    }
}

/// The suggestions in one text block.
pub open spec fn suggestions_in(text: Seq<char>) -> Seq<Seq<char>> {
    suggestions_of_lines(lines(unfenced(trim(text))))
}

/// The suggestions in the given parts, in their order.
pub open spec fn suggestions_of_parts(parts: Seq<ModelPart>) -> Seq<Seq<char>>
    decreases parts.len(),
{
    if parts.len() == 0 {
        Seq::empty()
    } else {
        suggestions_of_parts(parts.drop_last()) + (match parts.last().text {
            Some(text) => suggestions_in(text@),
            None => Seq::empty(),
        })
    }
}

/// The suggestions in one candidate.
pub open spec fn suggestions_of_candidate(candidate: Candidate) -> Seq<Seq<char>> {
    match candidate.content {
        Some(content) => match content.parts {
            Some(parts) => suggestions_of_parts(parts@),
            None => Seq::empty(),
        },
        None => Seq::empty(),
    }
}

/// The suggestions in the given candidates, in their order.
pub open spec fn suggestions_of_candidates(candidates: Seq<Candidate>) -> Seq<Seq<char>>
    decreases candidates.len(),
{
    if candidates.len() == 0 {
        Seq::empty()
    } else {
        suggestions_of_candidates(candidates.drop_last()) + suggestions_of_candidate(
            candidates.last(),
        )
    }
}

/// All the suggestions of an answer.
pub open spec fn all_suggestions(candidates: Option<Vec<Candidate>>) -> Seq<Seq<char>> {
    match candidates {
        Some(candidates) => suggestions_of_candidates(candidates@),
        None => Seq::empty(),
    }
}

/// The first `max` of the suggestions, or all where there are no more.
pub open spec fn first_of(all: Seq<Seq<char>>, max: u32) -> Seq<Seq<char>> {
    if all.len() > max {
        all.take(max as int)
    } else {
        all
    }
}

/// A text block without the fences around it.
pub fn strip_fences<'a>(p: &'a [char]) -> (r: &'a [char])
    ensures
        r@ == unfenced(p@),
{
    let open = chars_of(FENCE_OPEN);
    let close = chars_of(FENCE_CLOSE);
    let fence = chars_of(FENCE);
    if has_prefix(p, open.as_slice()) && ends_with(p, close.as_slice()) {
        strip_pair(p, open.as_slice(), close.as_slice())
    } else if has_prefix(p, fence.as_slice()) && ends_with(p, fence.as_slice()) {
        strip_pair(p, fence.as_slice(), fence.as_slice())
    } else {
        p
    }
}

/// `p`, which begins with `open`, without it and without `close` at its end.
fn strip_pair<'a>(p: &'a [char], open: &[char], close: &[char]) -> (r: &'a [char])
    requires
        open@.is_prefix_of(p@),
    ensures
        r@ == unfenced_by(p@, open@, close@),
{
    let n = p.len();
    let inner = slice_subrange(p, open.len(), n);
    if ends_with(inner, close) {
        let m = inner.len() - close.len();
        let (a, b) = trim_bounds(inner, 0, m);
        slice_subrange(inner, a, b)
    } else {
        let (a, b) = trim_bounds(p, 0, n);
        assert(p@.subrange(0, n as int) == p@);
        slice_subrange(p, a, b)
    }
}

/// Appends the suggestions in one text block to `out`.
pub fn collect_block(text: &str, out: &mut Vec<String>)
    ensures
        texts(final(out)@) == texts(old(out)@) + suggestions_in(text@),
{
    let chars = chars_of(text);
    let (a, b) = trim_bounds(chars.as_slice(), 0, chars.len());
    assert(chars@.subrange(0, chars@.len() as int) == chars@);
    let body = strip_fences(slice_subrange(chars.as_slice(), a, b));
    let n = body.len();
    let mut pos: usize = 0;
    let ghost mut done: Seq<Seq<char>> = Seq::empty();
    proof {
        assert(body@.skip(0) == body@);
    }
    while pos < n
        invariant
            n == body@.len(),
            pos <= n,
            lines(body@) == done + lines(body@.skip(pos as int)),
            texts(out@) == texts(old(out)@) + suggestions_of_lines(done),
        decreases n - pos,
    {
        let (end, next) = line_at(body, pos);
        let line = slice_subrange(body, pos, end);
        let ghost before = texts(out@);
        match clean_line(line) {
            Some(s) => {
                out.push(s);
                assert(texts(out@) =~= before.push(s@));
            },
            None => {},
        }
        proof {
            assert(done.push(line@).drop_last() =~= done);
            done = done.push(line@);
        }
        pos = next;
    }
}

/// Appends the suggestions in the given parts to `out`.
pub fn collect_parts(parts: &Vec<ModelPart>, out: &mut Vec<String>)
    ensures
        texts(final(out)@) == texts(old(out)@) + suggestions_of_parts(parts@),
{
    let mut i: usize = 0;
    while i < parts.len()
        invariant
            i <= parts@.len(),
            texts(out@) == texts(old(out)@) + suggestions_of_parts(parts@.take(i as int)),
        decreases parts@.len() - i,
    {
        match &parts[i].text {
            Some(text) => {
                collect_block(text.as_str(), out);
            },
            None => {},
        }
        proof {
            assert(parts@.take(i + 1).drop_last() =~= parts@.take(i as int));
        }
        i += 1;
    }
    assert(parts@.take(parts@.len() as int) =~= parts@);
}

/// Appends the suggestions in one candidate to `out`.
pub fn collect_candidate(candidate: &Candidate, out: &mut Vec<String>)
    ensures
        texts(final(out)@) == texts(old(out)@) + suggestions_of_candidate(*candidate),
{
    match &candidate.content {
        Some(content) => match &content.parts {
            Some(parts) => {
                collect_parts(parts, out);
                return ;
            },
            None => {},
        },
        None => {},
    }
}

/// The messages that an answer offers: the suggestions of all its text
/// blocks in their order, the first `max_suggestions_to_return` of them at
/// most. An answer without a suggestion is an error, and so is any answer
/// where none may be returned.
pub fn process_api_response_candidates(
    api_response_candidates: Option<Vec<Candidate>>,
    max_suggestions_to_return: u32,
) -> (r: Result<Vec<String>, AiError>)
    ensures
        match r {
            Ok(suggestions) => suggestions@.len() > 0 && texts(suggestions@) == first_of(
                all_suggestions(api_response_candidates),
                max_suggestions_to_return,
            ),
            Err(e) => e is NoSuggestions && first_of(
                all_suggestions(api_response_candidates),
                max_suggestions_to_return,
            ).len() == 0,
        },
{
    let mut suggestions: Vec<String> = Vec::new();
    match &api_response_candidates {
        Some(candidates) => {
            let mut i: usize = 0;
            while i < candidates.len()
                invariant
                    i <= candidates@.len(),
                    texts(suggestions@) == suggestions_of_candidates(candidates@.take(i as int)),
                decreases candidates@.len() - i,
            {
                collect_candidate(&candidates[i], &mut suggestions);
                proof {
                    assert(candidates@.take(i + 1).drop_last() =~= candidates@.take(i as int));
                }
                i += 1;
            }
            assert(candidates@.take(candidates@.len() as int) =~= candidates@);
        },
        None => {},
    }
    if suggestions.len() > max_suggestions_to_return as usize {
        suggestions.truncate(max_suggestions_to_return as usize);
    }
    if suggestions.len() == 0 {
        return Err(AiError::NoSuggestions);
    }
    Ok(suggestions)
}

/// The messages that a decoded answer offers. An error that the service
/// reports comes first; without one the candidates are processed.
pub fn interpret_response(
    error: Option<ApiErrorDetail>,
    candidates: Option<Vec<Candidate>>,
    max_suggestions_to_return: u32,
) -> (r: Result<Vec<String>, AiError>)
    ensures
        match error {
            Some(detail) => r matches Err(AiError::Api { code, message, status }) && code
                == detail.code && message@ == detail.message@ && status@ == detail.status@,
            None => match r {
                Ok(suggestions) => suggestions@.len() > 0 && texts(suggestions@) == first_of(
                    all_suggestions(candidates),
                    max_suggestions_to_return,
                ),
                Err(e) => e is NoSuggestions && first_of(
                    all_suggestions(candidates),
                    max_suggestions_to_return,
                ).len() == 0,
            },
        },
{
    match error {
        Some(detail) => Err(
            AiError::Api { code: detail.code, message: detail.message, status: detail.status },
        ),
        None => process_api_response_candidates(candidates, max_suggestions_to_return),
    }
}

/// The message to commit with where one is wanted: the first suggestion,
/// trimmed, unless there is none or it is empty then.
pub fn first_suggestion(suggestions: &Vec<String>) -> (r: Option<String>)
    ensures
        match r {
            Some(message) => suggestions@.len() > 0 && message@ == trim(suggestions@[0]@)
                && message@.len() > 0,
            None => suggestions@.len() == 0 || trim(suggestions@[0]@).len() == 0,
        },
{
    if suggestions.len() == 0 {
        return None;
    }
    let message = trimmed(suggestions[0].as_str());
    if message.as_str().is_empty() {
        None
    } else {
        Some(message)
    }
}

} // verus!
