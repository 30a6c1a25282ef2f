//! How a request is put together from its sections.

use crate::git::status::{Changes, StagedChangesSummary};
use crate::lines::{join, join_strings};
use crate::number::{decimal, push_decimal};
use crate::prompt::types::{commit_types, format_commit_types_for_prompt, listing};
use crate::prompt::wording::{
    ASK_MANY_0, ASK_MANY_1, ASK_MANY_2, ASK_MANY_3, ASK_ONE, AVAILABLE_TYPES, BEST_TYPE,
    BINARY_HEAD, DIFF_HEAD, DIFF_READING_GUIDE, FORMAT_RULE, IT, LENGTH_RULE_0, LENGTH_RULE_1,
    LENGTH_RULE_2, MAX_COMMIT_DESCRIPTION_CHARS, MIN_COMMIT_DESCRIPTION_CHARS,
    NO_BINARY_CHANGES, NO_EXTRA_TEXT, NO_STRUCTURE_CHANGES, NO_TEXTUAL_DIFF, PREVIOUS_0,
    PREVIOUS_1, PREVIOUS_2, RULE, SAME_TYPE_0, SAME_TYPE_1, SAME_TYPE_2, STRUCTURE_HEAD,
    TYPE_SELECTION_GUIDANCE, VARIATIONS_OF_IT,
};
use crate::space::{is_blank, skip_space_back, trim, trim_end};
use crate::text::{chars_of, push_chars, texts};
use vstd::prelude::*;
use vstd::string::StringExecFns;

verus! {

/// The guidance on how to choose the commit type.
pub fn build_type_selection_guidance() -> (s: String)
    ensures
        s@ == TYPE_SELECTION_GUIDANCE@,
{
    String::from_str(TYPE_SELECTION_GUIDANCE)
}

/// The guide on how to read the diff.
pub fn build_diff_reading_guide() -> (s: String)
    ensures
        s@ == DIFF_READING_GUIDE@,
{
    String::from_str(DIFF_READING_GUIDE)
}

/// The task: one message, or `count` alternatives of one.
pub open spec fn task_text(count: u32) -> Seq<char> {
    if count == 1 {
        ASK_ONE@
    } else {
        ASK_MANY_0@ + decimal(count as nat) + ASK_MANY_1@ + decimal(count as nat) + ASK_MANY_2@
            + decimal(count as nat) + ASK_MANY_3@
    }
}

/// The list of commit types with its heading, without the white space at the
/// end of the list.
pub open spec fn types_text() -> Seq<char> {
    AVAILABLE_TYPES@ + trim_end(listing(commit_types()))
}

/// How to choose the type and how long the description may be.
pub open spec fn length_text(count: u32) -> Seq<char> {
    (if count > 1 {
        SAME_TYPE_0@ + decimal(count as nat) + SAME_TYPE_1@ + decimal(count as nat) + SAME_TYPE_2@
    } else {
        BEST_TYPE@
    }) + LENGTH_RULE_0@ + decimal(MIN_COMMIT_DESCRIPTION_CHARS as nat) + LENGTH_RULE_1@ + decimal(
        MAX_COMMIT_DESCRIPTION_CHARS as nat,
    ) + LENGTH_RULE_2@
}

/// What is said of the message that is being replaced.
pub open spec fn previous_text(previous: Seq<char>, count: u32) -> Seq<char> {
    PREVIOUS_0@ + previous + PREVIOUS_1@ + (if count > 1 {
        decimal(count as nat) + VARIATIONS_OF_IT@
    } else {
        IT@
    }) + PREVIOUS_2@
}

/// The diff, or a note where it is empty or white space only.
pub open spec fn diff_text(diff: Seq<char>) -> Seq<char> {
    if trim(diff).len() == 0 {
        NO_TEXTUAL_DIFF@
    } else {
        diff
    }
}

/// The given changes, one on each line, or `none` where there is no change.
pub open spec fn changes_text(changes: Seq<Seq<char>>, none: Seq<char>) -> Seq<char> {
    if changes.len() == 0 {
        none
    } else {
        join(changes, "\n"@)
    }
}

/// The sections of the request, in their order. The note on the previous
/// message is there only where there is one.
pub open spec fn prompt_parts(
    diff: Seq<char>,
    changes: Changes,
    count: u32,
    previous: Option<Seq<char>>,
) -> Seq<Seq<char>> {
    seq![
        task_text(count),
        FORMAT_RULE@,
        TYPE_SELECTION_GUIDANCE@,
        types_text(),
        length_text(count),
        NO_EXTRA_TEXT@,
    ] + (match previous {
        Some(text) => seq![previous_text(text, count)],
        None => Seq::empty(),
    }) + seq![
        DIFF_READING_GUIDE@,
        DIFF_HEAD@,
        diff_text(diff),
        RULE@,
        BINARY_HEAD@,
        changes_text(changes.binary, NO_BINARY_CHANGES@),
        RULE@,
        STRUCTURE_HEAD@,
        changes_text(changes.structure, NO_STRUCTURE_CHANGES@),
        RULE@,
    ]
}

/// The whole request: its sections with an empty line between each two.
pub open spec fn prompt_text(
    diff: Seq<char>,
    changes: Changes,
    count: u32,
    previous: Option<Seq<char>>,
) -> Seq<char> {
    join(prompt_parts(diff, changes, count, previous), "\n\n"@)
}

/// The text of an optional string.
pub open spec fn text_of_option(s: Option<&str>) -> Option<Seq<char>> {
    match s {
        Some(s) => Some(s@),
        None => None,
    }
}

/// The task: one message, or `count` alternatives of one.
fn task(count: u32) -> (s: String)
    ensures
        s@ == task_text(count),
{
    if count == 1 {
        String::from_str(ASK_ONE)
    } else {
        let mut s = String::from_str(ASK_MANY_0);
        push_decimal(&mut s, count as u64);
        s.append(ASK_MANY_1);
        push_decimal(&mut s, count as u64);
        s.append(ASK_MANY_2);
        push_decimal(&mut s, count as u64);
        s.append(ASK_MANY_3);
        s
    }
}

/// The list of commit types with its heading.
fn types() -> (s: String)
    ensures
        s@ == types_text(),
{
    let list = format_commit_types_for_prompt();
    let chars = chars_of(list.as_str());
    let end = skip_space_back(chars.as_slice(), 0, chars.len());
    assert(chars@.subrange(0, chars@.len() as int) == chars@);
    let mut s = String::from_str(AVAILABLE_TYPES);
    push_chars(&mut s, chars.as_slice(), 0, end);
    s
}

/// How to choose the type and how long the description may be.
fn length_rule(count: u32) -> (s: String)
    ensures
        s@ == length_text(count),
{
    let mut s = String::new();
    if count > 1 {
        s.append(SAME_TYPE_0);
        push_decimal(&mut s, count as u64);
        s.append(SAME_TYPE_1);
        push_decimal(&mut s, count as u64);
        s.append(SAME_TYPE_2);
    } else {
        s.append(BEST_TYPE);
    }
    s.append(LENGTH_RULE_0);
    push_decimal(&mut s, MIN_COMMIT_DESCRIPTION_CHARS as u64);
    s.append(LENGTH_RULE_1);
    push_decimal(&mut s, MAX_COMMIT_DESCRIPTION_CHARS as u64);
    s.append(LENGTH_RULE_2);
    s
}

/// What is said of the message that is being replaced.
fn previous_note(previous: &str, count: u32) -> (s: String)
    ensures
        s@ == previous_text(previous@, count),
{
    let mut s = String::from_str(PREVIOUS_0);
    s.append(previous);
    s.append(PREVIOUS_1);
    if count > 1 {
        push_decimal(&mut s, count as u64);
        s.append(VARIATIONS_OF_IT);
    } else {
        s.append(IT);
    }
    s.append(PREVIOUS_2);
    s
}

/// The given changes, one on each line, or `none` where there is no change.
fn changes_or(changes: &Vec<String>, none: &str) -> (s: String)
    ensures
        s@ == changes_text(texts(changes@), none@),
{
    if changes.len() == 0 {
        String::from_str(none)
    } else {
        join_strings(changes, "\n")
    }
}

/// Builds the request for `num_suggestions` commit messages on the given
/// diff and summary: `prompt_text` of them. With a previous message the
/// request asks for a better one.
pub fn build_prompt(
    diff_content: &str,
    changes_summary: &StagedChangesSummary,
    num_suggestions: u32,
    previous_message: Option<&str>,
) -> (s: String)
    ensures
        s@ == prompt_text(
            diff_content@,
            changes_summary@,
            num_suggestions,
            text_of_option(previous_message),
        ),
{
    let ghost want = prompt_parts(
        diff_content@,
        changes_summary@,
        num_suggestions,
        text_of_option(previous_message),
    );
    let mut parts: Vec<String> = Vec::new();
    parts.push(task(num_suggestions));
    parts.push(String::from_str(FORMAT_RULE));
    parts.push(build_type_selection_guidance());
    parts.push(types());
    parts.push(length_rule(num_suggestions));
    parts.push(String::from_str(NO_EXTRA_TEXT));
    match previous_message {
        Some(previous) => {
            parts.push(previous_note(previous, num_suggestions));
        },
        None => {},
    }
    parts.push(build_diff_reading_guide());
    parts.push(String::from_str(DIFF_HEAD));
    if is_blank(diff_content) {
        parts.push(String::from_str(NO_TEXTUAL_DIFF));
    } else {
        parts.push(String::from_str(diff_content));
    }
    parts.push(String::from_str(RULE));
    parts.push(String::from_str(BINARY_HEAD));
    parts.push(changes_or(&changes_summary.binary_file_changes, NO_BINARY_CHANGES));
    parts.push(String::from_str(RULE));
    parts.push(String::from_str(STRUCTURE_HEAD));
    parts.push(changes_or(&changes_summary.structure_changes, NO_STRUCTURE_CHANGES));
    parts.push(String::from_str(RULE));
    assert(texts(parts@) =~= want);
    join_strings(&parts, "\n\n")
}

} // verus!
