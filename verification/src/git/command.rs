//! The commands of the version-control tool: their arguments, and what is
//! made of what they print.

use crate::lines::{join, join_strings, line_at, lines};
use crate::scan::{contains, str_contains};
use crate::space::{is_blank, trim, trimmed};
use crate::text::{chars_of, lowercase, push_chars, text_of, texts};
use vstd::prelude::*;
use vstd::string::StringExecFns;
use vstd::utf8::*;

verus! {

/// Why a command was not prepared, or what it printed not used.
#[derive(Debug, Clone, PartialEq, Eq)]
pub enum GitError {
    /// The message to commit with is empty or white space only.
    EmptyMessage,
    /// The message to amend with is empty or white space only.
    EmptyAmendMessage,
    /// What the command printed is not well-formed UTF-8.
    OutputNotText,
    /// The command failed, for a reason other than a history without commits.
    Failed(String),
}

/// What is said of an empty message to commit with.
pub const EMPTY_MESSAGE: &'static str = "Commit message cannot be empty.";

/// What is said of an empty message to amend with.
pub const EMPTY_AMEND_MESSAGE: &'static str = "Commit message for amend cannot be empty.";

/// What is said of output that is not text.
pub const OUTPUT_NOT_TEXT: &'static str = "Failed to read git output as UTF-8";

impl GitError {
    /// The error in words.
    pub open spec fn text(self) -> Seq<char> {
        match self {
            GitError::EmptyMessage => EMPTY_MESSAGE@,
            GitError::EmptyAmendMessage => EMPTY_AMEND_MESSAGE@,
            GitError::OutputNotText => OUTPUT_NOT_TEXT@,
            GitError::Failed(message) => message@,
        }
    }

    /// The error in words.
    pub fn message(&self) -> (s: String)
        ensures
            s@ == self.text(),
    {
        match self {
            GitError::EmptyMessage => String::from_str(EMPTY_MESSAGE),
            GitError::EmptyAmendMessage => String::from_str(EMPTY_AMEND_MESSAGE),
            GitError::OutputNotText => String::from_str(OUTPUT_NOT_TEXT),
            GitError::Failed(message) => message.clone(),
        }
    }
}

/// Whether the index holds staged changes, from what the short status
/// printed: whether that is more than white space.
pub fn has_staged_files(status_output: &[u8]) -> (r: Result<bool, GitError>)
    ensures
        match r {
            Ok(b) => valid_utf8(status_output@) && b == (trim(decode_utf8(status_output@)).len()
                > 0),
            Err(e) => !valid_utf8(status_output@) && e == GitError::OutputNotText,
        },
{
    match text_of(status_output) {
        Some(text) => Ok(!is_blank(text)),
        None => Err(GitError::OutputNotText),
    }
}

/// The staged diff as text, from what the diff command printed.
pub fn get_staged_diff(diff_output: &[u8]) -> (r: Result<String, GitError>)
    ensures
        match r {
            Ok(diff) => valid_utf8(diff_output@) && diff@ == decode_utf8(diff_output@),
            Err(e) => !valid_utf8(diff_output@) && e == GitError::OutputNotText,
        },
{
    match text_of(diff_output) {
        Some(text) => Ok(text.to_owned()),
        None => Err(GitError::OutputNotText),
    }
}

/// The arguments that commit with `message`.
pub open spec fn commit_arguments(message: Seq<char>) -> Seq<Seq<char>> {
    seq!["commit"@, "-m"@, message]
}

/// The arguments that amend the last commit with `message`.
pub open spec fn amend_arguments(message: Seq<char>) -> Seq<Seq<char>> {
    seq!["commit"@, "--amend"@, "-m"@, message]
}

/// The arguments of the command that commits what is staged with `message`.
/// A message that is empty or white space only is refused.
pub fn commit_staged_files(message: &str) -> (r: Result<Vec<String>, GitError>)
    ensures
        match r {
            Ok(arguments) => trim(message@).len() > 0 && texts(arguments@) == commit_arguments(
                message@,
            ),
            Err(e) => trim(message@).len() == 0 && e == GitError::EmptyMessage,
        },
{
    if is_blank(message) {
        return Err(GitError::EmptyMessage);
    }
    let mut arguments: Vec<String> = Vec::new();
    arguments.push(String::from_str("commit"));
    arguments.push(String::from_str("-m"));
    arguments.push(String::from_str(message));
    Ok(arguments)
}

/// The arguments of the command that amends the last commit with `message`.
/// A message that is empty or white space only is refused.
pub fn amend_commit(message: &str) -> (r: Result<Vec<String>, GitError>)
    ensures
        match r {
            Ok(arguments) => trim(message@).len() > 0 && texts(arguments@) == amend_arguments(
                message@,
            ),
            Err(e) => trim(message@).len() == 0 && e == GitError::EmptyAmendMessage,
        },
{
    if is_blank(message) {
        return Err(GitError::EmptyAmendMessage);
    }
    let mut arguments: Vec<String> = Vec::new();
    arguments.push(String::from_str("commit"));
    arguments.push(String::from_str("--amend"));
    arguments.push(String::from_str("-m"));
    arguments.push(String::from_str(message));
    Ok(arguments)
}

/// What a command printed, as text: decoded where it is well-formed UTF-8,
/// `fallback` where it is not, and trimmed either way.
pub open spec fn printed_text(output: Seq<u8>, fallback: Seq<char>) -> Seq<char> {
    if valid_utf8(output) {
        trim(decode_utf8(output))
    } else {
        trim(fallback)
    }
}

/// What a command printed, as text.
pub fn command_output(output: &[u8], fallback: &str) -> (s: String)
    ensures
        s@ == printed_text(output@, fallback@),
{
    match text_of(output) {
        Some(text) => trimmed(text),
        None => trimmed(fallback),
    }
}

/// A command as it is named in messages: `git` and the arguments, with a
/// space between each two.
pub open spec fn command_text(arguments: Seq<Seq<char>>) -> Seq<char> {
    "git "@ + join(arguments, " "@)
}

/// A command as it is named in messages.
pub fn command_line(arguments: &Vec<String>) -> (s: String)
    ensures
        s@ == command_text(texts(arguments@)),
{
    let mut s = String::from_str("git ");
    let joined = join_strings(arguments, " ");
    s.append(joined.as_str());
    s
}

/// What stands in place of standard output that is not text.
pub const NO_TEXT_STDOUT: &'static str = "[non-utf8 stdout]";

/// What stands in place of standard error that is not text.
pub const NO_TEXT_STDERR: &'static str = "[non-utf8 stderr]";

/// The report of a command that ran and failed: the command, where it ran,
/// how it ended, and what it printed.
pub open spec fn failure_text(
    command: Seq<char>,
    directory: Seq<char>,
    status: Seq<char>,
    stdout: Seq<u8>,
    stderr: Seq<u8>,
) -> Seq<char> {
    "Git command '"@ + command + "' failed in "@ + directory + " with status "@ + status
        + ":\nStdout: "@ + printed_text(stdout, NO_TEXT_STDOUT@) + "\nStderr: "@ + printed_text(
        stderr,
        NO_TEXT_STDERR@,
    )
}

/// The report of a command that ran and failed.
pub fn failure_message(
    command: &str,
    directory: &str,
    status: &str,
    stdout: &[u8],
    stderr: &[u8],
) -> (s: String)
    ensures
        s@ == failure_text(command@, directory@, status@, stdout@, stderr@),
{
    let mut s = String::from_str("Git command '");
    s.append(command);
    s.append("' failed in ");
    s.append(directory);
    s.append(" with status ");
    s.append(status);
    s.append(":\nStdout: ");
    let out = command_output(stdout, NO_TEXT_STDOUT);
    s.append(out.as_str());
    s.append("\nStderr: ");
    let err = command_output(stderr, NO_TEXT_STDERR);
    s.append(err.as_str());
    s
}

/// Whether a failure report, in lower case, says that the history holds no
/// commit yet.
pub open spec fn tells_no_history(lowered: Seq<char>) -> bool {
    ||| contains(lowered, "does not have any commits yet"@)
    ||| contains(lowered, "bad default revision 'head'"@)
    ||| contains(lowered, "needed a single revision"@)
}

/// Whether a failure report, in lower case, says that the history holds no
/// commit yet.
pub fn means_no_history(lowered: &str) -> (b: bool)
    ensures
        b == tells_no_history(lowered@),
{
    str_contains(lowered, "does not have any commits yet") || str_contains(
        lowered,
        "bad default revision 'head'",
    ) || str_contains(lowered, "needed a single revision")
}

/// The message of the last commit, from how the log command ended: what it
/// printed, or the report of its failure. The message is trimmed. A failure
/// that tells of a history without commits is no error: there is no message
/// then. Any other failure is handed back.
pub fn get_previous_commit_message(outcome: Result<&[u8], &str>) -> (r: Result<
    Option<String>,
    GitError,
>)
    ensures
        match outcome {
            Ok(output) => if valid_utf8(output@) {
                r matches Ok(Some(message)) && message@ == trim(decode_utf8(output@))
            } else {
                r == Err::<Option<String>, GitError>(GitError::OutputNotText)
            },
            Err(report) => if tells_no_history(lowercase(report@)) {
                r == Ok::<Option<String>, GitError>(None)
            } else {
                r matches Err(GitError::Failed(text)) && text@ == report@
            },
        },
{
    match outcome {
        Ok(output) => match text_of(output) {
            Some(text) => Ok(Some(trimmed(text))),
            None => Err(GitError::OutputNotText),
        },
        Err(report) => {
            let lowered = report.to_lowercase();
            if means_no_history(lowered.as_str()) {
                Ok(None)
            } else {
                Err(GitError::Failed(report.to_owned()))
            }
        },
    }
}

/// The first line of a text, or the empty text where it has no line.
pub open spec fn first_line_of(text: Seq<char>) -> Seq<char> {
    if lines(text).len() > 0 {
        lines(text)[0]
    } else {
        Seq::empty()
    }
}

/// The first line of a commit message.
pub fn first_line(message: &str) -> (s: String)
    ensures
        s@ == first_line_of(message@),
{
    let chars = chars_of(message);
    let mut s = String::new();
    if chars.len() > 0 {
        assert(chars@.skip(0) == chars@);
        let (end, _next) = line_at(chars.as_slice(), 0);
        push_chars(&mut s, chars.as_slice(), 0, end);
    }
    s
}

} // verus!
