//! The staged changes of a repository: the classifier that summarises them
//! from two reports of the version-control tool, and the commands of that
//! tool with what is made of their output.

pub mod command;
pub mod error;
pub mod numstat;
pub mod status;
pub mod summary;

pub use self::command::{
    amend_commit, command_line, command_output, commit_staged_files, failure_message,
    first_line, get_previous_commit_message, get_staged_diff, has_staged_files,
    means_no_history, GitError,
};
pub use self::error::{Field, SummaryError};
pub use self::numstat::{
    get_binary_status_map, is_similarity_score, parse_numstat_lead, BinaryStatusMap, LeadShape,
};
pub use self::status::{collect_changes, Changes, StagedChangesSummary};
pub use self::summary::{get_staged_changes_summary, has_no_fields};
