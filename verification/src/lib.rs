//! Local change analysis for commit-message generation: an annotator for
//! unified diffs, a classifier for staged changes, and what is made of them
//! on the way to a commit.

pub mod ai;
pub mod diff;
pub mod fields;
pub mod git;
pub mod interactive;
pub mod lines;
pub mod mode;
pub mod number;
pub mod order;
pub mod prompt;
pub mod scan;
pub mod space;
pub mod text;
