//! The request that is put to the text generator: fixed guidance, the
//! annotated diff and the summary of the staged changes, in one text.

pub mod request;
pub mod types;
pub mod wording;

pub use self::request::{
    build_diff_reading_guide, build_prompt, build_type_selection_guidance, prompt_parts,
    prompt_text,
};
pub use self::types::{
    commit_type_table, commit_types, format_commit_types_for_prompt, CommitType,
};
pub use self::wording::{MAX_COMMIT_DESCRIPTION_CHARS, MIN_COMMIT_DESCRIPTION_CHARS};
