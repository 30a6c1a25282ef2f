//! The fixed wording of a request.

use vstd::prelude::*;

verus! {

/// The least number of characters that a description should have.
pub const MIN_COMMIT_DESCRIPTION_CHARS: usize = 10;

/// The greatest number of characters that a description should have.
pub const MAX_COMMIT_DESCRIPTION_CHARS: usize = 72;

/// The guidance on how to choose the type of a commit.
pub const TYPE_SELECTION_GUIDANCE: &'static str = "CRITICAL: Type Selection Hierarchy and Guidance - When determining the commit type, strictly follow this decision process in order:\n1. 'feat': New functionality, features, or initial project setup.\n2. 'fix': Bug fixes, error corrections, or security vulnerability patches.\n3. 'perf': Performance improvements without new features or bug fixes.\n4. 'refactor': Restructuring code without changing its external behavior or fixing bugs/adding features. This INCLUDES removing unused/dead code, reorganizing files, simplifying logic, or cleaning up obsolete comments/commented-out code. If changes are *solely* removing commented-out code or obsolete comments (even within test files), 'refactor' is the correct type.\n5. 'build': Changes to build system, external dependencies (e.g., package.json, Cargo.toml updates).\n6. 'ci': Changes to CI/CD configuration files and scripts.\n7. 'docs': Changes ONLY to documentation (README, API docs, explanatory comments in code). This means adding, clarifying, or removing comments that explain the code's intent or usage. If comments are removed because they are obsolete or represent commented-out code, prefer 'refactor'.\n8. 'test': Adding new tests, correcting existing *failing or logically flawed* tests, or significantly altering test logic/assertions. IMPORTANT: Changes *within* test files that are primarily refactoring the test code itself, removing comments, or style adjustments should use 'refactor', 'docs', or 'style' respectively, NOT 'test', unless they also change test assertions or core test behavior.\n9. 'style': Purely stylistic changes that do not affect code meaning or runtime behavior (e.g., whitespace, formatting, linter fixes).\n10. 'chore': Maintenance tasks, tooling changes, or dependency updates not covered by 'build' or other more specific types.\n\nPRIMARY PURPOSE RULE: Always choose the type that represents the PRIMARY PURPOSE of the entire commit. For example:\n- Initial project setup (source files, README, config) is 'feat'.\n- Removing obsolete comments or commented-out code from test files is 'refactor', NOT 'test'.\n- Adding explanatory comments to test utility functions is 'docs', NOT 'test'.\n- A bug fix that also includes adding a regression test is 'fix'.\n- A feature implementation that also includes tests for the new feature is 'feat'.\n- Refactoring production code and updating its corresponding tests to match the new structure is 'refactor'.";

/// The guide on how to read a diff.
pub const DIFF_READING_GUIDE: &'static str = "Understanding the 'Diff' Section (How to Read Code Changes):\nThe 'Diff' section below shows the exact changes to the code files. Here's how to interpret its format:\n- File Indicators: Lines like 'diff --git a/path/to/file.ext b/path/to/file.ext', '--- a/path/to/file.ext', and '+++ b/path/to/file.ext' identify the files being compared. 'a/' refers to the original version and 'b/' to the new version.\n- Hunk Headers: Lines starting with '@@ -old_line_info +new_line_info @@' (e.g., '@@ -242,7 +242,6 @@') mark the beginning of a \"hunk\" or a specific block of changes. The numbers indicate [start line],[number of lines] for the original (-) and new (+) versions of the file within that hunk.\n- REMOVED Lines: Any line starting with a single minus sign '-' indicates a line that was REMOVED from the original file.\n- ADDED Lines: Any line starting with a single plus sign '+' indicates a line that was ADDED to the new version of the file.\n- CONTEXT Lines: Lines that start with a space (or have no prefix like '-' or '+') are UNCHANGED context lines. They are shown to help understand where the additions and removals occurred but are NOT changes themselves.\n\nYour primary focus for understanding the *actual modifications* should be on the lines marked with '+' (additions) and '-' (removals). Based *only* on what is added (+) and removed (-), determine the nature of the change (e.g., adding new code, removing obsolete code, fixing a typo, refactoring logic, updating documentation comments). Pay close attention to whether the removed/added lines are code, comments, or whitespace to help select the correct commit <type>.";

/// What stands in place of the binary changes where there are none.
pub const NO_BINARY_CHANGES: &'static str = "No binary file changes detected.";

/// What stands in place of the structure changes where there are none.
pub const NO_STRUCTURE_CHANGES: &'static str = "No folder structure changes detected.";

/// The task where one message is asked for.
pub const ASK_ONE: &'static str = "Analyze the following code changes and repository structure modifications. Generate 1 Git commit message.";

/// The task where several messages are asked for, up to their number.
pub const ASK_MANY_0: &'static str = "Analyze the following code changes and repository structure modifications. Your task is to generate ";

/// The task for several messages, from their number to its second mention.
pub const ASK_MANY_1: &'static str = " *alternative* Git commit messages. Each of these ";

/// The task for several messages, from the second mention of their number to the third.
pub const ASK_MANY_2: &'static str = " messages must be a complete and valid commit message that summarizes *all* the changes provided below. They should represent different ways of phrasing a *single* commit for the *entirety* of these changes, offering variations in wording or emphasis, but all pertaining to the same overall update. Do not generate messages for individual files or sub-tasks within the diff if they are part of the same logical change. \n\nIMPORTANT FOR MULTIPLE VARIATIONS: All ";

/// The task for several messages, after the last mention of their number.
pub const ASK_MANY_3: &'static str = " variations should use the SAME commit type (the most appropriate one for the entire changeset). Only vary the description part to provide different phrasings of the same conceptual change.";

/// The format that every message has to follow.
pub const FORMAT_RULE: &'static str = "Each message MUST follow this format: <type>: <description>";

/// The heading of the list of types.
pub const AVAILABLE_TYPES: &'static str = "Available <type>s, their descriptions, and EXAMPLES of their use are:\n";

/// How to choose one type for several messages, up to their number.
pub const SAME_TYPE_0: &'static str = "For the ";

/// How to choose one type for several messages, between the two mentions of their number.
pub const SAME_TYPE_1: &'static str = " variations requested, determine the single most appropriate <type> that best describes the overall changes, then create ";

/// How to choose one type for several messages, after their number.
pub const SAME_TYPE_2: &'static str = " different descriptions using that same type. The variations should differ in wording, emphasis, or perspective, but should all use the same commit type that represents the primary nature of the entire changeset.";

/// How to choose the type for one message.
pub const BEST_TYPE: &'static str = "Choose the <type> that best describes the overall changes";

/// How the description has to be, up to its least length.
pub const LENGTH_RULE_0: &'static str = ". Use the provided examples and hierarchy guidance above to ensure correct type usage.\nThe <description> should be concise, start with a verb in the imperative mood if possible, and be between ";

/// What stands between the least and the greatest length of a description.
pub const LENGTH_RULE_1: &'static str = " and ";

/// What stands after the greatest length of a description.
pub const LENGTH_RULE_2: &'static str = " characters.";

/// The demand to answer with messages only.
pub const NO_EXTRA_TEXT: &'static str = "Do not include any other explanatory text, just the commit message(s).";

/// What stands after the number of variations of a previous message.
pub const VARIATIONS_OF_IT: &'static str = " variations of it";

/// What stands for the one new message in the note on a previous message.
pub const IT: &'static str = "it";

/// The note on a previous message, up to that message.
pub const PREVIOUS_0: &'static str = "The previous commit message was: '";

/// The note on a previous message, between that message and what is asked for.
pub const PREVIOUS_1: &'static str = "'. Please generate a new, improved message (or ";

/// The note on a previous message, after what is asked for.
pub const PREVIOUS_2: &'static str = " if multiple are requested) based on the changes, considering why the previous one might have been suboptimal. Ensure the <type> is appropriate for the changes, guided by the hierarchy and examples provided above. If generating multiple variations, they should all use the same improved type.";

/// The heading of the diff.
pub const DIFF_HEAD: &'static str = "Diff:\n\n---";

/// What stands in place of a diff that is empty.
pub const NO_TEXTUAL_DIFF: &'static str = "No textual diff.";

/// The line that ends a section.
pub const RULE: &'static str = "---";

/// The heading of the binary changes.
pub const BINARY_HEAD: &'static str = "Binary file changes:";

/// The heading of the structure changes.
pub const STRUCTURE_HEAD: &'static str = "Folder structure changes:";

} // verus!
