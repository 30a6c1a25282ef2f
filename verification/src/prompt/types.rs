//! The types that a commit message may begin with, and how they are listed.

use crate::order::text_le;
use vstd::prelude::*;
use vstd::string::StringExecFns;

verus! {

/// A type that a commit message may begin with.
#[derive(Debug, Clone, Copy)]
pub struct CommitType {
    /// The word that stands before the colon.
    pub name: &'static str,
    /// What commits of this type do.
    pub description: &'static str,
    /// A message of this type.
    pub example: &'static str,
    /// How early the type is listed: the greater, the earlier.
    pub priority: u8,
}

/// The name of the type `feat`.
pub const FEAT: &'static str = "feat";

/// What commits of type `feat` do.
pub const FEAT_ABOUT: &'static str = "A new feature or significant functionality addition (e.g., adding new endpoints, UI components, initial project setup).";

/// A message of type `feat`.
pub const FEAT_EXAMPLE: &'static str = "feat: Implement user authentication via OAuth";

/// The name of the type `fix`.
pub const FIX: &'static str = "fix";

/// What commits of type `fix` do.
pub const FIX_ABOUT: &'static str = "A bug fix (e.g., correcting calculation errors, addressing crashes, security vulnerabilities).";

/// A message of type `fix`.
pub const FIX_EXAMPLE: &'static str = "fix: Correct off-by-one error in pagination";

/// The name of the type `revert`.
pub const REVERT: &'static str = "revert";

/// What commits of type `revert` do.
pub const REVERT_ABOUT: &'static str = "Reverts a previous commit.";

/// A message of type `revert`.
pub const REVERT_EXAMPLE: &'static str = "revert: Revert commit 'abcdef12' due to critical bug";

/// The name of the type `perf`.
pub const PERF: &'static str = "perf";

/// What commits of type `perf` do.
pub const PERF_ABOUT: &'static str = "A code change that improves performance without adding features or fixing bugs.";

/// A message of type `perf`.
pub const PERF_EXAMPLE: &'static str = "perf: Optimize image loading by using WebP format";

/// The name of the type `refactor`.
pub const REFACTOR: &'static str = "refactor";

/// What commits of type `refactor` do.
pub const REFACTOR_ABOUT: &'static str = "A code change that neither fixes a bug nor adds a feature (e.g., renaming variables, improving code structure, reorganizing files, removing unused/dead code or obsolete comments/commented-out code).";

/// A message of type `refactor`.
pub const REFACTOR_EXAMPLE: &'static str = "refactor: Extract user service from main controller";

/// The name of the type `build`.
pub const BUILD: &'static str = "build";

/// What commits of type `build` do.
pub const BUILD_ABOUT: &'static str = "Changes that affect the build system or external dependencies (e.g., Webpack, NPM, package.json updates).";

/// A message of type `build`.
pub const BUILD_EXAMPLE: &'static str = "build: Configure webpack for tree shaking optimization";

/// The name of the type `ci`.
pub const CI: &'static str = "ci";

/// What commits of type `ci` do.
pub const CI_ABOUT: &'static str = "Changes to CI configuration files and scripts (e.g., GitHub Actions, Travis, deployment pipelines).";

/// A message of type `ci`.
pub const CI_EXAMPLE: &'static str = "ci: Add automated deployment step to GitHub Actions";

/// The name of the type `test`.
pub const TEST: &'static str = "test";

/// What commits of type `test` do.
pub const TEST_ABOUT: &'static str = "Adding new tests, correcting existing *failing or logically flawed* tests, or significantly altering test logic. IMPORTANT: Minor cleanups, comment removal, or style adjustments within test files should typically use 'refactor', 'docs', or 'style', not 'test'.";

/// A message of type `test`.
pub const TEST_EXAMPLE: &'static str = "test: Add unit tests for new payment_processor module";

/// The name of the type `chore`.
pub const CHORE: &'static str = "chore";

/// What commits of type `chore` do.
pub const CHORE_ABOUT: &'static str = "Maintenance tasks, dependency updates, or tooling changes that don't modify application code.";

/// A message of type `chore`.
pub const CHORE_EXAMPLE: &'static str = "chore: Update ESLint to version 8.50.0";

/// The name of the type `docs`.
pub const DOCS: &'static str = "docs";

/// What commits of type `docs` do.
pub const DOCS_ABOUT: &'static str = "Documentation only changes (e.g., updating README, API docs, adding, clarifying, or removing explanatory comments in code). If removing obsolete/commented-out code, 'refactor' is often more appropriate.";

/// A message of type `docs`.
pub const DOCS_EXAMPLE: &'static str = "docs: Update README with setup instructions";

/// The name of the type `readme`.
pub const README: &'static str = "readme";

/// What commits of type `readme` do.
pub const README_ABOUT: &'static str = "Specifically for standalone changes to the README file only. If README changes are part of a larger 'feat' or 'docs' effort, use that type.";

/// A message of type `readme`.
pub const README_EXAMPLE: &'static str = "readme: Add contribution guidelines and code of conduct";

/// The name of the type `style`.
pub const STYLE: &'static str = "style";

/// What commits of type `style` do.
pub const STYLE_ABOUT: &'static str = "Changes that do not affect the meaning of the code (white-space, formatting, missing semi-colons, etc).";

/// A message of type `style`.
pub const STYLE_EXAMPLE: &'static str = "style: Format code according to project guidelines";

/// The commit types, in the order in which they are listed: by priority, the
/// greatest first, and by name where the priority is the same.
pub open spec fn commit_types() -> Seq<CommitType> {
    seq![
        CommitType {
            name: FEAT,
            description: FEAT_ABOUT,
            example: FEAT_EXAMPLE,
            priority: 9,
        },
        CommitType {
            name: FIX,
            description: FIX_ABOUT,
            example: FIX_EXAMPLE,
            priority: 8,
        },
        CommitType {
            name: REVERT,
            description: REVERT_ABOUT,
            example: REVERT_EXAMPLE,
            priority: 8,
        },
        CommitType {
            name: PERF,
            description: PERF_ABOUT,
            example: PERF_EXAMPLE,
            priority: 7,
        },
        CommitType {
            name: REFACTOR,
            description: REFACTOR_ABOUT,
            example: REFACTOR_EXAMPLE,
            priority: 6,
        },
        CommitType {
            name: BUILD,
            description: BUILD_ABOUT,
            example: BUILD_EXAMPLE,
            priority: 5,
        },
        CommitType {
            name: CI,
            description: CI_ABOUT,
            example: CI_EXAMPLE,
            priority: 5,
        },
        CommitType {
            name: TEST,
            description: TEST_ABOUT,
            example: TEST_EXAMPLE,
            priority: 4,
        },
        CommitType {
            name: CHORE,
            description: CHORE_ABOUT,
            example: CHORE_EXAMPLE,
            priority: 3,
        },
        CommitType {
            name: DOCS,
            description: DOCS_ABOUT,
            example: DOCS_EXAMPLE,
            priority: 3,
        },
        CommitType {
            name: README,
            description: README_ABOUT,
            example: README_EXAMPLE,
            priority: 2,
        },
        CommitType {
            name: STYLE,
            description: STYLE_ABOUT,
            example: STYLE_EXAMPLE,
            priority: 2,
        },
    ]
}

/// The commit types, in the order in which they are listed.
pub fn commit_type_table() -> (table: Vec<CommitType>)
    ensures
        table@ == commit_types(),
{
    let mut table: Vec<CommitType> = Vec::new();
    table.push(
        CommitType {
            name: FEAT,
            description: FEAT_ABOUT,
            example: FEAT_EXAMPLE,
            priority: 9,
        },
    );
    table.push(
        CommitType {
            name: FIX,
            description: FIX_ABOUT,
            example: FIX_EXAMPLE,
            priority: 8,
        },
    );
    table.push(
        CommitType {
            name: REVERT,
            description: REVERT_ABOUT,
            example: REVERT_EXAMPLE,
            priority: 8,
        },
    );
    table.push(
        CommitType {
            name: PERF,
            description: PERF_ABOUT,
            example: PERF_EXAMPLE,
            priority: 7,
        },
    );
    table.push(
        CommitType {
            name: REFACTOR,
            description: REFACTOR_ABOUT,
            example: REFACTOR_EXAMPLE,
            priority: 6,
        },
    );
    table.push(
        CommitType {
            name: BUILD,
            description: BUILD_ABOUT,
            example: BUILD_EXAMPLE,
            priority: 5,
        },
    );
    table.push(
        CommitType {
            name: CI,
            description: CI_ABOUT,
            example: CI_EXAMPLE,
            priority: 5,
        },
    );
    table.push(
        CommitType {
            name: TEST,
            description: TEST_ABOUT,
            example: TEST_EXAMPLE,
            priority: 4,
        },
    );
    table.push(
        CommitType {
            name: CHORE,
            description: CHORE_ABOUT,
            example: CHORE_EXAMPLE,
            priority: 3,
        },
    );
    table.push(
        CommitType {
            name: DOCS,
            description: DOCS_ABOUT,
            example: DOCS_EXAMPLE,
            priority: 3,
        },
    );
    table.push(
        CommitType {
            name: README,
            description: README_ABOUT,
            example: README_EXAMPLE,
            priority: 2,
        },
    );
    table.push(
        CommitType {
            name: STYLE,
            description: STYLE_ABOUT,
            example: STYLE_EXAMPLE,
            priority: 2,
        },
    );
    table
}

/// Whether `a` is listed before `b`, or may be: by priority, the greater
/// first, and by name where the priority is the same.
pub open spec fn ranks_before(a: CommitType, b: CommitType) -> bool {
    a.priority > b.priority || (a.priority == b.priority && text_le(a.name@, b.name@))
}

/// Of two texts in ASCII the one with the lesser first character comes
/// first.
proof fn lemma_first_character_decides(a: Seq<char>, b: Seq<char>)
    requires
        vstd::utf8::is_ascii_chars(a),
        vstd::utf8::is_ascii_chars(b),
        a.len() > 0,
        b.len() > 0,
        a[0] < b[0],
    ensures
        text_le(a, b),
{
    vstd::utf8::is_ascii_chars_encode_utf8(a);
    vstd::utf8::is_ascii_chars_encode_utf8(b);
}

/// The commit types are listed by priority, the greatest first, and by name
/// where the priority is the same.
pub proof fn lemma_commit_types_are_ranked()
    ensures
        forall|i: int, j: int|
            0 <= i < j < commit_types().len() ==> ranks_before(
                #[trigger] commit_types()[i],
                #[trigger] commit_types()[j],
            ),
{
    let t = commit_types();
    reveal_strlit("fix");
    reveal_strlit("revert");
    reveal_strlit("build");
    reveal_strlit("ci");
    reveal_strlit("chore");
    reveal_strlit("docs");
    reveal_strlit("readme");
    reveal_strlit("style");
    lemma_first_character_decides(FIX@, REVERT@);
    lemma_first_character_decides(BUILD@, CI@);
    lemma_first_character_decides(CHORE@, DOCS@);
    lemma_first_character_decides(README@, STYLE@);
    assert forall|i: int, j: int| 0 <= i < j < t.len() implies ranks_before(
        #[trigger] t[i],
        #[trigger] t[j],
    ) by {}
}

/// What a line of the list of types begins with.
pub const ENTRY_OPEN: &'static str = "- ";

/// What stands between the name of a type and what it is for.
pub const ENTRY_ABOUT: &'static str = ": ";

/// What stands before the example of a type.
pub const ENTRY_EXAMPLE: &'static str = " (Example: \"";

/// What ends a line of the list of types.
pub const ENTRY_CLOSE: &'static str = "\")\n";

/// How one commit type is listed: a line with its name, what it is for, and
/// an example.
pub open spec fn listed(t: CommitType) -> Seq<char> {
    ENTRY_OPEN@ + t.name@ + ENTRY_ABOUT@ + t.description@ + ENTRY_EXAMPLE@ + t.example@
        + ENTRY_CLOSE@
}

/// The lines of the given commit types, in their order.
pub open spec fn listing(types: Seq<CommitType>) -> Seq<char>
    decreases types.len(),
{
    if types.len() == 0 {
        Seq::empty()
    } else {
        listing(types.drop_last()) + listed(types.last())
    }
}

/// The list of the commit types for the request: one line for each, in the
/// order of `commit_types`.
pub fn format_commit_types_for_prompt() -> (s: String)
    ensures
        s@ == listing(commit_types()),
{
    let table = commit_type_table();
    let mut s = String::new();
    let mut i: usize = 0;
    while i < table.len()
        invariant
            i <= table@.len(),
            s@ == listing(table@.take(i as int)),
        decreases table@.len() - i,
    {
        let t = table[i];
        s.append(ENTRY_OPEN);
        s.append(t.name);
        s.append(ENTRY_ABOUT);
        s.append(t.description);
        s.append(ENTRY_EXAMPLE);
        s.append(t.example);
        s.append(ENTRY_CLOSE);
        proof {
            assert(table@.take(i + 1).drop_last() =~= table@.take(i as int));
        }
        i += 1;
    }
    assert(table@.take(table@.len() as int) =~= table@);
    s
}

} // verus!
