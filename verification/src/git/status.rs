//! The short-status report: what happened to each path, in words.

use crate::fields::{fields, FieldCursor};
use crate::git::error::{Field, SummaryError};
use crate::git::numstat::{marks_binary, BinaryStatusMap};
use crate::text::{text_of, texts};
use vstd::prelude::*;
use vstd::slice::slice_subrange;
use vstd::string::StringExecFns;
use vstd::utf8::*;

verus! {

/// The status code of an added path, `A`.
pub const ADDED: u8 = 0x41;

/// The status code of a copied path, `C`.
pub const COPIED: u8 = 0x43;

/// The status code of a deleted path, `D`.
pub const DELETED: u8 = 0x44;

/// The status code of a modified path, `M`.
pub const MODIFIED: u8 = 0x4d;

/// The status code of a renamed path, `R`.
pub const RENAMED: u8 = 0x52;

/// The status code of a path whose type changed, `T`.
pub const TYPE_CHANGED: u8 = 0x54;

/// How many bytes stand before the path in a short-status lead: two status
/// codes and a separator.
pub const STATUS_PREFIX: usize = 3;

/// How an added binary file is described.
pub const ADDED_BINARY: &'static str = "added binary file: ";

/// How a modified binary file is described.
pub const MODIFIED_BINARY: &'static str = "modified binary file: ";

/// How a renamed binary file is described.
pub const RENAMED_BINARY: &'static str = "renamed binary file: ";

/// How a copied binary file is described.
pub const COPIED_BINARY: &'static str = "copied binary file to: ";

/// How a path whose type changed to a binary file is described.
pub const TYPE_CHANGED_BINARY: &'static str = "type changed to binary: ";

/// How a deletion is described.
pub const DELETED_FILE: &'static str = "deleted file: ";

/// How a rename is described.
pub const RENAMED_FILE: &'static str = "renamed: ";

/// How a copy is described.
pub const COPIED_FILE: &'static str = "copied: ";

/// How a change of type is described.
pub const TYPE_CHANGED_FILE: &'static str = "type changed for: ";

/// What stands between the old and the new path.
pub const TO: &'static str = " to ";

/// The two lists of a summary, as texts.
pub struct Changes {
    /// What happened to binary files.
    pub binary: Seq<Seq<char>>,
    /// What happened to the tree: deletions, renames, copies, type changes.
    pub structure: Seq<Seq<char>>,
}

impl Changes {
    /// No change at all.
    pub open spec fn none() -> Changes {
        Changes { binary: Seq::empty(), structure: Seq::empty() }
    }

    /// These changes and one more about a binary file.
    pub open spec fn and_binary(self, text: Seq<char>) -> Changes {
        Changes { binary: self.binary.push(text), structure: self.structure }
    }

    /// These changes and one more about the tree.
    pub open spec fn and_structure(self, text: Seq<char>) -> Changes {
        Changes { binary: self.binary, structure: self.structure.push(text) }
    }

    /// These changes and, if `binary` holds, one more about a binary file.
    pub open spec fn and_binary_if(self, binary: bool, text: Seq<char>) -> Changes {
        if binary {
            self.and_binary(text)
        } else {
            self
        }
    }
}

/// How a rename or copy is described: the prefix, the old path, ` to `, the
/// new path.
pub open spec fn moved_text(prefix: Seq<char>, old_path: Seq<char>, new_path: Seq<char>) -> Seq<
    char,
> {
    prefix + old_path + TO@ + new_path
}

/// `changes` and what a record with status code `code` for `path` adds: a
/// code other than added, deleted, modified or type-changed adds nothing.
pub open spec fn with_change(changes: Changes, code: u8, path: Seq<char>, binary: bool) -> Changes {
    if code == ADDED {
        changes.and_binary_if(binary, ADDED_BINARY@ + path)
    } else if code == DELETED {
        changes.and_structure(DELETED_FILE@ + path)
    } else if code == MODIFIED {
        changes.and_binary_if(binary, MODIFIED_BINARY@ + path)
    } else if code == TYPE_CHANGED {
        changes.and_structure(TYPE_CHANGED_FILE@ + path).and_binary_if(
            binary,
            TYPE_CHANGED_BINARY@ + path,
        )
    } else {
        changes
    }
}

/// `changes` and what a rename (`code` is `RENAMED`) or a copy (any other
/// `code`) from `old_path` to `new_path` adds. A rename to an empty path adds
/// nothing.
pub open spec fn with_move(
    changes: Changes,
    code: u8,
    old_path: Seq<char>,
    new_path: Seq<char>,
    binary: bool,
) -> Changes {
    if code == RENAMED {
        if new_path.len() > 0 {
            changes.and_structure(moved_text(RENAMED_FILE@, old_path, new_path)).and_binary_if(
                binary,
                moved_text(RENAMED_BINARY@, old_path, new_path),
            )
        } else {
            changes
        }
    } else {
        changes.and_structure(moved_text(COPIED_FILE@, old_path, new_path)).and_binary_if(
            binary,
            COPIED_BINARY@ + new_path,
        )
    }
}

/// What the short-status fields from `at` on add to `seen`, with `map` saying
/// which paths are binary; or the first error.
pub open spec fn changes_from(
    all: Seq<Seq<u8>>,
    at: int,
    map: Map<Seq<char>, bool>,
    seen: Changes,
) -> Result<Changes, SummaryError>
    decreases all.len() - at,
{
    if at < 0 || at >= all.len() {
        Ok(seen)
    } else if !valid_utf8(all[at]) {
        Err(SummaryError::NotText { field: Field::StatusLead, index: at as usize })
    } else if all[at].len() < STATUS_PREFIX {
        changes_from(all, at + 1, map, seen)
    } else if !valid_utf8(all[at].skip(STATUS_PREFIX as int)) {
        Err(SummaryError::NotText { field: Field::StatusPath, index: at as usize })
    } else {
        let code = all[at][0];
        let path = decode_utf8(all[at].skip(STATUS_PREFIX as int));
        if code == RENAMED || code == COPIED {
            if at + 1 >= all.len() {
                Err(SummaryError::Truncated { code, index: at as usize })
            } else if !valid_utf8(all[at + 1]) {
                Err(
                    SummaryError::NotText {
                        field: Field::StatusOldPath,
                        index: (at + 1) as usize,
                    },
                )
            } else {
                changes_from(
                    all,
                    at + 2,
                    map,
                    with_move(seen, code, decode_utf8(all[at + 1]), path, marks_binary(map, path)),
                )
            }
        } else {
            changes_from(all, at + 1, map, with_change(seen, code, path, marks_binary(map, path)))
        }
    }
}

/// What a short-status report says happened, in the order of the report.
pub open spec fn status_changes(status: Seq<u8>, map: Map<Seq<char>, bool>) -> Result<
    Changes,
    SummaryError,
> {
    changes_from(fields(status), 0, map, Changes::none())
}

/// The non-textual changes among the staged ones.
#[derive(Debug, Clone, PartialEq, Eq)]
pub struct StagedChangesSummary {
    /// One description for each event on a binary file.
    pub binary_file_changes: Vec<String>,
    /// One description for each deletion, rename, copy and type change.
    pub structure_changes: Vec<String>,
}

impl View for StagedChangesSummary {
    type V = Changes;

    open spec fn view(&self) -> Changes {
        Changes {
            binary: texts(self.binary_file_changes@),
            structure: texts(self.structure_changes@),
        }
    }
}

impl Default for StagedChangesSummary {
    /// The summary of no change.
    fn default() -> (s: Self)
        ensures
            s@ == Changes::none(),
            s.binary_file_changes@.len() == 0,
            s.structure_changes@.len() == 0,
    {
        let s = StagedChangesSummary {
            binary_file_changes: Vec::new(),
            structure_changes: Vec::new(),
        };
        assert(s@.binary =~= Seq::<Seq<char>>::empty());
        assert(s@.structure =~= Seq::<Seq<char>>::empty());
        s
    }
}

/// `prefix` followed by `path`.
fn describe(prefix: &str, path: &str) -> (s: String)
    ensures
        s@ == prefix@ + path@,
{
    let mut s = String::from_str(prefix);
    s.append(path);
    s
}

/// `prefix`, `old_path`, ` to `, `new_path`.
fn describe_move(prefix: &str, old_path: &str, new_path: &str) -> (s: String)
    ensures
        s@ == moved_text(prefix@, old_path@, new_path@),
{
    let mut s = String::from_str(prefix);
    s.append(old_path);
    s.append(TO);
    s.append(new_path);
    s
}

impl StagedChangesSummary {
    /// Adds a change about a binary file.
    fn push_binary(&mut self, text: String)
        ensures
            final(self)@ == old(self)@.and_binary(text@),
    {
        self.binary_file_changes.push(text);
        assert(texts(self.binary_file_changes@) =~= texts(old(self).binary_file_changes@).push(
            text@,
        ));
    }

    /// Adds a change about the tree.
    fn push_structure(&mut self, text: String)
        ensures
            final(self)@ == old(self)@.and_structure(text@),
    {
        self.structure_changes.push(text);
        assert(texts(self.structure_changes@) =~= texts(old(self).structure_changes@).push(text@));
    }

    /// Adds what a record with status code `code` for `path` says.
    pub fn record_change(&mut self, code: u8, path: &str, binary: bool)
        ensures
            final(self)@ == with_change(old(self)@, code, path@, binary),
    {
        if code == ADDED {
            if binary {
                self.push_binary(describe(ADDED_BINARY, path));
            }
        } else if code == DELETED {
            self.push_structure(describe(DELETED_FILE, path));
        } else if code == MODIFIED {
            if binary {
                self.push_binary(describe(MODIFIED_BINARY, path));
            }
        } else if code == TYPE_CHANGED {
            self.push_structure(describe(TYPE_CHANGED_FILE, path));
            if binary {
                self.push_binary(describe(TYPE_CHANGED_BINARY, path));
            }
        }
    }

    /// Adds what a rename (`code` is `RENAMED`) or a copy (any other `code`)
    /// from `old_path` to `new_path` says.
    pub fn record_move(&mut self, code: u8, old_path: &str, new_path: &str, binary: bool)
        ensures
            final(self)@ == with_move(old(self)@, code, old_path@, new_path@, binary),
    {
        if code == RENAMED {
            if !new_path.is_empty() {
                self.push_structure(describe_move(RENAMED_FILE, old_path, new_path));
                if binary {
                    self.push_binary(describe_move(RENAMED_BINARY, old_path, new_path));
                }
            }
        } else {
            self.push_structure(describe_move(COPIED_FILE, old_path, new_path));
            if binary {
                self.push_binary(describe(COPIED_BINARY, new_path));
            }
        }
    }
}

/// Reads a short-status report against `map`: the changes in the order of the
/// report, not yet sorted.
pub fn collect_changes(status: &[u8], map: &BinaryStatusMap) -> (r: Result<
    StagedChangesSummary,
    SummaryError,
>)
    ensures
        match r {
            Ok(s) => status_changes(status@, map@) == Ok::<Changes, SummaryError>(s@),
            Err(e) => status_changes(status@, map@) == Err::<Changes, SummaryError>(e),
        },
{
    let mut cursor = FieldCursor::new(status);
    let mut summary = StagedChangesSummary::default();
    let ghost all = fields(status@);
    loop
        invariant
            cursor.all() == all,
            status_changes(status@, map@) == changes_from(
                all,
                cursor.taken() as int,
                map@,
                summary@,
            ),
        decreases all.len() - cursor.taken(),
    {
        let index = cursor.index();
        let lead = match cursor.next() {
            None => {
                return Ok(summary);
            },
            Some(lead) => lead,
        };
        if text_of(lead).is_none() {
            return Err(SummaryError::NotText { field: Field::StatusLead, index });
        }
        if lead.len() >= STATUS_PREFIX {
            let rest = slice_subrange(lead, STATUS_PREFIX, lead.len());
            let path = match text_of(rest) {
                None => {
                    return Err(SummaryError::NotText { field: Field::StatusPath, index });
                },
                Some(path) => path,
            };
            let code = lead[0];
            if code == RENAMED || code == COPIED {
                let at = cursor.index();
                let old_field = match cursor.next() {
                    None => {
                        return Err(SummaryError::Truncated { code, index });
                    },
                    Some(old_field) => old_field,
                };
                let old_path = match text_of(old_field) {
                    None => {
                        return Err(
                            SummaryError::NotText { field: Field::StatusOldPath, index: at },
                        );
                    },
                    Some(old_path) => old_path,
                };
                summary.record_move(code, old_path, path, map.is_binary(path));
            } else {
                summary.record_change(code, path, map.is_binary(path));
            }
        }
    }
}

/// A deletion is listed among the structure changes, and among them only,
/// whatever the numeric-stat report says of the path: a short-status report
/// of one deletion gives that one entry against every map.
pub proof fn lemma_deletion_is_listed(lead: Seq<u8>, map: Map<Seq<char>, bool>)
    requires
        lead.len() >= STATUS_PREFIX,
        lead[0] == DELETED,
        valid_utf8(lead),
        valid_utf8(lead.skip(STATUS_PREFIX as int)),
    ensures
        changes_from(seq![lead], 0, map, Changes::none()) == Ok::<Changes, SummaryError>(
            Changes {
                binary: Seq::empty(),
                structure: seq![DELETED_FILE@ + decode_utf8(lead.skip(STATUS_PREFIX as int))],
            },
        ),
{
    let all = seq![lead];
    let path = decode_utf8(lead.skip(STATUS_PREFIX as int));
    let after = with_change(Changes::none(), DELETED, path, marks_binary(map, path));
    assert(changes_from(all, 1, map, after) == Ok::<Changes, SummaryError>(after));
}

/// A rename of a binary file to a path that is not empty adds exactly one
/// entry to each of the two lists.
pub proof fn lemma_binary_rename_adds_to_both(
    changes: Changes,
    old_path: Seq<char>,
    new_path: Seq<char>,
)
    requires
        new_path.len() > 0,
    ensures
        with_move(changes, RENAMED, old_path, new_path, true).structure == changes.structure.push(
            moved_text(RENAMED_FILE@, old_path, new_path),
        ),
        with_move(changes, RENAMED, old_path, new_path, true).binary == changes.binary.push(
            moved_text(RENAMED_BINARY@, old_path, new_path),
        ),
{
}

/// A record adds to the lists and takes nothing from them: what was listed
/// before stays, in its place.
pub proof fn lemma_changes_only_grow(
    changes: Changes,
    code: u8,
    old_path: Seq<char>,
    path: Seq<char>,
    binary: bool,
)
    ensures
        changes.binary.is_prefix_of(with_change(changes, code, path, binary).binary),
        changes.structure.is_prefix_of(with_change(changes, code, path, binary).structure),
        changes.binary.is_prefix_of(with_move(changes, code, old_path, path, binary).binary),
        changes.structure.is_prefix_of(with_move(changes, code, old_path, path, binary).structure),
        with_change(changes, code, path, false).binary == changes.binary,
        with_move(changes, code, old_path, path, false).binary == changes.binary,
{
}

} // verus!
