//! The summary of the staged changes: what the two reports give together,
//! each list sorted.

use crate::fields::{fields, lemma_no_fields};
use crate::git::error::SummaryError;
use crate::git::numstat::{binary_status_map, get_binary_status_map};
use crate::git::status::{collect_changes, status_changes, Changes, StagedChangesSummary};
use crate::order::{lemma_sorted_is_unique, sort_strings, sorted};
use vstd::prelude::*;

verus! {

/// What the two reports say together, in the order of the short-status
/// report. With no field in the short-status report nothing changed, and the
/// numeric-stat report is not looked at.
pub open spec fn staged_changes(status: Seq<u8>, numstat: Seq<u8>) -> Result<
    Changes,
    SummaryError,
> {
    if fields(status).len() == 0 {
        Ok(Changes::none())
    } else {
        match binary_status_map(numstat) {
            Ok(map) => status_changes(status, map),
            Err(e) => Err(e),
        }
    }
}

/// Whether the report has no field: it is empty or holds only NUL bytes.
pub fn has_no_fields(report: &[u8]) -> (b: bool)
    ensures
        b == (fields(report@).len() == 0),
        b == (forall|j: int| 0 <= j < report@.len() ==> report@[j] == 0),
{
    let mut i: usize = 0;
    while i < report.len()
        invariant
            i <= report@.len(),
            forall|j: int| 0 <= j < i ==> report@[j] == 0,
        decreases report@.len() - i,
    {
        if report[i] != 0 {
            proof {
                lemma_no_fields(report@);
            }
            return false;
        }
        i += 1;
    }
    proof {
        lemma_no_fields(report@);
    }
    true
}

/// Summarises the staged changes from the short-status report and the
/// numeric-stat report of one index: the changes that `staged_changes` gives,
/// each list sorted. A short-status report that is empty, or holds NUL bytes
/// only, gives the empty summary, whatever the numeric-stat report holds.
pub fn get_staged_changes_summary(status: &[u8], numstat: &[u8]) -> (r: Result<
    StagedChangesSummary,
    SummaryError,
>)
    ensures
        match r {
            Ok(s) => {
                &&& staged_changes(status@, numstat@) matches Ok(changes)
                &&& sorted(s@.binary)
                &&& sorted(s@.structure)
                &&& s@.binary.to_multiset() == changes.binary.to_multiset()
                &&& s@.structure.to_multiset() == changes.structure.to_multiset()
            },
            Err(e) => staged_changes(status@, numstat@) == Err::<Changes, SummaryError>(e),
        },
        (forall|j: int| 0 <= j < status@.len() ==> status@[j] == 0) ==> (r matches Ok(s) && s@
            == Changes::none()),
{
    if has_no_fields(status) {
        let s = StagedChangesSummary::default();
        return Ok(s);
    }
    let map = match get_binary_status_map(numstat) {
        Ok(map) => map,
        Err(e) => {
            return Err(e);
        },
    };
    let mut summary = match collect_changes(status, &map) {
        Ok(summary) => summary,
        Err(e) => {
            return Err(e);
        },
    };
    sort_strings(&mut summary.binary_file_changes);
    sort_strings(&mut summary.structure_changes);
    Ok(summary)
}

/// A short-status report without a non-zero byte gives no change, whatever
/// the numeric-stat report holds, well-formed or not.
pub proof fn lemma_empty_status_gives_no_change(status: Seq<u8>, numstat: Seq<u8>)
    requires
        forall|j: int| 0 <= j < status.len() ==> status[j] == 0,
    ensures
        staged_changes(status, numstat) == Ok::<Changes, SummaryError>(Changes::none()),
{
    lemma_no_fields(status);
}

/// The summary is fixed by the changes: two summaries that are sorted and
/// hold the same changes, each as often, are equal.
pub proof fn lemma_summary_is_determined(a: Changes, b: Changes, changes: Changes)
    requires
        sorted(a.binary) && sorted(a.structure),
        sorted(b.binary) && sorted(b.structure),
        a.binary.to_multiset() == changes.binary.to_multiset(),
        b.binary.to_multiset() == changes.binary.to_multiset(),
        a.structure.to_multiset() == changes.structure.to_multiset(),
        b.structure.to_multiset() == changes.structure.to_multiset(),
    ensures
        a == b,
{
    lemma_sorted_is_unique(a.binary, b.binary);
    lemma_sorted_is_unique(a.structure, b.structure);
}

} // verus!
