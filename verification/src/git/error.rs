//! Why a report could not be read.

use crate::number::{decimal, push_decimal};
use vstd::prelude::*;
use vstd::string::StringExecFns;

verus! {

/// The fields that a report is made of, by their role.
#[derive(Debug, Clone, Copy, PartialEq, Eq, Structural)]
pub enum Field {
    /// The lead of a numeric-stat record: the counts and, mostly, the path.
    NumstatLead,
    /// The old path of a rename or copy in the numeric-stat report.
    NumstatOldPath,
    /// The new path of a rename or copy in the numeric-stat report.
    NumstatNewPath,
    /// The lead of a short-status record: the codes and the path.
    StatusLead,
    /// The path inside a short-status lead.
    StatusPath,
    /// The old path that follows a rename or copy in the short-status report.
    StatusOldPath,
}

impl Field {
    /// The field in words.
    pub open spec fn name(self) -> Seq<char> {
        match self {
            Field::NumstatLead => "the lead of a numstat record"@,
            Field::NumstatOldPath => "the old path of a numstat record"@,
            Field::NumstatNewPath => "the new path of a numstat record"@,
            Field::StatusLead => "the lead of a status record"@,
            Field::StatusPath => "the path of a status record"@,
            Field::StatusOldPath => "the old path of a status record"@,
        }
    }

    /// The field in words.
    pub fn describe(&self) -> (s: String)
        ensures
            s@ == self.name(),
    {
        match self {
            Field::NumstatLead => String::from_str("the lead of a numstat record"),
            Field::NumstatOldPath => String::from_str("the old path of a numstat record"),
            Field::NumstatNewPath => String::from_str("the new path of a numstat record"),
            Field::StatusLead => String::from_str("the lead of a status record"),
            Field::StatusPath => String::from_str("the path of a status record"),
            Field::StatusOldPath => String::from_str("the old path of a status record"),
        }
    }
}

/// Why a report could not be read. `index` counts the report's non-empty
/// fields from 0.
#[derive(Debug, Clone, Copy, PartialEq, Eq, Structural)]
pub enum SummaryError {
    /// The field at `index` has to be text and is not well-formed UTF-8.
    NotText { field: Field, index: usize },
    /// The report ends before the field that the lead at `index` announces.
    Missing { field: Field, index: usize },
    /// The short-status record at `index` has the rename or copy code `code`
    /// and no old path behind it.
    Truncated { code: u8, index: usize },
}

impl SummaryError {
    /// The error in words: what is wrong, and at which field of the report.
    pub open spec fn text(self) -> Seq<char> {
        match self {
            SummaryError::NotText { field, index } => field.name() + " (field "@ + decimal(
                index as nat,
            ) + ") is not valid UTF-8"@,
            SummaryError::Missing { field, index } => "the report ends before "@ + field.name()
                + " that field "@ + decimal(index as nat) + " announces"@,
            SummaryError::Truncated { code, index } => "the status record at field "@ + decimal(
                index as nat,
            ) + " has the code '"@ + seq![code as char] + "' and no old path behind it"@,
        }
    }

    /// The error in words.
    pub fn message(&self) -> (s: String)
        ensures
            s@ == self.text(),
    {
        match self {
            SummaryError::NotText { field, index } => {
                let mut s = field.describe();
                s.append(" (field ");
                push_decimal(&mut s, *index as u64);
                s.append(") is not valid UTF-8");
                s
            },
            SummaryError::Missing { field, index } => {
                let mut s = String::from_str("the report ends before ");
                s.append(field.describe().as_str());
                s.append(" that field ");
                push_decimal(&mut s, *index as u64);
                s.append(" announces");
                s
            },
            SummaryError::Truncated { code, index } => {
                let mut s = String::from_str("the status record at field ");
                push_decimal(&mut s, *index as u64);
                s.append(" has the code '");
                s.push(*code as char);
                s.append("' and no old path behind it");
                s
            },
        }
    }
}

} // verus!
