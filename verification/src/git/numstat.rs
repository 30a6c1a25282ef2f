//! The numeric-stat report: which of the paths it names are binary.

use crate::fields::{fields, FieldCursor};
use crate::git::error::{Field, SummaryError};
use crate::scan::{find_byte, split};
use crate::text::{lemma_valid_around_ascii, text_of};
use vstd::hash_map::StringHashMap;
use vstd::prelude::*;
use vstd::slice::slice_subrange;
use vstd::utf8::*;

verus! {

/// The byte between the columns of a numeric-stat lead, a tab.
pub const TAB: u8 = 0x09;

/// The placeholder that stands for a line count of a binary file, `-`.
pub const DASH: u8 = 0x2d;

/// The byte that ends a similarity score, `%`.
pub const PERCENT: u8 = 0x25;

/// What the lead of a numeric-stat record says.
pub enum NumstatLead {
    /// The lead names the path itself.
    Inline { path: Seq<u8>, binary: bool },
    /// A rename or copy: the old and the new path follow in fields of their own.
    Separate { binary: bool },
    /// No known shape: the record is passed over.
    Noise,
}

/// Whether `b` is one of the digits `0` to `9`.
pub open spec fn is_digit(b: u8) -> bool {
    0x30 <= b <= 0x39
}

/// Whether `col` is a similarity score: one or more digits, then `%`.
pub open spec fn is_similarity(col: Seq<u8>) -> bool {
    &&& col.len() >= 2
    &&& col.last() == PERCENT
    &&& forall|i: int| 0 <= i < col.len() - 1 ==> is_digit(#[trigger] col[i])
}

/// Whether both count columns hold the placeholder of a binary file.
pub open spec fn counts_are_binary(added: Seq<u8>, deleted: Seq<u8>) -> bool {
    added == seq![DASH] && deleted == seq![DASH]
}

/// The shape of a numeric-stat lead, by its tab-separated columns.
pub open spec fn numstat_lead(lead: Seq<u8>) -> NumstatLead {
    let cols = split(lead, TAB);
    if cols.len() == 3 {
        let binary = counts_are_binary(cols[0], cols[1]);
        if cols[2].len() == 0 || is_similarity(cols[2]) {
            NumstatLead::Separate { binary }
        } else {
            NumstatLead::Inline { path: cols[2], binary }
        }
    } else if cols.len() == 2 {
        NumstatLead::Separate { binary: counts_are_binary(cols[0], cols[1]) }
    } else {
        NumstatLead::Noise
    }
}

/// The map that the numeric-stat fields from `at` on add to `seen`: each path
/// with whether its counts are the binary placeholder, a later record
/// replacing an earlier one of the same path; or the first error.
pub open spec fn binary_map_from(
    all: Seq<Seq<u8>>,
    at: int,
    seen: Map<Seq<char>, bool>,
) -> Result<Map<Seq<char>, bool>, SummaryError>
    decreases all.len() - at,
{
    if at < 0 || at >= all.len() {
        Ok(seen)
    } else if !valid_utf8(all[at]) {
        Err(SummaryError::NotText { field: Field::NumstatLead, index: at as usize })
    } else {
        match numstat_lead(all[at]) {
            NumstatLead::Inline { path, binary } => binary_map_from(
                all,
                at + 1,
                seen.insert(decode_utf8(path), binary),
            ),
            NumstatLead::Separate { binary } => if at + 1 >= all.len() {
                Err(SummaryError::Missing { field: Field::NumstatOldPath, index: at as usize })
            } else if at + 2 >= all.len() {
                Err(SummaryError::Missing { field: Field::NumstatNewPath, index: at as usize })
            } else if !valid_utf8(all[at + 2]) {
                Err(
                    SummaryError::NotText {
                        field: Field::NumstatNewPath,
                        index: (at + 2) as usize,
                    },
                )
            } else {
                binary_map_from(all, at + 3, seen.insert(decode_utf8(all[at + 2]), binary))
            },
            NumstatLead::Noise => binary_map_from(all, at + 1, seen),
        }
    }
}

/// What a numeric-stat report says of each path it names.
pub open spec fn binary_status_map(numstat: Seq<u8>) -> Result<Map<Seq<char>, bool>, SummaryError> {
    binary_map_from(fields(numstat), 0, Map::empty())
}

/// Whether `col` is a similarity score.
pub fn is_similarity_score(col: &[u8]) -> (b: bool)
    ensures
        b == is_similarity(col@),
{
    let n = col.len();
    if n < 2 || col[n - 1] != PERCENT {
        return false;
    }
    let mut i: usize = 0;
    while i < n - 1
        invariant
            n == col@.len(),
            n >= 2,
            i <= n - 1,
            forall|j: int| 0 <= j < i ==> is_digit(#[trigger] col@[j]),
        decreases n - i,
    {
        if col[i] < 0x30 || col[i] > 0x39 {
            return false;
        }
        i += 1;
    }
    true
}

/// Whether `col` is the single placeholder byte.
fn is_dash(col: &[u8]) -> (b: bool)
    ensures
        b == (col@ == seq![DASH]),
{
    if col.len() == 1 && col[0] == DASH {
        assert(col@ =~= seq![DASH]);
        true
    } else {
        false
    }
}

/// The lead of a numeric-stat record as the reader holds it.
pub enum LeadShape<'a> {
    /// The lead names the path itself.
    Inline { path: &'a [u8], binary: bool },
    /// The old and the new path follow in fields of their own.
    Separate { binary: bool },
    /// No known shape.
    Noise,
}

impl<'a> View for LeadShape<'a> {
    type V = NumstatLead;

    open spec fn view(&self) -> NumstatLead {
        match *self {
            LeadShape::Inline { path, binary } => NumstatLead::Inline { path: path@, binary },
            LeadShape::Separate { binary } => NumstatLead::Separate { binary },
            LeadShape::Noise => NumstatLead::Noise,
        }
    }
}

/// Reads the lead of a numeric-stat record. A path that a well-formed lead
/// names is well-formed too.
pub fn parse_numstat_lead<'a>(lead: &'a [u8]) -> (r: LeadShape<'a>)
    ensures
        r@ == numstat_lead(lead@),
        valid_utf8(lead@) ==> (r matches LeadShape::Inline { path, .. } ==> valid_utf8(path@)),
{
    let n = lead.len();
    let ghost s0 = lead@;
    assert(s0.skip(0) == s0);
    let t1 = find_byte(lead, 0, TAB);
    if t1 == n {
        return LeadShape::Noise;
    }
    let ghost s1 = s0.skip(t1 + 1);
    let t2 = find_byte(lead, t1 + 1, TAB);
    let added = slice_subrange(lead, 0, t1);
    if t2 == n {
        let deleted = slice_subrange(lead, t1 + 1, n);
        assert(split(s1, TAB) == seq![s1]);
        return LeadShape::Separate { binary: is_dash(added) && is_dash(deleted) };
    }
    let deleted = slice_subrange(lead, t1 + 1, t2);
    assert(deleted@ == s1.take(t2 - (t1 + 1)));
    let ghost s2 = s1.skip(t2 - (t1 + 1) + 1);
    assert(s2 == s0.skip(t2 + 1));
    let t3 = find_byte(lead, t2 + 1, TAB);
    if t3 < n {
        let ghost s3 = s2.skip(t3 - (t2 + 1) + 1);
        assert(split(s3, TAB).len() >= 1);
        assert(split(s1, TAB) == seq![s1.take(t2 - (t1 + 1))] + split(s2, TAB));
        return LeadShape::Noise;
    }
    let third = slice_subrange(lead, t2 + 1, n);
    assert(split(s2, TAB) == seq![s2]);
    assert(split(s1, TAB) =~= seq![s1.take(t2 - (t1 + 1)), s2]);
    let binary = is_dash(added) && is_dash(deleted);
    if third.len() == 0 || is_similarity_score(third) {
        LeadShape::Separate { binary }
    } else {
        proof {
            if valid_utf8(s0) {
                lemma_valid_around_ascii(s0, t2 as int);
            }
        }
        LeadShape::Inline { path: third, binary }
    }
}

/// What the numeric-stat report says of each path: whether its line counts are
/// the placeholder of a binary file.
pub struct BinaryStatusMap {
    map: StringHashMap<bool>,
}

impl View for BinaryStatusMap {
    type V = Map<Seq<char>, bool>;

    closed spec fn view(&self) -> Map<Seq<char>, bool> {
        self.map@
    }
}

/// Whether `map` marks `path` as binary. A path that it does not hold is not.
pub open spec fn marks_binary(map: Map<Seq<char>, bool>, path: Seq<char>) -> bool {
    map.contains_key(path) && map[path]
}

impl BinaryStatusMap {
    /// A map that holds no path.
    pub fn new() -> (m: Self)
        ensures
            m@ == Map::<Seq<char>, bool>::empty(),
    {
        BinaryStatusMap { map: StringHashMap::new() }
    }

    /// Records `binary` for `path`, in place of what was recorded for it.
    pub fn insert(&mut self, path: &str, binary: bool)
        ensures
            final(self)@ == old(self)@.insert(path@, binary),
    {
        self.map.insert(path.to_owned(), binary);
    }

    /// What is recorded for `path`, if anything.
    pub fn get(&self, path: &str) -> (r: Option<bool>)
        ensures
            r == if self@.contains_key(path@) {
                Some(self@[path@])
            } else {
                None
            },
    {
        match self.map.get(path) {
            Some(b) => Some(*b),
            None => None,
        }
    }

    /// Whether `path` is recorded as binary.
    pub fn is_binary(&self, path: &str) -> (b: bool)
        ensures
            b == marks_binary(self@, path@),
    {
        match self.map.get(path) {
            Some(b) => *b,
            None => false,
        }
    }

    /// How many paths are recorded.
    pub fn len(&self) -> (n: usize)
        ensures
            n == self@.len(),
    {
        self.map.len()
    }
}

/// Reads a numeric-stat report: for each path it names, whether the path is
/// binary. Records of no known shape are passed over; a field that is
/// missing, or that is not text where text is needed, is an error.
pub fn get_binary_status_map(numstat: &[u8]) -> (r: Result<BinaryStatusMap, SummaryError>)
    ensures
        match r {
            Ok(m) => binary_status_map(numstat@) == Ok::<Map<Seq<char>, bool>, SummaryError>(m@),
            Err(e) => binary_status_map(numstat@) == Err::<Map<Seq<char>, bool>, SummaryError>(e),
        },
{
    let mut cursor = FieldCursor::new(numstat);
    let mut map = BinaryStatusMap::new();
    let ghost all = fields(numstat@);
    loop
        invariant
            cursor.all() == all,
            binary_status_map(numstat@) == binary_map_from(all, cursor.taken() as int, map@),
        decreases all.len() - cursor.taken(),
    {
        let index = cursor.index();
        let lead = match cursor.next() {
            None => {
                return Ok(map);
            },
            Some(lead) => lead,
        };
        if text_of(lead).is_none() {
            return Err(SummaryError::NotText { field: Field::NumstatLead, index });
        }
        match parse_numstat_lead(lead) {
            LeadShape::Inline { path, binary } => {
                let path = text_of(path).unwrap();
                map.insert(path, binary);
            },
            LeadShape::Separate { binary } => {
                if cursor.next().is_none() {
                    return Err(SummaryError::Missing { field: Field::NumstatOldPath, index });
                }
                let at = cursor.index();
                let new_path = match cursor.next() {
                    None => {
                        return Err(
                            SummaryError::Missing { field: Field::NumstatNewPath, index },
                        );
                    },
                    Some(new_path) => new_path,
                };
                match text_of(new_path) {
                    None => {
                        return Err(
                            SummaryError::NotText { field: Field::NumstatNewPath, index: at },
                        );
                    },
                    Some(path) => {
                        map.insert(path, binary);
                    },
                }
            },
            LeadShape::Noise => {},
        }
    }
}

} // verus!
