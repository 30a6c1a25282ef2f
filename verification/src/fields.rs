//! Reports whose fields end in a NUL byte, read one field at a time.

use crate::scan::{find_byte, first_at, lemma_first_at_bounds, split};
use vstd::prelude::*;
use vstd::slice::slice_subrange;

verus! {

/// The non-empty runs of non-zero bytes in `bytes`, in order: the fields of a
/// NUL-separated report, empty ones left out.
pub open spec fn fields(bytes: Seq<u8>) -> Seq<Seq<u8>>
    decreases bytes.len(),
{
    if bytes.len() == 0 {
        Seq::empty()
    } else if bytes[0] == 0 {
        fields(bytes.skip(1))
    } else {
        let k = first_at(bytes, 0u8);
        proof {
            lemma_first_at_bounds(bytes, 0u8);
        }
        seq![bytes.take(k)] + fields(bytes.skip(k))
    }
}

/// No field is empty, and none holds a NUL byte.
pub proof fn lemma_fields_hold_no_nul(bytes: Seq<u8>, i: int)
    requires
        0 <= i < fields(bytes).len(),
    ensures
        fields(bytes)[i].len() > 0,
        forall|j: int| 0 <= j < fields(bytes)[i].len() ==> fields(bytes)[i][j] != 0,
    decreases bytes.len(),
{
    if bytes.len() == 0 {
    } else if bytes[0] == 0 {
        lemma_fields_hold_no_nul(bytes.skip(1), i);
    } else {
        let k = first_at(bytes, 0u8);
        lemma_first_at_bounds(bytes, 0u8);
        if i > 0 {
            lemma_fields_hold_no_nul(bytes.skip(k), i - 1);
        }
    }
}

/// A report without a non-zero byte has no field, and only such a report.
pub proof fn lemma_no_fields(bytes: Seq<u8>)
    ensures
        fields(bytes).len() == 0 <==> forall|j: int| 0 <= j < bytes.len() ==> bytes[j] == 0,
    decreases bytes.len(),
{
    if bytes.len() == 0 {
    } else if bytes[0] == 0 {
        let rest = bytes.skip(1);
        lemma_no_fields(rest);
        if fields(bytes).len() == 0 {
            assert forall|j: int| 0 <= j < bytes.len() implies bytes[j] == 0 by {
                if j > 0 {
                    assert(rest[j - 1] == bytes[j]);
                }
            }
        }
    }
}

/// Whether a piece of a report counts as a field: whether it is not empty.
pub open spec fn is_field() -> spec_fn(Seq<u8>) -> bool {
    |piece: Seq<u8>| piece.len() > 0
}

/// The fields are the pieces between the NUL bytes, without the empty ones.
pub proof fn lemma_fields_are_the_pieces(bytes: Seq<u8>)
    ensures
        fields(bytes) == split(bytes, 0u8).filter(is_field()),
    decreases bytes.len(),
{
    let k = first_at(bytes, 0u8);
    lemma_first_at_bounds(bytes, 0u8);
    reveal_with_fuel(Seq::filter, 2);
    if k < bytes.len() {
        let first = seq![bytes.take(k)];
        let rest = split(bytes.skip(k + 1), 0u8);
        lemma_fields_are_the_pieces(bytes.skip(k + 1));
        Seq::filter_distributes_over_add(first, rest, is_field());
        assert(first.drop_last() =~= Seq::<Seq<u8>>::empty());
        if k > 0 {
            assert(bytes.skip(k).skip(1) =~= bytes.skip(k + 1));
            assert(fields(bytes.skip(k)) == fields(bytes.skip(k + 1)));
            assert(first.filter(is_field()) =~= first);
        } else {
            assert(first.filter(is_field()) =~= Seq::<Seq<u8>>::empty());
            assert(first.filter(is_field()) + rest.filter(is_field()) =~= rest.filter(is_field()));
        }
    } else {
        let only = seq![bytes];
        assert(only.drop_last() =~= Seq::<Seq<u8>>::empty());
        if bytes.len() > 0 {
            assert(bytes.take(k) =~= bytes);
            assert(fields(bytes.skip(k)) =~= Seq::<Seq<u8>>::empty());
            assert(only.filter(is_field()) =~= only);
            assert(fields(bytes) =~= only);
        } else {
            assert(only.filter(is_field()) =~= Seq::<Seq<u8>>::empty());
        }
    }
}

/// A reader that hands out the fields of a report from first to last.
pub struct FieldCursor<'a> {
    bytes: &'a [u8],
    pos: usize,
    count: usize,
}

impl<'a> FieldCursor<'a> {
    /// The reader stands behind the fields it has handed out: the fields of
    /// what is left are the fields that have not been handed out.
    #[verifier::type_invariant]
    spec fn inv(self) -> bool {
        &&& self.count <= self.pos <= self.bytes@.len()
        &&& self.count <= fields(self.bytes@).len()
        &&& fields(self.bytes@.skip(self.pos as int)) == fields(self.bytes@).skip(self.count as int)
    }

    /// All the fields of the report that is being read.
    pub closed spec fn all(&self) -> Seq<Seq<u8>> {
        fields(self.bytes@)
    }

    /// How many fields have been handed out.
    pub closed spec fn taken(&self) -> nat {
        self.count as nat
    }

    /// A reader at the first field of `bytes`.
    pub fn new(bytes: &'a [u8]) -> (c: Self)
        ensures
            c.all() == fields(bytes@),
            c.taken() == 0,
    {
        assert(bytes@.skip(0) == bytes@);
        assert(fields(bytes@).skip(0) == fields(bytes@));
        FieldCursor { bytes, pos: 0, count: 0 }
    }

    /// How many fields have been handed out.
    pub fn index(&self) -> (n: usize)
        ensures
            n == self.taken(),
            n <= self.all().len(),
    {
        proof {
            use_type_invariant(self);
        }
        self.count
    }

    /// The next field, or `None` once all have been handed out.
    pub fn next(&mut self) -> (r: Option<&'a [u8]>)
        ensures
            final(self).all() == old(self).all(),
            old(self).taken() <= old(self).all().len(),
            match r {
                Some(f) => old(self).taken() < old(self).all().len()
                    && f@ == old(self).all()[old(self).taken() as int]
                    && final(self).taken() == old(self).taken() + 1,
                None => old(self).taken() == old(self).all().len()
                    && final(self).taken() == old(self).taken(),
            },
    {
        proof {
            use_type_invariant(&*self);
        }
        let bytes = self.bytes;
        let count = self.count;
        let ghost all = fields(bytes@);
        let mut p: usize = self.pos;
        while p < bytes.len() && bytes[p] == 0
            invariant
                count <= p <= bytes@.len(),
                fields(bytes@.skip(p as int)) == all.skip(count as int),
            decreases bytes@.len() - p,
        {
            assert(bytes@.skip(p as int).skip(1) == bytes@.skip(p + 1));
            p += 1;
        }
        if p == bytes.len() {
            *self = FieldCursor { bytes, pos: p, count };
            None
        } else {
            let e = find_byte(bytes, p, 0);
            let ghost rest = bytes@.skip(p as int);
            proof {
                assert(rest.skip(e - p) == bytes@.skip(e as int));
                assert(all.skip(count as int)[0] == all[count as int]);
                assert(all.skip(count as int).skip(1) == all.skip(count + 1));
                assert((seq![rest.take(e - p)] + fields(rest.skip(e - p))).skip(1) == fields(
                    rest.skip(e - p),
                ));
            }
            let f = slice_subrange(bytes, p, e);
            *self = FieldCursor { bytes, pos: e, count: count + 1 };
            Some(f)
        }
    }
}

} // verus!
