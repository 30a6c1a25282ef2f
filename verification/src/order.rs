//! The order in which descriptions are listed: byte by byte over their UTF-8
//! encoding, as `String` orders itself; and a sort by it.

use crate::text::texts;
use vstd::prelude::*;
use vstd::seq_lib::*;
use vstd::utf8::*;

verus! {

/// Lexicographic "at most" on bytes: a proper prefix comes first, otherwise
/// the first byte that differs decides.
pub open spec fn bytes_le(a: Seq<u8>, b: Seq<u8>) -> bool
    decreases a.len(),
{
    if a.len() == 0 {
        true
    } else if b.len() == 0 {
        false
    } else if a[0] != b[0] {
        a[0] < b[0]
    } else {
        bytes_le(a.skip(1), b.skip(1))
    }
}

/// "At most" on texts: `bytes_le` on their UTF-8 encodings.
pub open spec fn text_le(a: Seq<char>, b: Seq<char>) -> bool {
    bytes_le(encode_utf8(a), encode_utf8(b))
}

/// Each text is at most every later one.
pub open spec fn sorted(s: Seq<Seq<char>>) -> bool {
    forall|i: int, j: int| 0 <= i <= j < s.len() ==> text_le(#[trigger] s[i], #[trigger] s[j])
}

/// Of two byte strings one is at most the other.
pub proof fn lemma_bytes_le_total(a: Seq<u8>, b: Seq<u8>)
    ensures
        bytes_le(a, b) || bytes_le(b, a),
    decreases a.len(),
{
    if a.len() > 0 && b.len() > 0 && a[0] == b[0] {
        lemma_bytes_le_total(a.skip(1), b.skip(1));
    }
}

/// `bytes_le` is transitive.
pub proof fn lemma_bytes_le_trans(a: Seq<u8>, b: Seq<u8>, c: Seq<u8>)
    requires
        bytes_le(a, b),
        bytes_le(b, c),
    ensures
        bytes_le(a, c),
    decreases a.len(),
{
    if a.len() > 0 && b.len() > 0 && c.len() > 0 && a[0] == b[0] && b[0] == c[0] {
        lemma_bytes_le_trans(a.skip(1), b.skip(1), c.skip(1));
    }
}

/// Byte strings that are at most each other are equal.
pub proof fn lemma_bytes_le_antisym(a: Seq<u8>, b: Seq<u8>)
    requires
        bytes_le(a, b),
        bytes_le(b, a),
    ensures
        a == b,
    decreases a.len(),
{
    if a.len() > 0 && b.len() > 0 {
        lemma_bytes_le_antisym(a.skip(1), b.skip(1));
        assert(b =~= seq![b[0]] + b.skip(1));
    }
}

/// Texts that are at most each other are equal.
pub proof fn lemma_text_le_antisym(a: Seq<char>, b: Seq<char>)
    requires
        text_le(a, b),
        text_le(b, a),
    ensures
        a == b,
{
    lemma_bytes_le_antisym(encode_utf8(a), encode_utf8(b));
    encode_utf8_decode_utf8(a);
    encode_utf8_decode_utf8(b);
}

/// A sorted sequence is fixed by what it holds: two sorted sequences with the
/// same texts, each as often in one as in the other, are the same sequence.
pub proof fn lemma_sorted_is_unique(x: Seq<Seq<char>>, y: Seq<Seq<char>>)
    requires
        sorted(x),
        sorted(y),
        x.to_multiset() == y.to_multiset(),
    ensures
        x == y,
{
    let leq = |a: Seq<char>, b: Seq<char>| text_le(a, b);
    assert(vstd::relations::total_ordering(leq)) by {
        assert forall|a: Seq<char>| #[trigger] leq(a, a) by {
            lemma_bytes_le_total(encode_utf8(a), encode_utf8(a));
        }
        assert forall|a: Seq<char>, b: Seq<char>| #[trigger] leq(a, b) && leq(b, a) implies a
            == b by {
            lemma_text_le_antisym(a, b);
        }
        assert forall|a: Seq<char>, b: Seq<char>, c: Seq<char>| #[trigger]
            leq(a, b) && #[trigger] leq(b, c) implies leq(a, c) by {
            lemma_bytes_le_trans(encode_utf8(a), encode_utf8(b), encode_utf8(c));
        }
        assert forall|a: Seq<char>, b: Seq<char>| #[trigger] leq(a, b) || leq(b, a) by {
            lemma_bytes_le_total(encode_utf8(a), encode_utf8(b));
        }
    }
    lemma_sorted_unique(x, y, leq);
}

/// Whether `a` comes before `b` or is equal to it.
pub fn str_le(a: &str, b: &str) -> (r: bool)
    ensures
        r == text_le(a@, b@),
{
    let x = a.as_bytes();
    let y = b.as_bytes();
    let mut i: usize = 0;
    assert(x@.skip(0) == x@ && y@.skip(0) == y@);
    while i < x.len() && i < y.len() && x[i] == y[i]
        invariant
            i <= x@.len(),
            i <= y@.len(),
            bytes_le(x@, y@) == bytes_le(x@.skip(i as int), y@.skip(i as int)),
        decreases x@.len() - i,
    {
        assert(x@.skip(i as int).skip(1) == x@.skip(i + 1));
        assert(y@.skip(i as int).skip(1) == y@.skip(i + 1));
        i += 1;
    }
    if i == x.len() {
        true
    } else if i == y.len() {
        false
    } else {
        x[i] < y[i]
    }
}

/// Every text of `s` is at most `x`.
pub open spec fn all_le(s: Seq<Seq<char>>, x: Seq<char>) -> bool {
    forall|k: int| 0 <= k < s.len() ==> text_le(#[trigger] s[k], x)
}

/// A sorted sequence stays sorted with one more text at its end that none of
/// its texts comes after; and what is at most that text is at most whatever
/// that text is at most.
proof fn lemma_push_keeps_sorted(s: Seq<Seq<char>>, x: Seq<char>, y: Seq<char>)
    requires
        sorted(s),
        all_le(s, x),
        text_le(x, y),
    ensures
        sorted(s.push(x)),
        all_le(s.push(x), y),
{
    let t = s.push(x);
    lemma_bytes_le_total(encode_utf8(x), encode_utf8(x));
    assert forall|i: int, j: int| 0 <= i <= j < t.len() implies text_le(
        #[trigger] t[i],
        #[trigger] t[j],
    ) by {}
    assert forall|k: int| 0 <= k < t.len() implies text_le(#[trigger] t[k], y) by {
        lemma_bytes_le_trans(encode_utf8(t[k]), encode_utf8(x), encode_utf8(y));
    }
}

/// The two sorted sequences in one, sorted.
fn merge(a: &Vec<String>, b: &Vec<String>) -> (out: Vec<String>)
    requires
        sorted(texts(a@)),
        sorted(texts(b@)),
    ensures
        sorted(texts(out@)),
        texts(out@).to_multiset() == texts(a@).to_multiset().add(texts(b@).to_multiset()),
{
    let ghost x = texts(a@);
    let ghost y = texts(b@);
    let mut out: Vec<String> = Vec::new();
    let mut i: usize = 0;
    let mut j: usize = 0;
    proof {
        broadcast use group_to_multiset_ensures;
    }
    while i < a.len() || j < b.len()
        invariant
            x == texts(a@),
            y == texts(b@),
            sorted(x),
            sorted(y),
            i <= a@.len(),
            j <= b@.len(),
            sorted(texts(out@)),
            i < a@.len() ==> all_le(texts(out@), x[i as int]),
            j < b@.len() ==> all_le(texts(out@), y[j as int]),
            texts(out@).to_multiset() == x.take(i as int).to_multiset().add(
                y.take(j as int).to_multiset(),
            ),
        decreases a@.len() - i + b@.len() - j,
    {
        let ghost before = texts(out@);
        let from_a = if j == b.len() {
            true
        } else if i == a.len() {
            false
        } else {
            str_le(a[i].as_str(), b[j].as_str())
        };
        if from_a {
            let s = a[i].clone();
            out.push(s);
            proof {
                assert(texts(out@) =~= before.push(x[i as int]));
                assert(x.take(i + 1) =~= x.take(i as int).push(x[i as int]));
                to_multiset_build(before, x[i as int]);
                to_multiset_build(x.take(i as int), x[i as int]);
                if i + 1 < a@.len() {
                    lemma_push_keeps_sorted(before, x[i as int], x[i + 1]);
                } else {
                    lemma_bytes_le_total(encode_utf8(x[i as int]), encode_utf8(x[i as int]));
                    lemma_push_keeps_sorted(before, x[i as int], x[i as int]);
                }
                if j < b@.len() {
                    lemma_push_keeps_sorted(before, x[i as int], y[j as int]);
                }
            }
            i += 1;
        } else {
            let s = b[j].clone();
            out.push(s);
            proof {
                assert(texts(out@) =~= before.push(y[j as int]));
                assert(y.take(j + 1) =~= y.take(j as int).push(y[j as int]));
                to_multiset_build(before, y[j as int]);
                to_multiset_build(y.take(j as int), y[j as int]);
                if j + 1 < b@.len() {
                    lemma_push_keeps_sorted(before, y[j as int], y[j + 1]);
                } else {
                    lemma_bytes_le_total(encode_utf8(y[j as int]), encode_utf8(y[j as int]));
                    lemma_push_keeps_sorted(before, y[j as int], y[j as int]);
                }
                if i < a@.len() {
                    lemma_bytes_le_total(encode_utf8(x[i as int]), encode_utf8(y[j as int]));
                    lemma_push_keeps_sorted(before, y[j as int], x[i as int]);
                }
            }
            j += 1;
        }
    }
    proof {
        assert(x.take(a@.len() as int) =~= x);
        assert(y.take(b@.len() as int) =~= y);
    }
    out
}

/// The strings `v[from..to]`, sorted.
fn sorted_range(v: &Vec<String>, from: usize, to: usize) -> (out: Vec<String>)
    requires
        from <= to <= v@.len(),
    ensures
        sorted(texts(out@)),
        texts(out@).to_multiset() == texts(v@).subrange(from as int, to as int).to_multiset(),
    decreases to - from,
{
    let ghost whole = texts(v@).subrange(from as int, to as int);
    if to - from <= 1 {
        let mut out: Vec<String> = Vec::new();
        if to - from == 1 {
            out.push(v[from].clone());
        }
        proof {
            assert(texts(out@) =~= whole);
            if to - from == 1 {
                lemma_bytes_le_total(encode_utf8(whole[0]), encode_utf8(whole[0]));
            }
        }
        return out;
    }
    let mid = from + (to - from) / 2;
    let a = sorted_range(v, from, mid);
    let b = sorted_range(v, mid, to);
    proof {
        let left = texts(v@).subrange(from as int, mid as int);
        let right = texts(v@).subrange(mid as int, to as int);
        assert(whole =~= left + right);
        lemma_multiset_commutative(left, right);
    }
    merge(&a, &b)
}

/// Sorts the strings: afterwards each is at most every later one, and each
/// text occurs as often as it did before.
pub fn sort_strings(v: &mut Vec<String>)
    ensures
        sorted(texts(final(v)@)),
        texts(final(v)@).to_multiset() == texts(old(v)@).to_multiset(),
{
    let out = sorted_range(v, 0, v.len());
    assert(texts(v@).subrange(0, v@.len() as int) =~= texts(v@));
    *v = out;
}

} // verus!
