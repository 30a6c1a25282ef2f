//! Text as characters and as UTF-8 bytes: the conversions between `str`,
//! `String`, characters and bytes.

use core::str::Utf8Error;
use vstd::prelude::*;
use vstd::utf8::*;

verus! {

/// The error of `core::str::from_utf8`, carried through unread.
#[verifier::external_type_specification]
#[verifier::external_body]
pub struct ExUtf8Error(Utf8Error);

/// `core::str::from_utf8` succeeds exactly on well-formed UTF-8, and the
/// string it returns is made of the very bytes it was given.
pub assume_specification[ core::str::from_utf8 ](v: &[u8]) -> (r: Result<&str, Utf8Error>)
    ensures
        r is Ok <==> valid_utf8(v@),
        r matches Ok(s) ==> encode_utf8(s@) == v@,
;

/// `String::push` appends one character.
pub assume_specification[ String::push ](s: &mut String, ch: char)
    ensures
        final(s)@ == old(s)@.push(ch),
;

/// The lower-case form of a text, as `str::to_lowercase` gives it.
pub uninterp spec fn lowercase(s: Seq<char>) -> Seq<char>;

/// `str::to_lowercase` maps a text to its lower-case form, which depends on
/// the text alone.
pub assume_specification[ str::to_lowercase ](s: &str) -> (r: String)
    ensures
        r@ == lowercase(s@),
;

/// The texts that a sequence of strings holds.
pub open spec fn texts(s: Seq<String>) -> Seq<Seq<char>> {
    s.map_values(|x: String| x@)
}

/// The characters of a string, one by one.
pub fn chars_of(s: &str) -> (v: Vec<char>)
    ensures
        v@ == s@,
{
    let mut v: Vec<char> = Vec::new();
    for c in it: s.chars()
        invariant
            v@ == it.seq().take(it.index() as int),
            it.seq() == s@,
    {
        v.push(c);
    }
    v
}

/// Appends the characters `chars[from..to]` to `out`.
pub fn push_chars(out: &mut String, chars: &[char], from: usize, to: usize)
    requires
        from <= to <= chars@.len(),
    ensures
        final(out)@ == old(out)@ + chars@.subrange(from as int, to as int),
{
    let mut i: usize = from;
    while i < to
        invariant
            from <= i <= to <= chars@.len(),
            out@ == old(out)@ + chars@.subrange(from as int, i as int),
        decreases to - i,
    {
        out.push(chars[i]);
        i += 1;
    }
}

/// The string made of the given characters.
pub fn string_of(chars: &[char]) -> (s: String)
    ensures
        s@ == chars@,
{
    let mut s = String::new();
    push_chars(&mut s, chars, 0, chars.len());
    s
}

/// The text that `bytes` encode, where they are well-formed UTF-8.
pub fn text_of(bytes: &[u8]) -> (r: Option<&str>)
    ensures
        r is Some <==> valid_utf8(bytes@),
        r matches Some(s) ==> s@ == decode_utf8(bytes@),
{
    match core::str::from_utf8(bytes) {
        Ok(s) => {
            proof {
                encode_utf8_decode_utf8(s@);
            }
            Some(s)
        },
        Err(_) => None,
    }
}

/// In well-formed UTF-8 an ASCII byte is a character of its own: one
/// character begins at it and the next one right behind it.
pub proof fn lemma_ascii_is_boundary(b: Seq<u8>, k: int)
    requires
        valid_utf8(b),
        0 <= k < b.len(),
        b[k] <= 0x7f,
    ensures
        is_char_boundary(b, k),
        is_char_boundary(b, k + 1),
    decreases b.len(),
{
    let rest = pop_first_scalar(b);
    let width = length_of_first_scalar(b);
    if k == 0 {
        assert(is_char_boundary(rest, 0));
    } else {
        lemma_ascii_is_boundary(rest, k - width);
    }
}

/// Well-formed UTF-8 cut at an ASCII byte leaves well-formed UTF-8 on both
/// sides of that byte.
pub proof fn lemma_valid_around_ascii(b: Seq<u8>, k: int)
    requires
        valid_utf8(b),
        0 <= k < b.len(),
        b[k] <= 0x7f,
    ensures
        valid_utf8(b.take(k)),
        valid_utf8(b.skip(k + 1)),
{
    lemma_ascii_is_boundary(b, k);
    valid_utf8_split(b, k);
    valid_utf8_split(b, k + 1);
}

} // verus!
