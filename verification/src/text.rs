//! Comparing and copying text and byte strings.

use vstd::prelude::*;
use vstd::string::StringSliceAdditionalSpecFns;
use vstd::utf8::decode_utf8_split;
use vstd::utf8::encode_scalar;
use vstd::utf8::encode_utf8;
use vstd::utf8::encode_utf8_decode_utf8;
use vstd::utf8::encode_utf8_valid_utf8;
use vstd::utf8::is_char_boundary;
use vstd::utf8::is_char_boundary_iff_not_is_continuation_byte;
use vstd::utf8::is_char_boundary_start_end_of_seq;

verus! {

/// Two texts with the same UTF-8 bytes are the same text.
pub proof fn lemma_utf8_injective(a: Seq<char>, b: Seq<char>)
    requires
        encode_utf8(a) == encode_utf8(b),
    ensures
        a == b,
{
    encode_utf8_decode_utf8(a);
    encode_utf8_decode_utf8(b);
}

/// Whether two byte strings are equal, stopping at the first difference.
pub fn bytes_eq(a: &[u8], b: &[u8]) -> (same: bool)
    ensures
        same == (a@ == b@),
{
    if a.len() != b.len() {
        return false;
    }
    let mut i: usize = 0;
    while i < a.len()
        invariant
            i <= a.len(),
            a.len() == b.len(),
            forall|k: int| 0 <= k < i ==> a@[k] == b@[k],
        decreases a.len() - i,
    {
        if a[i] != b[i] {
            return false;
        }
        i += 1;
    }
    assert(a@ =~= b@);
    true
}

/// Whether two byte strings are equal, looking at every byte whatever the
/// outcome: the time taken depends on the lengths alone, not on where the
/// first difference lies.
pub fn bytes_eq_constant_time(a: &[u8], b: &[u8]) -> (same: bool)
    ensures
        same == (a@ == b@),
{
    if a.len() != b.len() {
        return false;
    }
    let mut differing: u8 = 0;
    let mut i: usize = 0;
    while i < a.len()
        invariant
            i <= a.len(),
            a.len() == b.len(),
            (differing == 0) == (forall|k: int| 0 <= k < i ==> a@[k] == b@[k]),
        decreases a.len() - i,
    {
        let x: u8 = a[i];
        let y: u8 = b[i];
        let delta: u8 = x ^ y;
        assert((delta == 0) == (x == y)) by (bit_vector)
            requires
                delta == x ^ y,
        ;
        let before: u8 = differing;
        differing = differing | delta;
        assert((differing == 0) == (before == 0 && delta == 0)) by (bit_vector)
            requires
                differing == before | delta,
        ;
        i += 1;
    }
    if differing == 0 {
        assert(a@ =~= b@);
    }
    differing == 0
}

/// Whether two texts are equal.
pub fn text_eq(a: &str, b: &str) -> (same: bool)
    ensures
        same == (a@ == b@),
{
    let same = bytes_eq(a.as_bytes(), b.as_bytes());
    proof {
        if same {
            lemma_utf8_injective(a@, b@);
        }
    }
    same
}

/// Whether two texts are equal, in time that depends on their lengths alone.
pub fn text_eq_constant_time(a: &str, b: &str) -> (same: bool)
    ensures
        same == (a@ == b@),
{
    let same = bytes_eq_constant_time(a.as_bytes(), b.as_bytes());
    proof {
        if same {
            lemma_utf8_injective(a@, b@);
        }
    }
    same
}

/// A copy of an optional text.
pub fn copy_optional_text(source: &Option<String>) -> (copy: Option<String>)
    ensures
        copy.deep_view() == source.deep_view(),
{
    match source {
        Some(text) => Some(text.clone()),
        None => None,
    }
}

/// A copy of a byte string.
pub fn copy_bytes(source: &[u8]) -> (copy: Vec<u8>)
    ensures
        copy@ == source@,
{
    let mut copy: Vec<u8> = Vec::new();
    let mut i: usize = 0;
    while i < source.len()
        invariant
            i <= source.len(),
            copy@ == source@.subrange(0, i as int),
        decreases source.len() - i,
    {
        copy.push(source[i]);
        assert(source@.subrange(0, i as int).push(source@[i as int]) =~= source@.subrange(
            0,
            i + 1,
        ));
        i += 1;
    }
    assert(source@.subrange(0, source@.len() as int) =~= source@);
    copy
}

/// The bytes of an optional byte string.
pub open spec fn optional_bytes(source: Option<Vec<u8>>) -> Option<Seq<u8>> {
    match source {
        Some(bytes) => Some(bytes@),
        None => None,
    }
}

/// A copy of an optional byte string.
pub fn copy_optional_bytes(source: &Option<Vec<u8>>) -> (copy: Option<Vec<u8>>)
    ensures
        optional_bytes(copy) == optional_bytes(*source),
{
    match source {
        Some(bytes) => Some(copy_bytes(bytes.as_slice())),
        None => None,
    }
}

/// The UTF-8 bytes of two texts put together are the bytes of the first
/// followed by the bytes of the second.
pub proof fn lemma_utf8_of_concat(a: Seq<char>, b: Seq<char>)
    ensures
        encode_utf8(a + b) == encode_utf8(a) + encode_utf8(b),
    decreases a.len(),
{
    if a.len() == 0 {
        assert(a + b =~= b);
        assert(encode_utf8(a) + encode_utf8(b) =~= encode_utf8(b));
    } else {
        lemma_utf8_of_concat(a.drop_first(), b);
        assert((a + b).drop_first() =~= a.drop_first() + b);
        assert((a + b)[0] == a[0]);
        assert(encode_scalar(a[0] as u32) + (encode_utf8(a.drop_first()) + encode_utf8(b))
            =~= (encode_scalar(a[0] as u32) + encode_utf8(a.drop_first())) + encode_utf8(b));
    }
}

/// In the UTF-8 bytes of two texts put together, a character starts where
/// the bytes of the second text start.
pub proof fn lemma_utf8_boundary(a: Seq<char>, b: Seq<char>)
    ensures
        is_char_boundary(encode_utf8(a + b), encode_utf8(a).len() as int),
{
    let bytes = encode_utf8(a + b);
    let at = encode_utf8(a).len() as int;
    lemma_utf8_of_concat(a, b);
    encode_utf8_valid_utf8(a + b);
    encode_utf8_valid_utf8(b);
    if b.len() == 0 {
        assert(encode_utf8(b).len() == 0);
        is_char_boundary_start_end_of_seq(bytes);
    } else {
        let tail = encode_utf8(b);
        assert(encode_scalar(b[0] as u32).len() >= 1);
        assert(tail.len() >= 1);
        is_char_boundary_iff_not_is_continuation_byte(tail, 0);
        assert(is_char_boundary(tail, 0));
        assert(bytes[at] == tail[0]);
        is_char_boundary_iff_not_is_continuation_byte(bytes, at);
    }
}

/// The text without a prefix: what follows the prefix where the text starts
/// with it, and nothing where it does not.
pub open spec fn spec_strip_prefix(text: Seq<char>, prefix: Seq<char>) -> Option<Seq<char>> {
    if prefix.is_prefix_of(text) {
        Some(text.skip(prefix.len() as int))
    } else {
        None
    }
}

/// Takes a prefix off a text.
pub fn strip_prefix<'a>(text: &'a str, prefix: &str) -> (rest: Option<&'a str>)
    ensures
        match (rest, spec_strip_prefix(text@, prefix@)) {
            (Some(found), Some(expected)) => found@ == expected,
            (None, None) => true,
            _ => false,
        },
{
    let n = prefix.as_bytes().len();
    let ghost bytes = text.spec_bytes();
    proof {
        encode_utf8_valid_utf8(text@);
        if prefix@.is_prefix_of(text@) {
            let tail = text@.skip(prefix@.len() as int);
            assert(text@ =~= prefix@ + tail);
            lemma_utf8_of_concat(prefix@, tail);
            lemma_utf8_boundary(prefix@, tail);
            assert(bytes == encode_utf8(prefix@) + encode_utf8(tail));
            assert(bytes.len() >= n);
            assert(is_char_boundary(bytes, n as int));
            assert(bytes.subrange(0, n as int) =~= encode_utf8(prefix@));
        }
    }
    if text.as_bytes().len() < n || !text.is_char_boundary(n) {
        return None;
    }
    let (head, rest) = text.split_at(n);
    let same = text_eq(head, prefix);
    proof {
        decode_utf8_split(bytes, n as int);
        encode_utf8_decode_utf8(text@);
        encode_utf8_decode_utf8(head@);
        encode_utf8_decode_utf8(rest@);
        assert(text@ =~= head@ + rest@);
        if same {
            assert(rest@ =~= text@.skip(prefix@.len() as int));
            assert(prefix@.is_prefix_of(text@));
        }
        if prefix@.is_prefix_of(text@) {
            lemma_utf8_injective(head@, prefix@);
        }
    }
    if same {
        Some(rest)
    } else {
        None
    }
}

} // verus!
