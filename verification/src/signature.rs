//! Webhook signatures: the hex form of an HMAC-SHA512 tag over the raw
//! request body, keyed with the secret shared with the gateway.

use vstd::prelude::*;
use vstd::utf8::encode_utf8;
use crate::text::text_eq_constant_time;

verus! {

/// The HMAC-SHA512 tag of `message` under `key`: what the `hmac` crate's
/// `Hmac<Sha512>` computes. The library states nothing of it beyond its being
/// a function of the key and the message.
pub uninterp spec fn hmac_sha512(key: Seq<u8>, message: Seq<u8>) -> Seq<u8>;

/// The lower-case hex digit of a value below sixteen.
pub open spec fn hex_digit(nibble: u8) -> char {
    if nibble < 10 {
        (48 + nibble) as u8 as char
    } else {
        (87 + nibble) as u8 as char
    }
}

/// The lower-case hex form of a byte string: two digits for each byte, the
/// high half first.
pub open spec fn hex_encoding(bytes: Seq<u8>) -> Seq<char> {
    Seq::new(
        2 * bytes.len(),
        |i: int|
            if i % 2 == 0 {
                hex_digit(bytes[i / 2] >> 4)
            } else {
                hex_digit(bytes[i / 2] & 0x0f)
            },
    )
}

/// The signature that the gateway puts on a body under a secret.
pub open spec fn expected_signature(secret: Seq<char>, body: Seq<u8>) -> Seq<char> {
    hex_encoding(hmac_sha512(encode_utf8(secret), body))
}

/// The digit of a value below sixteen tells the value.
proof fn lemma_hex_digit_tells(a: u8, b: u8)
    requires
        a < 16,
        b < 16,
        hex_digit(a) == hex_digit(b),
    ensures
        a == b,
{
    assert(hex_digit(a) as u8 == if a < 10 {
        48 + a
    } else {
        87 + a
    });
    assert(hex_digit(b) as u8 == if b < 10 {
        48 + b
    } else {
        87 + b
    });
}

/// The hex form of a byte string tells the byte string: two byte strings
/// with the same hex form are the same.
pub proof fn lemma_hex_encoding_tells(a: Seq<u8>, b: Seq<u8>)
    requires
        hex_encoding(a) == hex_encoding(b),
    ensures
        a == b,
{
    assert(hex_encoding(a).len() == 2 * a.len());
    assert(hex_encoding(b).len() == 2 * b.len());
    assert forall|k: int| 0 <= k < a.len() implies a[k] == b[k] by {
        let x = a[k];
        let y = b[k];
        assert(hex_encoding(a)[2 * k] == hex_digit(x >> 4));
        assert(hex_encoding(b)[2 * k] == hex_digit(y >> 4));
        assert(hex_encoding(a)[2 * k + 1] == hex_digit(x & 0x0f));
        assert(hex_encoding(b)[2 * k + 1] == hex_digit(y & 0x0f));
        assert(x >> 4 < 16 && x & 0x0f < 16) by (bit_vector);
        assert(y >> 4 < 16 && y & 0x0f < 16) by (bit_vector);
        lemma_hex_digit_tells(x >> 4, y >> 4);
        lemma_hex_digit_tells(x & 0x0f, y & 0x0f);
        assert(x == y) by (bit_vector)
            requires
                x >> 4 == y >> 4,
                x & 0x0f == y & 0x0f,
        ;
    }
    assert(a =~= b);
}

/// Computes an HMAC-SHA512 tag with the `hmac` and `sha2` crates:
/// `Hmac::<Sha512>::new_from_slice(key)`, one `update(message)`, then
/// `finalize().into_bytes()`. Not proved: that the bytes returned are the tag
/// named `hmac_sha512`. For this MAC `new_from_slice` takes a key of any
/// length and returns `Ok`.
#[verifier::external_body]
pub(crate) fn hmac_sha512_tag(key: &[u8], message: &[u8]) -> (tag: Vec<u8>)
    ensures
        tag@ == hmac_sha512(key@, message@),
{
    let mut mac = <hmac::Hmac<sha2::Sha512> as hmac::Mac>::new_from_slice(key).expect(
        "HMAC can take key of any size",
    );
    hmac::Mac::update(&mut mac, message);
    hmac::Mac::finalize(mac).into_bytes().to_vec()
}

/// Hex-encodes with `hex::encode`. Not proved: that the text returned is the
/// lower-case encoding `hex_encoding`, two digits per byte, high half first.
#[verifier::external_body]
pub(crate) fn hex_lower(bytes: &[u8]) -> (text: String)
    ensures
        text@ == hex_encoding(bytes@),
{
    hex::encode(bytes)
}

/// Whether `signature` is the hex form of `tag`. Every character is looked
/// at whatever the outcome.
pub fn signature_matches(signature: &str, tag: &[u8]) -> (valid: bool)
    ensures
        valid == (signature@ == hex_encoding(tag@)),
{
    let expected = hex_lower(tag);
    text_eq_constant_time(expected.as_str(), signature)
}

/// Whether `signature` is the one the gateway puts on `body` under `secret`.
/// The body is taken as raw bytes, as they came off the wire.
pub fn verify_signature(secret: &str, signature: &str, body: &[u8]) -> (valid: bool)
    ensures
        valid == (signature@ == expected_signature(secret@, body@)),
{
    let tag = hmac_sha512_tag(secret.as_bytes(), body);
    signature_matches(signature, tag.as_slice())
}

} // verus!
