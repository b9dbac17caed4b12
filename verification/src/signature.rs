//! The signature of a webhook: HMAC-SHA256 over the raw body, as GitHub sends it
//! in `X-Hub-Signature-256: sha256=<hex>`.
use crate::text::{strip_prefix, without_prefix};
use hmac::Mac;
use vstd::prelude::*;
use vstd::utf8::encode_utf8;

verus! {

/// The number that a hexadecimal digit stands for, in either case.
pub open spec fn hex_value(c: char) -> Option<int> {
    if '0' <= c && c <= '9' {
        Some(c as int - '0' as int)
    } else if 'a' <= c && c <= 'f' {
        Some(c as int - 'a' as int + 10)
    } else if 'A' <= c && c <= 'F' {
        Some(c as int - 'A' as int + 10)
    } else {
        None
    }
}

/// The bytes that a text writes as pairs of hexadecimal digits, the upper half
/// of a byte first; `None` where it does not consist of such pairs.
pub open spec fn hex_bytes(s: Seq<char>) -> Option<Seq<u8>> {
    if s.len() % 2 == 0 && forall|i: int| 0 <= i < s.len() ==> hex_value(#[trigger] s[i]) is Some {
        Some(
            Seq::new(
                s.len() / 2,
                |i: int| (hex_value(s[2 * i])->0 * 16 + hex_value(s[2 * i + 1])->0) as u8,
            ),
        )
    } else {
        None
    }
}

/// `hex::decode` on a text: it succeeds exactly where the text consists of pairs
/// of hexadecimal digits, of either case, and then gives the bytes they write.
#[verifier::external_body]
fn decode_hex(text: &str) -> (r: Option<Vec<u8>>)
    ensures
        match r {
            Some(bytes) => hex_bytes(text@) == Some(bytes@),
            None => hex_bytes(text@) is None,
        },
{
    hex::decode(text).ok()
}

/// The HMAC-SHA256 of a message under a key: what the `hmac` crate's
/// `Hmac<sha2::Sha256>`, made from the key and updated with the message,
/// finalizes to.
pub uninterp spec fn hmac_sha256(key: Seq<u8>, message: Seq<u8>) -> Seq<u8>;

/// `Mac::new_from_slice` on `hmac::Hmac<sha2::Sha256>`, which takes a key of any
/// length, `Mac::update` with the message, and `Mac::verify_slice`, which
/// accepts a tag exactly where it is the HMAC, 32 bytes, in full.
#[verifier::external_body]
fn verify_hmac(key: &[u8], message: &[u8], tag: &[u8]) -> (r: bool)
    ensures
        r == (tag@ == hmac_sha256(key@, message@)),
        r ==> tag@.len() == 32,
{
    let mut mac = hmac::Hmac::<sha2::Sha256>::new_from_slice(key).expect(
        "HMAC accepts any key size",
    );
    mac.update(message);
    mac.verify_slice(tag).is_ok()
}

/// The tag that a signature header carries: the bytes that it writes in hex
/// behind `sha256=`.
pub open spec fn header_tag(header: Seq<char>) -> Option<Seq<u8>> {
    match without_prefix(header, "sha256="@) {
        Some(digits) => hex_bytes(digits),
        None => None,
    }
}

/// Whether `header` signs `body` under `secret`: it carries the HMAC, all of its
/// 32 bytes.
pub open spec fn signs(secret: Seq<char>, body: Seq<u8>, header: Seq<char>) -> bool {
    match header_tag(header) {
        Some(tag) => tag.len() == 32 && tag == hmac_sha256(encode_utf8(secret), body),
        None => false,
    }
}

/// The tag that a signature header carries, if it carries one.
pub fn tag_of(header: &str) -> (r: Option<Vec<u8>>)
    ensures
        match r {
            Some(tag) => header_tag(header@) == Some(tag@),
            None => header_tag(header@) is None,
        },
{
    match strip_prefix(header, "sha256=") {
        Some(digits) => decode_hex(digits.as_str()),
        None => None,
    }
}

/// Constant-time verification of `X-Hub-Signature-256: sha256=<hex>`.
pub fn verify_sig(secret: &str, body: &[u8], header: &str) -> (r: bool)
    ensures
        r == signs(secret@, body@, header@),
        r == (header_tag(header@) == Some(hmac_sha256(encode_utf8(secret@), body@))),
        r ==> (header_tag(header@) matches Some(tag) && tag.len() == 32),
{
    match tag_of(header) {
        Some(tag) => verify_hmac(secret.as_bytes(), body, tag.as_slice()),
        None => false,
    }
}

/// Headers that sign the same body under the same secret carry the same tag.
pub proof fn law_one_tag_signs(
    secret: Seq<char>,
    body: Seq<u8>,
    header: Seq<char>,
    other: Seq<char>,
)
    requires
        signs(secret, body, header),
    ensures
        signs(secret, body, other) <==> header_tag(other) == header_tag(header),
{
}

/// A header whose digest is empty, truncated or too long signs nothing.
pub proof fn law_other_lengths_sign_nothing(secret: Seq<char>, body: Seq<u8>, header: Seq<char>)
    requires
        header_tag(header) matches Some(tag) ==> tag.len() != 32,
    ensures
        !signs(secret, body, header),
{
}

/// A header without the prefix `sha256=` signs nothing.
pub proof fn law_other_schemes_sign_nothing(secret: Seq<char>, body: Seq<u8>, header: Seq<char>)
    requires
        !"sha256="@.is_prefix_of(header),
    ensures
        !signs(secret, body, header),
{
}

} // verus!
