//! Key derivation for MDQ lookups: the lookup token (lowercase hexadecimal
//! SHA-1 of the entity identifier's bytes) and the form-urlencoded path
//! segment.

use sha1::Digest;
use vstd::prelude::*;

verus! {

use vstd::utf8::encode_utf8;

/// The lowercase hexadecimal digit for a value below sixteen.
pub open spec fn lower_hex_digit(v: u8) -> char
    recommends
        v < 16,
{
    if v < 10 {
        ((48 + v) as u8) as char
    } else {
        ((87 + v) as u8) as char
    }
}

/// The uppercase hexadecimal digit for a value below sixteen.
pub open spec fn upper_hex_digit(v: u8) -> char
    recommends
        v < 16,
{
    if v < 10 {
        ((48 + v) as u8) as char
    } else {
        ((55 + v) as u8) as char
    }
}

/// Lowercase hexadecimal encoding: two digits per byte, in order.
pub open spec fn hex_of(bytes: Seq<u8>) -> Seq<char>
    decreases bytes.len(),
{
    if bytes.len() == 0 {
        Seq::empty()
    } else {
        seq![lower_hex_digit(bytes[0] / 16), lower_hex_digit(bytes[0] % 16)] + hex_of(
            bytes.drop_first(),
        )
    }
}

/// Whether a character is a lowercase hexadecimal digit.
pub open spec fn is_lower_hex_char(c: char) -> bool {
    ('0' <= c && c <= '9') || ('a' <= c && c <= 'f')
}

/// The 160-bit SHA-1 digest of a byte string, named here so that contracts can
/// speak of it; its value on given inputs is fixed only by the hash function
/// itself.
pub uninterp spec fn sha1_of(bytes: Seq<u8>) -> Seq<u8>;

/// Relies on sha1's `Sha1` through the `Digest` interface: the digest is a
/// function of the input bytes alone and is always 20 bytes long.
#[verifier::external_body]
fn sha1_digest(bytes: &[u8]) -> (r: Vec<u8>)
    ensures
        r@ == sha1_of(bytes@),
        r@.len() == 20,
{
    let mut hasher = sha1::Sha1::new();
    hasher.update(bytes);
    hasher.finalize().to_vec()
}

/// Relies on hex::encode: two lowercase hexadecimal digits per input byte, in
/// input order.
#[verifier::external_body]
fn hex_lower(bytes: &Vec<u8>) -> (r: String)
    ensures
        r@ == hex_of(bytes@),
{
    hex::encode(bytes)
}

/// Whether a byte passes through the form-urlencoding unchanged: ASCII
/// alphanumerics and `*`, `-`, `.`, `_`.
pub open spec fn form_unchanged_byte(b: u8) -> bool {
    b == 42 || b == 45 || b == 46 || b == 95 || (48 <= b && b <= 57) || (65 <= b && b <= 90) || (97
        <= b && b <= 122)
}

/// The form-urlencoding of one byte: unchanged, `+` for a space, or a percent
/// escape with uppercase hexadecimal digits.
pub open spec fn form_encoded_byte(b: u8) -> Seq<char> {
    if form_unchanged_byte(b) {
        seq![b as char]
    } else if b == 32 {
        seq!['+']
    } else {
        seq!['%', upper_hex_digit(b / 16), upper_hex_digit(b % 16)]
    }
}

/// The form-urlencoding of a byte string, byte by byte, in order.
pub open spec fn form_urlencoded_of(bytes: Seq<u8>) -> Seq<char>
    decreases bytes.len(),
{
    if bytes.len() == 0 {
        Seq::empty()
    } else {
        form_encoded_byte(bytes[0]) + form_urlencoded_of(bytes.drop_first())
    }
}

/// Relies on url's `form_urlencoded::byte_serialize`: alphanumeric bytes and
/// `*`, `-`, `.`, `_` pass through, a space becomes `+`, and every other byte
/// becomes a percent escape with uppercase hexadecimal digits.
#[verifier::external_body]
fn form_urlencode_bytes(bytes: &[u8]) -> (r: String)
    ensures
        r@ == form_urlencoded_of(bytes@),
{
    url::form_urlencoded::byte_serialize(bytes).collect()
}

/// The MDQ lookup token of an entity identifier: the lowercase hexadecimal
/// SHA-1 digest of its UTF-8 bytes.
pub open spec fn entity_id_hash(id: Seq<char>) -> Seq<char> {
    hex_of(sha1_of(encode_utf8(id)))
}

proof fn lemma_hex_of_shape(bytes: Seq<u8>)
    ensures
        hex_of(bytes).len() == 2 * bytes.len(),
        forall|i: int| 0 <= i < hex_of(bytes).len() ==> is_lower_hex_char(#[trigger] hex_of(bytes)[i]),
    decreases bytes.len(),
{
    if bytes.len() > 0 {
        lemma_hex_of_shape(bytes.drop_first());
    }
}

/// Convert an entity identifier to its SHA-1 hex lookup token for MDQ: a
/// 40-character lowercase hexadecimal string, the same for the same
/// identifier on every call.
pub fn hash_entity_id(entity_id: &str) -> (r: String)
    ensures
        r@ == entity_id_hash(entity_id@),
        r@.len() == 40,
        forall|i: int| 0 <= i < r@.len() ==> is_lower_hex_char(#[trigger] r@[i]),
{
    let bytes = entity_id.as_bytes();
    let digest = sha1_digest(bytes);
    proof {
        lemma_hex_of_shape(digest@);
    }
    hex_lower(&digest)
}

/// Law: the lookup token is a function of the entity identifier alone, so
/// equal identifiers always derive equal tokens.
pub proof fn lemma_hash_entity_id_deterministic(a: Seq<char>, b: Seq<char>)
    requires
        a == b,
    ensures
        entity_id_hash(a) == entity_id_hash(b),
{
}

/// Form-urlencode an entity identifier's UTF-8 bytes for use as an MDQ
/// request path segment.
pub fn encode_entity_id(entity_id: &str) -> (r: String)
    ensures
        r@ == form_urlencoded_of(encode_utf8(entity_id@)),
{
    form_urlencode_bytes(entity_id.as_bytes())
}

} // verus!
