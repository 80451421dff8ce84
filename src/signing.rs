//! Keyed digests and their text encodings, as the venues' signing
//! protocols use them.

use vstd::prelude::*;
use vstd::utf8::encode_utf8;

verus! {

/// HMAC-SHA256 of `msg` under `key`, as the hmac and sha2 crates compute it.
pub uninterp spec fn hmac_sha256_of(key: Seq<u8>, msg: Seq<u8>) -> Seq<u8>;

/// Standard base64 (with padding) of `bytes`, as the base64 crate computes it.
pub uninterp spec fn base64_of(bytes: Seq<u8>) -> Seq<char>;

/// Lower-case hexadecimal digit for a value below 16.
pub open spec fn hex_digit(n: u8) -> char {
    if n < 10 {
        (48 + n) as u8 as char
    } else {
        (87 + n) as u8 as char
    }
}

/// Two lower-case hexadecimal digits per byte, high nibble first.
pub open spec fn hex_of(bytes: Seq<u8>) -> Seq<char>
    decreases bytes.len(),
{
    if bytes.len() == 0 {
        Seq::empty()
    } else {
        let b = bytes.last();
        hex_of(bytes.drop_last()) + seq![hex_digit(b / 16), hex_digit(b % 16)]
    }
}

/// Relies on hmac::Mac over `Hmac<Sha256>`: the tag depends on key and
/// message alone and is 32 bytes long; any key length is accepted.
#[verifier::external_body]
fn hmac_sha256(key: &[u8], msg: &[u8]) -> (r: Vec<u8>)
    ensures
        r@ == hmac_sha256_of(key@, msg@),
        r@.len() == 32,
{
    let mut mac = <hmac::Hmac<sha2::Sha256> as hmac::Mac>::new_from_slice(key).expect(
        "HMAC accepts keys of any length",
    );
    hmac::Mac::update(&mut mac, msg);
    hmac::Mac::finalize(mac).into_bytes().to_vec()
}

/// Relies on hex::encode: two lower-case digits per byte, in order.
#[verifier::external_body]
fn hex_encode(bytes: &[u8]) -> (r: String)
    ensures
        r@ == hex_of(bytes@),
{
    hex::encode(bytes)
}

/// Relies on the standard base64 engine's `encode`: the text depends on
/// the bytes alone.
#[verifier::external_body]
fn base64_encode(bytes: &[u8]) -> (r: String)
    ensures
        r@ == base64_of(bytes@),
{
    base64::Engine::encode(&base64::engine::general_purpose::STANDARD, bytes)
}

/// The hex signature of `message` under `secret`, both UTF-8 encoded.
pub open spec fn spec_hex_signature(secret: Seq<char>, message: Seq<char>) -> Seq<char> {
    hex_of(hmac_sha256_of(encode_utf8(secret), encode_utf8(message)))
}

/// The base64 signature of `message` under `secret`, both UTF-8 encoded.
pub open spec fn spec_base64_signature(secret: Seq<char>, message: Seq<char>) -> Seq<char> {
    base64_of(hmac_sha256_of(encode_utf8(secret), encode_utf8(message)))
}

/// HMAC-SHA256 of `message` under `secret`, hex-encoded.
pub fn hmac_hex(secret: &str, message: &str) -> (r: String)
    ensures
        r@ == spec_hex_signature(secret@, message@),
{
    let tag = hmac_sha256(secret.as_bytes(), message.as_bytes());
    hex_encode(tag.as_slice())
}

/// HMAC-SHA256 of `message` under `secret`, base64-encoded.
pub fn hmac_base64(secret: &str, message: &str) -> (r: String)
    ensures
        r@ == spec_base64_signature(secret@, message@),
{
    let tag = hmac_sha256(secret.as_bytes(), message.as_bytes());
    base64_encode(tag.as_slice())
}

/// The hex form of a digest is twice as long as the digest.
pub proof fn lemma_hex_len(bytes: Seq<u8>)
    ensures
        hex_of(bytes).len() == 2 * bytes.len(),
    decreases bytes.len(),
{
    if bytes.len() > 0 {
        lemma_hex_len(bytes.drop_last());
    }
}

/// Signing is deterministic: the same secret, payload and timestamp give
/// the same hex and base64 signatures.
pub proof fn lemma_signature_deterministic(
    secret1: Seq<char>,
    message1: Seq<char>,
    secret2: Seq<char>,
    message2: Seq<char>,
)
    requires
        secret1 == secret2,
        message1 == message2,
    ensures
        spec_hex_signature(secret1, message1) == spec_hex_signature(secret2, message2),
        spec_base64_signature(secret1, message1) == spec_base64_signature(secret2, message2),
{
}

} // verus!
