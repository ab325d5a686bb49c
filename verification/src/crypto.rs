//! Signature primitives: HMAC-SHA256 and base64.
//!
//! Both computations are carried out by outside crates and named here by
//! uninterpreted spec functions; everything the rest of the crate proves
//! about signatures goes through these names.

use vstd::prelude::*;
use base64::Engine;

verus! {

/// The HMAC-SHA256 tag of a message under a key, both given as text; a
/// pure function of the two arguments.
pub uninterp spec fn hmac_sha256_of(key: Seq<char>, msg: Seq<char>) -> Seq<u8>;

/// The standard padded base64 encoding of a byte sequence; a pure
/// function of its argument.
pub uninterp spec fn base64_of(bytes: Seq<u8>) -> Seq<char>;

/// Whether a character belongs to the standard base64 alphabet, the `=`
/// padding included.
pub open spec fn is_base64_char(c: char) -> bool {
    ('A' <= c && c <= 'Z') || ('a' <= c && c <= 'z') || ('0' <= c && c <= '9') || c == '+' || c
        == '/' || c == '='
}

/// Relies on ring's `hmac::sign` with an `HMAC_SHA256` key: the tag is a
/// pure function of key and message, and is one SHA-256 digest (32 bytes)
/// long.
#[verifier::external_body]
pub(crate) fn hmac_sha256(key: &str, msg: &str) -> (r: Vec<u8>)
    ensures
        r@ == hmac_sha256_of(key@, msg@),
        r@.len() == 32,
{
    let key = ring::hmac::Key::new(ring::hmac::HMAC_SHA256, key.as_bytes());
    ring::hmac::sign(&key, msg.as_bytes()).as_ref().to_vec()
}

/// Relies on base64's `STANDARD` engine: padded encoding, four output
/// characters from the standard alphabet per three input bytes.
#[verifier::external_body]
pub(crate) fn base64_encode(bytes: &[u8]) -> (r: String)
    ensures
        r@ == base64_of(bytes@),
        r@.len() == 4 * ((bytes@.len() + 2) / 3),
        forall|i: int| 0 <= i < r@.len() ==> is_base64_char(#[trigger] r@[i]),
{
    base64::engine::general_purpose::STANDARD.encode(bytes)
}

/// The passphrase signature sent in the `kc-api-passphrase` header: the
/// base64-encoded HMAC-SHA256 tag of the passphrase under the API secret.
pub open spec fn spec_passphrase_signature(secret: Seq<char>, passphrase: Seq<char>) -> Seq<char> {
    base64_of(hmac_sha256_of(secret, passphrase))
}

/// Derives the passphrase signature from the API secret and the raw
/// passphrase. Deterministic: the result is a function of the two
/// arguments alone.
pub fn derive_passphrase_signature(secret: &str, passphrase: &str) -> (r: String)
    ensures
        r@ == spec_passphrase_signature(secret@, passphrase@),
        r@.len() == 44,
        forall|i: int| 0 <= i < r@.len() ==> is_base64_char(#[trigger] r@[i]),
{
    let tag = hmac_sha256(secret, passphrase);
    base64_encode(tag.as_slice())
}

/// Law: the passphrase signature is a function of secret and passphrase
/// alone, so two derivations from equal inputs always agree.
pub proof fn lemma_passphrase_signature_deterministic(
    secret1: Seq<char>,
    passphrase1: Seq<char>,
    secret2: Seq<char>,
    passphrase2: Seq<char>,
)
    requires
        secret1 == secret2,
        passphrase1 == passphrase2,
    ensures
        spec_passphrase_signature(secret1, passphrase1) == spec_passphrase_signature(
            secret2,
            passphrase2,
        ),
{
}

} // verus!
