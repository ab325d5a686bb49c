use base64::Engine;
use kucoin_trader::crypto::derive_passphrase_signature;
use kucoin_trader::kucoin_client::{Kucoin, KucoinError, TradeType};
use kucoin_trader::numfmt::{i64_to_dec, u64_to_dec};

fn hmac_b64(key: &str, msg: &str) -> String {
    let k = ring::hmac::Key::new(ring::hmac::HMAC_SHA256, key.as_bytes());
    base64::engine::general_purpose::STANDARD
        .encode(ring::hmac::sign(&k, msg.as_bytes()).as_ref())
}

fn session() -> Kucoin {
    Kucoin::new(
        "api-key-1".to_string(),
        "api-secret-1".to_string(),
        "passphrase-1".to_string(),
        "https://api.example.com".to_string(),
    )
}

#[test]
fn passphrase_signature_deterministic() {
    let a = derive_passphrase_signature("secret", "phrase");
    let b = derive_passphrase_signature("secret", "phrase");
    assert_eq!(a, b);
}

#[test]
fn passphrase_signature_distinguishes_passphrases() {
    let a = derive_passphrase_signature("secret", "phrase-one");
    let b = derive_passphrase_signature("secret", "phrase-two");
    assert_ne!(a, b);
}

#[test]
fn passphrase_signature_matches_hmac_then_base64() {
    let got = derive_passphrase_signature("api-secret-1", "passphrase-1");
    let expected = hmac_b64("api-secret-1", "passphrase-1");
    assert_eq!(got, expected);
    assert_eq!(got.len(), 44);
}

#[test]
fn balance_headers_sign_the_canonical_string() {
    let k = session();
    let h = k
        .create_headers_at(TradeType::Balance, "", 1700000000000)
        .unwrap();
    assert_eq!(h.timestamp.as_str(), "1700000000000");
    assert_eq!(h.key.as_str(), "api-key-1");
    assert_eq!(h.key_version.as_str(), "2");
    assert_eq!(
        h.passphrase,
        derive_passphrase_signature("api-secret-1", "passphrase-1")
    );
    let expected = hmac_b64("api-secret-1", "1700000000000GET/api/v1/accounts");
    assert_eq!(h.sign, expected);
}

#[test]
fn header_timestamp_equals_signing_string_timestamp() {
    let k = session();
    let h = k.create_headers(TradeType::Balance, "").unwrap();
    // The signature must verify against the canonical string rebuilt from
    // the headers' own timestamp: the two cannot disagree.
    let canonical = format!("{}GET/api/v1/accounts", h.timestamp);
    assert_eq!(h.sign, hmac_b64("api-secret-1", &canonical));
}

#[test]
fn invalid_api_key_is_a_signing_error() {
    let k = Kucoin::new(
        "bad\nkey".to_string(),
        "s".to_string(),
        "p".to_string(),
        "https://api.example.com".to_string(),
    );
    let r = k.create_headers_at(TradeType::Balance, "", 1);
    assert_eq!(r.unwrap_err(), KucoinError::Signing);
}

#[test]
fn decimal_rendering() {
    assert_eq!(u64_to_dec(0).as_str(), "0");
    assert_eq!(u64_to_dec(7).as_str(), "7");
    assert_eq!(u64_to_dec(1234567890).as_str(), "1234567890");
    assert_eq!(u64_to_dec(u64::MAX).as_str(), "18446744073709551615");
    assert_eq!(i64_to_dec(1700000000000).as_str(), "1700000000000");
    assert_eq!(i64_to_dec(-42).as_str(), "-42");
    assert_eq!(i64_to_dec(i64::MIN).as_str(), "-9223372036854775808");
}
