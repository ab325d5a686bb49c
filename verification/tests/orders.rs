use base64::Engine;
use kucoin_trader::kucoin_client::{Kucoin, KucoinError, OrderType};

fn hmac_b64(key: &str, msg: &str) -> String {
    let k = ring::hmac::Key::new(ring::hmac::HMAC_SHA256, key.as_bytes());
    base64::engine::general_purpose::STANDARD
        .encode(ring::hmac::sign(&k, msg.as_bytes()).as_ref())
}

fn session() -> Kucoin {
    Kucoin::new(
        "api-key-1".to_string(),
        "api-secret-1".to_string(),
        "passphrase-1".to_string(),
        "https://api.example.com".to_string(),
    )
}

#[test]
fn both_size_and_funds_is_a_contract_error() {
    let k = session();
    let r = k.create_market_order("ABC", OrderType::Buy, "5", "10");
    assert_eq!(r.unwrap_err(), KucoinError::Contract);
}

#[test]
fn neither_size_nor_funds_is_a_contract_error() {
    let k = session();
    let r = k.create_market_order("ABC", OrderType::Buy, "", "");
    assert_eq!(r.unwrap_err(), KucoinError::Contract);
}

#[test]
fn exactly_one_of_size_and_funds_is_accepted() {
    let k = session();
    assert!(k.create_market_order("ABC", OrderType::Buy, "5", "").is_ok());
    assert!(k.create_market_order("ABC", OrderType::Buy, "", "10").is_ok());
}

#[test]
fn order_body_is_the_exact_signed_json() {
    let k = session();
    let p = k
        .create_market_order("ABC", OrderType::Buy, "", "15")
        .unwrap();
    assert_eq!(p.params.side.as_str(), "buy");
    assert_eq!(p.params.symbol.as_str(), "ABC-USDT");
    assert_eq!(p.params.typ.as_str(), "market");
    assert_eq!(p.params.trade_type.as_str(), "TRADE");
    assert_eq!(p.params.funds.as_str(), "15");
    assert_eq!(p.params.size.as_str(), "");
    assert_eq!(p.path.as_str(), "/api/v1/orders");
    let expected_body = format!(
        "{{\"clientOid\":\"{}\",\"side\":\"buy\",\"symbol\":\"ABC-USDT\",\"type\":\"market\",\"tradeType\":\"TRADE\",\"funds\":\"15\",\"size\":\"\"}}",
        p.params.client_oid
    );
    assert_eq!(p.body, expected_body);
}

#[test]
fn order_is_signed_over_its_own_body_and_timestamp() {
    let k = session();
    let p = k
        .create_market_order("XYZ", OrderType::Sell, "3", "")
        .unwrap();
    assert_eq!(p.params.side.as_str(), "sell");
    let canonical = format!("{}POST/api/v1/orders{}", p.headers.timestamp, p.body);
    assert_eq!(p.headers.sign, hmac_b64("api-secret-1", &canonical));
    assert_eq!(p.headers.key.as_str(), "api-key-1");
    assert_eq!(p.headers.key_version.as_str(), "2");
}

#[test]
fn client_order_id_has_uuid_shape() {
    let k = session();
    let p = k
        .create_market_order("ABC", OrderType::Buy, "", "1")
        .unwrap();
    let oid = p.params.client_oid.as_str();
    assert_eq!(oid.len(), 36);
    assert!(oid
        .chars()
        .all(|c| c.is_ascii_hexdigit() || c == '-'));
}

#[test]
fn client_order_ids_are_fresh_per_order() {
    let k = session();
    let a = k
        .create_market_order("ABC", OrderType::Buy, "", "1")
        .unwrap();
    let b = k
        .create_market_order("ABC", OrderType::Buy, "", "1")
        .unwrap();
    assert_ne!(a.params.client_oid, b.params.client_oid);
}

#[test]
fn token_that_cannot_sit_in_json_is_a_contract_error() {
    let k = session();
    let r = k.create_market_order("A\"B", OrderType::Buy, "", "1");
    assert_eq!(r.unwrap_err(), KucoinError::Contract);
}

#[test]
fn invalid_api_key_is_a_signing_error_for_orders() {
    let k = Kucoin::new(
        "bad\nkey".to_string(),
        "s".to_string(),
        "p".to_string(),
        "https://api.example.com".to_string(),
    );
    let r = k.create_market_order("ABC", OrderType::Buy, "", "1");
    assert_eq!(r.unwrap_err(), KucoinError::Signing);
}
