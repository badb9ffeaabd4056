use hyperion_adco::brokers::bitget::{
    available_balance, balance_outcome, balance_path, instrument_id, order_outcome, order_side, place_order_body, BitgetCredentials,
    OrderError, BASE_URL, PLACE_ORDER_PATH,
};
use hyperion_adco::types::Action;

fn creds(secret: &str) -> BitgetCredentials {
    BitgetCredentials::new("key".to_string(), secret.to_string(), "pass".to_string())
}

#[test]
fn instrument_ids_drop_slashes() {
    assert_eq!(instrument_id("BTC/USDT"), "BTCUSDT");
    assert_eq!(instrument_id("BTCUSDT"), "BTCUSDT");
    assert_eq!(instrument_id("/A//B/"), "AB");
    assert_eq!(instrument_id(""), "");
    assert_eq!(instrument_id("é/ü"), "éü");
}

#[test]
fn order_sides() {
    assert_eq!(order_side(Action::Buy), Ok("buy"));
    assert_eq!(order_side(Action::Sell), Ok("sell"));
    assert_eq!(order_side(Action::Flat), Err(OrderError::FlatOrder));
}

#[test]
fn order_body_is_exact() {
    let body = place_order_body(Action::Buy, "BTC/USDT", "0.5").unwrap();
    assert_eq!(
        body,
        r#"{"symbol":"BTCUSDT","marginCoin":"USDT","side":"buy","orderType":"market","size":"0.5"}"#
    );
    let body = place_order_body(Action::Sell, "ETHUSDT", "12").unwrap();
    assert_eq!(
        body,
        r#"{"symbol":"ETHUSDT","marginCoin":"USDT","side":"sell","orderType":"market","size":"12"}"#
    );
    assert_eq!(place_order_body(Action::Flat, "ETHUSDT", "12"), Err(OrderError::FlatOrder));
}

#[test]
fn balance_paths() {
    assert_eq!(balance_path("BTC"), "/api/v2/mix/account/account?symbol=BTCUSDT&marginCoin=USDT");
}

#[test]
fn order_outcomes() {
    assert_eq!(order_outcome(true, "200 OK", "{\"code\":\"00000\"}"), Ok("BITGET-SUCCESS-{\"code\":\"00000\"}".to_string()));
    assert_eq!(
        order_outcome(false, "400 Bad Request", "bad"),
        Err("Bitget Order Error: 400 Bad Request - bad".to_string())
    );
}

#[test]
fn credentials_point_at_bitget() {
    let c = creds("s");
    assert_eq!(c.base_url, "https://api.bitget.com");
    assert_eq!(BASE_URL, "https://api.bitget.com");
    assert_eq!(c.api_key, "key");
    assert_eq!(c.passphrase, "pass");
    assert_eq!(c.url(PLACE_ORDER_PATH), "https://api.bitget.com/api/v2/mix/order/place-order");
}

#[test]
fn signature_of_order_request() {
    let c = creds("my-secret");
    let body = r#"{"symbol":"BTCUSDT","marginCoin":"USDT","side":"buy","orderType":"market","size":"0.5"}"#;
    let sig = c.generate_signature("1700000000000", "POST", PLACE_ORDER_PATH, body);
    assert_eq!(sig, "iTh+bUkFoFeSRWtS9CQLCM4pQnPD4ST6x/OaO0AlbDA=");
}

#[test]
fn signature_known_vector() {
    let c = creds("key");
    let sig = c.generate_signature("The quick ", "brown fox ", "jumps over ", "the lazy dog");
    assert_eq!(sig, "97yD9DBThCSxMpjmqm+xQ+9NWaFJRhdZl0edvC0aPNg=");
}

#[test]
fn signature_uses_utf8_secret() {
    let c = creds("sécret");
    assert_eq!(c.generate_signature("1", "GET", "/x", ""), "Z36RTLLrVKe+IYMPo2HG/LIvtaWqU6WWzFu3MSZikVc=");
}

#[test]
fn available_balances() {
    assert_eq!(
        available_balance(r#"{"code":"00000","data":{"available":"1234.5"}}"#),
        Some(Some("1234.5".to_string()))
    );
    assert_eq!(available_balance(r#"{"data":{"available":1234.5}}"#), Some(None));
    assert_eq!(available_balance(r#"{"data":[]}"#), Some(None));
    assert_eq!(available_balance("<html>"), None);
}

#[test]
fn signed_request_headers() {
    let c = creds("s");
    let h = c.request_headers("1700", "SIG", true);
    let expected: Vec<(String, String)> = vec![
        ("ACCESS-KEY".into(), "key".into()),
        ("ACCESS-SIGN".into(), "SIG".into()),
        ("ACCESS-TIMESTAMP".into(), "1700".into()),
        ("ACCESS-PASSPHRASE".into(), "pass".into()),
        ("Content-Type".into(), "application/json".into()),
    ];
    assert_eq!(h, expected);
    assert_eq!(c.request_headers("1700", "SIG", false), expected[..4].to_vec());
}

#[test]
fn balance_outcomes() {
    assert_eq!(
        balance_outcome(true, "200 OK", r#"{"data":{"available":"10.5"}}"#),
        Ok(Some("10.5".to_string()))
    );
    assert_eq!(balance_outcome(true, "200 OK", r#"{"data":{}}"#), Ok(None));
    assert_eq!(
        balance_outcome(true, "200 OK", "oops"),
        Err("error decoding response body".to_string())
    );
    assert_eq!(
        balance_outcome(false, "401 Unauthorized", r#"{"data":{"available":"10.5"}}"#),
        Err("Bitget Balance Error: 401 Unauthorized".to_string())
    );
}
