use aurelius::handshake::{classify, demand_in, is_websocket_upgrade, Demand};
use hyper::header::{HeaderMap, HeaderName, HeaderValue};

fn headers(fields: &[(&str, &str)]) -> HeaderMap<HeaderValue> {
    let mut headers = HeaderMap::new();
    for (name, value) in fields {
        headers.append(
            HeaderName::from_bytes(name.as_bytes()).unwrap(),
            HeaderValue::from_str(value).unwrap(),
        );
    }
    headers
}

fn bytes(text: &str) -> Option<Vec<u8>> {
    Some(text.as_bytes().to_vec())
}

#[test]
fn upgrade_to_the_letter() {
    assert!(is_websocket_upgrade(&headers(&[
        ("Connection", "Upgrade"),
        ("Upgrade", "websocket"),
    ])));
}

#[test]
fn other_values_are_no_upgrade() {
    assert!(!is_websocket_upgrade(&headers(&[])));
    assert!(!is_websocket_upgrade(&headers(&[("Connection", "Upgrade")])));
    assert!(!is_websocket_upgrade(&headers(&[("Upgrade", "websocket")])));
    assert!(!is_websocket_upgrade(&headers(&[
        ("Connection", "upgrade"),
        ("Upgrade", "websocket"),
    ])));
    assert!(!is_websocket_upgrade(&headers(&[
        ("Connection", "keep-alive, Upgrade"),
        ("Upgrade", "websocket"),
    ])));
    assert!(!is_websocket_upgrade(&headers(&[
        ("Connection", "Upgrade"),
        ("Upgrade", "WebSocket"),
    ])));
}

#[test]
fn the_first_value_counts() {
    assert!(is_websocket_upgrade(&headers(&[
        ("Connection", "Upgrade"),
        ("Connection", "keep-alive"),
        ("Upgrade", "websocket"),
    ])));
    assert!(!is_websocket_upgrade(&headers(&[
        ("Connection", "keep-alive"),
        ("Connection", "Upgrade"),
        ("Upgrade", "websocket"),
    ])));
}

#[test]
fn names_of_headers_in_any_case() {
    let asked = demand_in(&headers(&[
        ("CONNECTION", "Upgrade"),
        ("upgrade", "websocket"),
        ("sec-webSocket-KEY", "key"),
    ]));
    assert!(matches!(asked, Demand::Upgrade(key) if key == b"key"));
}

#[test]
fn handshake_without_key() {
    let asked = demand_in(&headers(&[("Connection", "Upgrade"), ("Upgrade", "websocket")]));
    assert!(matches!(asked, Demand::UpgradeWithoutKey));
}

#[test]
fn a_key_alone_is_no_handshake() {
    let fields = headers(&[("Sec-WebSocket-Key", "key")]);
    assert!(matches!(demand_in(&fields), Demand::Page));
    assert!(!is_websocket_upgrade(&fields));
}

#[test]
fn demands_of_plain_values() {
    let asked = classify(bytes("Upgrade"), bytes("websocket"), bytes("k"));
    assert!(matches!(asked, Demand::Upgrade(key) if key == b"k"));
    let asked = classify(bytes("Upgrade"), bytes("websocket"), bytes(""));
    assert!(matches!(asked, Demand::Upgrade(key) if key.is_empty()));
    assert!(matches!(
        classify(bytes("Upgrade"), bytes("websocket"), None),
        Demand::UpgradeWithoutKey
    ));
    assert!(matches!(classify(bytes("Upgrade"), bytes("websockets"), bytes("k")), Demand::Page));
    assert!(matches!(classify(bytes("Upgrad"), bytes("websocket"), bytes("k")), Demand::Page));
    assert!(matches!(classify(None, bytes("websocket"), bytes("k")), Demand::Page));
    assert!(matches!(classify(bytes("Upgrade"), None, bytes("k")), Demand::Page));
}
