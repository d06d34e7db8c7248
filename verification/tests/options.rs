use embridge::errors::BridgeError;
use embridge::options::{translate_request, translate_websocket, RawOptions, RawValue};
use embridge::profiles::EmulationProfile;

fn empty_raw() -> RawOptions {
    RawOptions {
        url: None,
        browser: None,
        method: None,
        headers: None,
        body: None,
        proxy: None,
        timeout: None,
    }
}

#[test]
fn defaults_applied_when_fields_omitted() {
    let mut raw = empty_raw();
    raw.url = Some(RawValue::Text("https://example.test".to_owned()));
    let opts = translate_request(raw).unwrap();
    assert_eq!(opts.url, "https://example.test");
    assert_eq!(opts.method, "GET");
    assert_eq!(opts.headers.len(), 0);
    assert_eq!(opts.timeout_ms, 30000);
    assert_eq!(opts.profile, EmulationProfile::Chrome137);
    assert!(opts.body.is_none());
    assert!(opts.proxy.is_none());
}

#[test]
fn missing_url_is_rejected_synchronously() {
    let raw = empty_raw();
    assert!(matches!(translate_request(raw), Err(BridgeError::MissingField)));
}

#[test]
fn wrong_typed_url_is_rejected() {
    let mut raw = empty_raw();
    raw.url = Some(RawValue::Number(5));
    assert!(matches!(translate_request(raw), Err(BridgeError::MissingField)));
}

#[test]
fn wrong_typed_optional_fields_fall_back_to_defaults() {
    let mut raw = empty_raw();
    raw.url = Some(RawValue::Text("https://example.test".to_owned()));
    raw.method = Some(RawValue::Number(3));
    raw.timeout = Some(RawValue::Text("soon".to_owned()));
    raw.browser = Some(RawValue::Other);
    raw.body = Some(RawValue::Number(1));
    let opts = translate_request(raw).unwrap();
    assert_eq!(opts.method, "GET");
    assert_eq!(opts.timeout_ms, 30000);
    assert_eq!(opts.profile, EmulationProfile::Chrome137);
    assert!(opts.body.is_none());
}

#[test]
fn explicit_fields_pass_through() {
    let mut raw = empty_raw();
    raw.url = Some(RawValue::Text("https://example.test/a".to_owned()));
    raw.browser = Some(RawValue::Text("firefox_128".to_owned()));
    raw.method = Some(RawValue::Text("POST".to_owned()));
    raw.body = Some(RawValue::Text("{}".to_owned()));
    raw.proxy = Some(RawValue::Text("http://proxy:8080".to_owned()));
    raw.timeout = Some(RawValue::Number(5000));
    let opts = translate_request(raw).unwrap();
    assert_eq!(opts.profile, EmulationProfile::Firefox128);
    assert_eq!(opts.method, "POST");
    assert_eq!(opts.body.as_deref(), Some("{}"));
    assert_eq!(opts.proxy.as_deref(), Some("http://proxy:8080"));
    assert_eq!(opts.timeout_ms, 5000);
}

#[test]
fn header_entries_collected_with_overwrite() {
    let mut raw = empty_raw();
    raw.url = Some(RawValue::Text("https://example.test".to_owned()));
    raw.headers = Some(RawValue::Entries(vec![
        ("accept".to_owned(), "text/html".to_owned()),
        ("x-token".to_owned(), "one".to_owned()),
        ("x-token".to_owned(), "two".to_owned()),
    ]));
    let opts = translate_request(raw).unwrap();
    assert_eq!(opts.headers.len(), 2);
    assert_eq!(opts.headers.get("accept").map(|s| s.as_str()), Some("text/html"));
    assert_eq!(opts.headers.get("x-token").map(|s| s.as_str()), Some("two"));
}

#[test]
fn websocket_translation_takes_the_handshake_subset() {
    let mut raw = empty_raw();
    raw.url = Some(RawValue::Text("wss://example.test/ws".to_owned()));
    raw.browser = Some(RawValue::Text("okhttp_5".to_owned()));
    raw.headers = Some(RawValue::Entries(vec![("origin".to_owned(), "example".to_owned())]));
    let opts = translate_websocket(raw).unwrap();
    assert_eq!(opts.url, "wss://example.test/ws");
    assert_eq!(opts.profile, EmulationProfile::OkHttp5);
    assert_eq!(opts.headers.get("origin").map(|s| s.as_str()), Some("example"));
    assert!(opts.proxy.is_none());
}

#[test]
fn websocket_translation_rejects_missing_url() {
    let raw = empty_raw();
    assert!(matches!(translate_websocket(raw), Err(BridgeError::MissingField)));
}
