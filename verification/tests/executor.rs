use embridge::errors::BridgeError;
use embridge::executor::{conclude_request, ExchangeOutcome, WireResponse};
use embridge::registry::ConnectionRegistry;
use embridge::session::{conclude_connect, HandshakeOutcome};

#[test]
fn timeout_surfaces_as_network_error() {
    match conclude_request(ExchangeOutcome::TimedOut) {
        Err(BridgeError::NetworkError(m)) => assert_eq!(m, "request timed out"),
        other => panic!("unexpected outcome: {:?}", other),
    }
}

#[test]
fn failure_carries_its_cause_chain() {
    let outcome = ExchangeOutcome::Failed("dns error: name not found".to_owned());
    match conclude_request(outcome) {
        Err(e) => assert_eq!(e, BridgeError::NetworkError("dns error: name not found".to_owned())),
        Ok(_) => panic!("a failed exchange must not produce a response"),
    }
}

#[test]
fn completed_exchange_translates_to_the_structured_response() {
    let wire = WireResponse {
        status: 200,
        url: "https://example.test/landed".to_owned(),
        headers: vec![
            ("server".to_owned(), "demo".to_owned()),
            ("set-cookie".to_owned(), "sid=xyz".to_owned()),
        ],
        body: "payload".to_owned(),
    };
    let resp = conclude_request(ExchangeOutcome::Completed(wire)).unwrap();
    assert_eq!(resp.status, 200);
    assert_eq!(resp.url, "https://example.test/landed");
    assert_eq!(resp.body, "payload");
    assert_eq!(resp.headers.get("server").map(|s| s.as_str()), Some("demo"));
    assert_eq!(resp.cookies.get("sid").map(|s| s.as_str()), Some("xyz"));
}

#[test]
fn established_handshake_enters_the_registry() {
    let mut reg: ConnectionRegistry<&str> = ConnectionRegistry::new();
    let h1 = conclude_connect(&mut reg, HandshakeOutcome::Established("one")).unwrap();
    let h2 = conclude_connect(&mut reg, HandshakeOutcome::Established("two")).unwrap();
    assert_ne!(h1, h2);
    assert_eq!(reg.get_connection(h1), Some(&"one"));
    assert_eq!(reg.get_connection(h2), Some(&"two"));
}

#[test]
fn failed_handshake_is_a_network_error_and_stores_nothing() {
    let mut reg: ConnectionRegistry<&str> = ConnectionRegistry::new();
    let r = conclude_connect(&mut reg, HandshakeOutcome::HandshakeFailed("tls failure".to_owned()));
    assert_eq!(r, Err(BridgeError::NetworkError("tls failure".to_owned())));
    assert_eq!(reg.get_connection(0), None);
}
