use embridge::errors::BridgeError;
use embridge::registry::ConnectionRegistry;
use embridge::session::{begin_close, prepare_send, SendInput, WsPayload};

#[test]
fn store_then_get_yields_the_entry() {
    let mut reg: ConnectionRegistry<&str> = ConnectionRegistry::new();
    let h = reg.store_connection("session-a");
    assert_eq!(reg.get_connection(h), Some(&"session-a"));
    assert_eq!(reg.get_connection(h + 1), None);
}

#[test]
fn concurrent_connects_get_distinct_handles() {
    let mut reg: ConnectionRegistry<&str> = ConnectionRegistry::new();
    let h1 = reg.store_connection("first");
    let h2 = reg.store_connection("second");
    assert_ne!(h1, h2);
    assert_eq!(reg.get_connection(h1), Some(&"first"));
    assert_eq!(reg.get_connection(h2), Some(&"second"));
}

#[test]
fn remove_is_idempotent() {
    let mut reg: ConnectionRegistry<u32> = ConnectionRegistry::new();
    let h = reg.store_connection(7);
    assert!(reg.remove_connection(h));
    assert!(!reg.remove_connection(h));
    assert_eq!(reg.get_connection(h), None);
}

#[test]
fn close_then_send_rejects_with_not_found() {
    let mut reg: ConnectionRegistry<&str> = ConnectionRegistry::new();
    let h = reg.store_connection("live");
    assert_eq!(begin_close(&mut reg, h), Ok("live"));
    let again = prepare_send(&reg, h, SendInput::Text("hello".to_owned()));
    assert_eq!(again, Err(BridgeError::NotFound));
    assert_eq!(begin_close(&mut reg, h), Err(BridgeError::NotFound));
}

#[test]
fn send_on_live_handle_hands_back_payload() {
    let mut reg: ConnectionRegistry<&str> = ConnectionRegistry::new();
    let h = reg.store_connection("live");
    match prepare_send(&reg, h, SendInput::Text("hello".to_owned())) {
        Ok((entry, payload)) => {
            assert_eq!(*entry, "live");
            assert_eq!(payload, WsPayload::Text("hello".to_owned()));
        },
        Err(e) => panic!("send was rejected: {:?}", e),
    }
    match prepare_send(&reg, h, SendInput::Binary(vec![1, 2, 3])) {
        Ok((_, payload)) => assert_eq!(payload, WsPayload::Binary(vec![1, 2, 3])),
        Err(e) => panic!("send was rejected: {:?}", e),
    }
}

#[test]
fn send_with_wrong_shape_is_invalid_argument() {
    let mut reg: ConnectionRegistry<&str> = ConnectionRegistry::new();
    let h = reg.store_connection("live");
    assert_eq!(prepare_send(&reg, h, SendInput::Other), Err(BridgeError::InvalidArgument));
    // an absent handle is reported first, whatever the data shape
    assert_eq!(prepare_send(&reg, h + 1, SendInput::Other), Err(BridgeError::NotFound));
}
