use embridge::errors::BridgeError;

#[test]
fn every_error_kind_describes_itself() {
    assert_eq!(BridgeError::MissingField.describe(), "missing required field: url");
    assert_eq!(BridgeError::InvalidArgument.describe(), "data must be text or binary");
    assert_eq!(BridgeError::NotFound.describe(), "connection not found");
    assert_eq!(
        BridgeError::NetworkError("tls handshake failed".to_owned()).describe(),
        "network error: tls handshake failed",
    );
    assert_eq!(
        BridgeError::SendError("broken pipe".to_owned()).describe(),
        "send failed: broken pipe",
    );
    assert_eq!(
        BridgeError::CloseError("already closed".to_owned()).describe(),
        "close failed: already closed",
    );
}
