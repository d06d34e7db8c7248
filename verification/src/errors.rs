use vstd::prelude::*;

verus! {

/// The failures the bridge reports to its host.
///
/// Translation-layer failures (`MissingField`, `InvalidArgument`,
/// `NotFound`) are detected before any asynchronous work starts; the
/// remaining kinds carry the underlying cause chain as text, since the
/// host receives messages rather than structured codes.
#[derive(Debug, Clone, PartialEq, Eq)]
pub enum BridgeError {
    /// The required `url` field was absent or not a string.
    MissingField,
    /// Data handed to `send` was neither text nor binary.
    InvalidArgument,
    /// DNS, connect, TLS, timeout or protocol failure during a request
    /// or a handshake.
    NetworkError(String),
    /// The referenced connection handle is no longer in the registry
    /// (already closed, or never existed).
    NotFound,
    /// Transport-level failure while writing to a session.
    SendError(String),
    /// Transport-level failure while tearing down a session.
    CloseError(String),
}

/// The message text of an error, as the host sees it.
pub open spec fn spec_describe(e: BridgeError) -> Seq<char> {
    match e {
        BridgeError::MissingField => "missing required field: url"@,
        BridgeError::InvalidArgument => "data must be text or binary"@,
        BridgeError::NetworkError(chain) => "network error: "@ + chain@,
        BridgeError::NotFound => "connection not found"@,
        BridgeError::SendError(chain) => "send failed: "@ + chain@,
        BridgeError::CloseError(chain) => "close failed: "@ + chain@,
    }
}

impl BridgeError {
    /// The human-readable message delivered with a rejected outcome.
    pub fn describe(&self) -> (r: String)
        ensures
            r@ == spec_describe(*self),
    {
        match self {
            BridgeError::MissingField => "missing required field: url".to_owned(),
            BridgeError::InvalidArgument => "data must be text or binary".to_owned(),
            BridgeError::NetworkError(chain) => "network error: ".to_owned().concat(
                chain.as_str(),
            ),
            BridgeError::NotFound => "connection not found".to_owned(),
            BridgeError::SendError(chain) => "send failed: ".to_owned().concat(chain.as_str()),
            BridgeError::CloseError(chain) => "close failed: ".to_owned().concat(chain.as_str()),
        }
    }
}

} // verus!
