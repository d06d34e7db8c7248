use vstd::prelude::*;
use crate::errors::BridgeError;
use crate::response::{Response, translate_response, spec_cookie_map};
use crate::strmap::assoc_map;

verus! {

/// The wire-level answer of the protocol engine, as plain values:
/// status, final url after redirects, the ordered header list as
/// received, and the body text.
#[derive(Debug, Clone)]
pub struct WireResponse {
    pub status: u16,
    pub url: String,
    pub headers: Vec<(String, String)>,
    pub body: String,
}

/// What one HTTP exchange on its worker came to: the wire-level
/// answer, expiry of the configured timeout, or any other failure with
/// its cause chain. The worker always settles on one of these — the
/// timeout bounds how long an exchange may stay in flight.
#[derive(Debug, Clone)]
pub enum ExchangeOutcome {
    Completed(WireResponse),
    TimedOut,
    Failed(String),
}

/// The message a timed-out exchange reports.
pub open spec fn spec_timeout_message() -> Seq<char> {
    "request timed out"@
}

/// Settles one exchange: a completed answer is translated into the
/// structured response; timeout expiry and every other failure surface
/// as a network error carrying the cause as text — never as a hang.
pub fn conclude_request(outcome: ExchangeOutcome) -> (r: Result<Response, BridgeError>)
    ensures
        match outcome {
            ExchangeOutcome::Completed(w) => {
                &&& r is Ok
                &&& r->Ok_0.wf()
                &&& r->Ok_0.status == w.status
                &&& r->Ok_0.url@ == w.url@
                &&& r->Ok_0.body@ == w.body@
                &&& r->Ok_0.headers@ == assoc_map(w.headers.deep_view())
                &&& r->Ok_0.cookies@ == spec_cookie_map(w.headers.deep_view())
            },
            ExchangeOutcome::TimedOut => {
                &&& r is Err
                &&& r->Err_0 matches BridgeError::NetworkError(m) && m@ == spec_timeout_message()
            },
            ExchangeOutcome::Failed(m) => r == Err::<Response, BridgeError>(
                BridgeError::NetworkError(m),
            ),
        },
{
    match outcome {
        ExchangeOutcome::Completed(w) => Ok(
            translate_response(w.status, w.url, &w.headers, w.body),
        ),
        ExchangeOutcome::TimedOut => Err(BridgeError::NetworkError("request timed out".to_owned())),
        ExchangeOutcome::Failed(m) => Err(BridgeError::NetworkError(m)),
    }
}

} // verus!
