use vstd::prelude::*;
use crate::errors::BridgeError;
use crate::registry::ConnectionRegistry;

verus! {

/// One unit of data a caller may send on a session: text or binary.
#[derive(Debug, Clone, PartialEq, Eq)]
pub enum WsPayload {
    Text(String),
    Binary(Vec<u8>),
}

/// The send argument as handed over the foreign-call boundary: text,
/// binary, or any other host shape.
#[derive(Debug, Clone)]
pub enum SendInput {
    Text(String),
    Binary(Vec<u8>),
    Other,
}

/// What `send` decides for a handle and a data argument: an absent
/// handle is rejected first; then a data shape that is neither text
/// nor binary; otherwise the payload goes to the session.
pub open spec fn spec_send_decision<T>(m: Map<u64, T>, handle: u64, data: SendInput) -> Result<
    WsPayload,
    BridgeError,
> {
    if !m.contains_key(handle) {
        Err(BridgeError::NotFound)
    } else {
        match data {
            SendInput::Text(t) => Ok(WsPayload::Text(t)),
            SendInput::Binary(b) => Ok(WsPayload::Binary(b)),
            SendInput::Other => Err(BridgeError::InvalidArgument),
        }
    }
}

/// What `close` decides for a handle: closing an absent handle is
/// rejected; a live one proceeds.
pub open spec fn spec_close_decision<T>(m: Map<u64, T>, handle: u64) -> Result<(), BridgeError> {
    if m.contains_key(handle) {
        Ok(())
    } else {
        Err(BridgeError::NotFound)
    }
}

/// The synchronous part of `send`: looks the handle up and checks the
/// data shape; on success hands back the live entry together with the
/// typed payload for the transport to write.
pub fn prepare_send<'a, T>(reg: &'a ConnectionRegistry<T>, handle: u64, data: SendInput) -> (r:
    Result<(&'a T, WsPayload), BridgeError>)
    ensures
        match r {
            Ok(p) => {
                &&& spec_send_decision(reg@, handle, data) == Ok::<WsPayload, BridgeError>(p.1)
                &&& reg@.contains_key(handle)
                &&& *p.0 == reg@[handle]
            },
            Err(e) => spec_send_decision(reg@, handle, data) == Err::<WsPayload, BridgeError>(e),
        },
{
    let entry = match reg.get_connection(handle) {
        Some(entry) => entry,
        None => {
            return Err(BridgeError::NotFound);
        },
    };
    match data {
        SendInput::Text(t) => Ok((entry, WsPayload::Text(t))),
        SendInput::Binary(b) => Ok((entry, WsPayload::Binary(b))),
        SendInput::Other => Err(BridgeError::InvalidArgument),
    }
}

/// The synchronous part of `close`: takes the handle out of the
/// registry — unconditionally, so the removal stands whatever the
/// close attempt later comes to — and hands the entry to the caller
/// for tear-down, or rejects an absent handle.
pub fn begin_close<T>(reg: &mut ConnectionRegistry<T>, handle: u64) -> (r: Result<T, BridgeError>)
    requires
        old(reg).wf(),
    ensures
        final(reg).wf(),
        final(reg)@ == old(reg)@.remove(handle),
        final(reg).spec_next() == old(reg).spec_next(),
        match r {
            Ok(entry) => {
                &&& spec_close_decision(old(reg)@, handle) == Ok::<(), BridgeError>(())
                &&& entry == old(reg)@[handle]
            },
            Err(e) => spec_close_decision(old(reg)@, handle) == Err::<(), BridgeError>(e),
        },
{
    match reg.take_connection(handle) {
        Some(entry) => Ok(entry),
        None => Err(BridgeError::NotFound),
    }
}

/// What one handshake on the worker came to: a session entry ready for
/// the registry, or a failure with its cause chain.
#[derive(Debug)]
pub enum HandshakeOutcome<T> {
    Established(T),
    HandshakeFailed(String),
}

/// Settles one connect: an established session goes into the registry
/// under a fresh handle, which the caller may use at once; a failed
/// handshake surfaces as a network error and leaves the registry
/// untouched.
pub fn conclude_connect<T>(reg: &mut ConnectionRegistry<T>, outcome: HandshakeOutcome<T>) -> (r:
    Result<u64, BridgeError>)
    requires
        old(reg).wf(),
        old(reg).spec_next() < u64::MAX,
    ensures
        final(reg).wf(),
        match outcome {
            HandshakeOutcome::Established(entry) => {
                &&& r is Ok
                &&& r->Ok_0 == old(reg).spec_next()
                &&& !old(reg)@.contains_key(r->Ok_0)
                &&& final(reg)@ == old(reg)@.insert(r->Ok_0, entry)
                &&& final(reg).spec_next() == r->Ok_0 + 1
            },
            HandshakeOutcome::HandshakeFailed(m) => {
                &&& r == Err::<u64, BridgeError>(BridgeError::NetworkError(m))
                &&& final(reg)@ == old(reg)@
                &&& final(reg).spec_next() == old(reg).spec_next()
            },
        },
{
    match outcome {
        HandshakeOutcome::Established(entry) => Ok(reg.store_connection(entry)),
        HandshakeOutcome::HandshakeFailed(m) => Err(BridgeError::NetworkError(m)),
    }
}

/// Once a close has removed a handle, any later send or close on that
/// handle is rejected with `NotFound`, whatever data is offered.
pub proof fn lemma_closed_handle_rejected<T>(m: Map<u64, T>, handle: u64, data: SendInput)
    ensures
        spec_send_decision(m.remove(handle), handle, data) == Err::<WsPayload, BridgeError>(
            BridgeError::NotFound,
        ),
        spec_close_decision(m.remove(handle), handle) == Err::<(), BridgeError>(
            BridgeError::NotFound,
        ),
{
}

} // verus!
