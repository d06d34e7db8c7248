//! A bridge between a non-blocking host environment and a network client
//! that emulates the TLS/HTTP fingerprint of a named browser profile.
//!
//! The library holds the bridge's logic: resolving emulation profiles,
//! translating loosely-typed request descriptions into typed records,
//! translating responses back into the host-consumable shape, the
//! process-wide connection registry, and the per-connection decision
//! rules of the message pump and callback dispatch. The surrounding
//! process plumbing (foreign-call marshalling, the asynchronous runtime,
//! the protocol engine itself) stays outside.

pub mod dispatch;
pub mod errors;
pub mod executor;
pub mod options;
pub mod profiles;
pub mod pump;
pub mod registry;
pub mod response;
pub mod session;
pub mod strmap;
pub mod text;
