use vstd::prelude::*;
use crate::errors::BridgeError;
use crate::profiles::{EmulationProfile, resolve_spec, default_profile, parse_emulation};
use crate::strmap::{StrMap, assoc_map};

verus! {

/// The default timeout for one HTTP exchange, in milliseconds.
pub const DEFAULT_TIMEOUT_MS: u64 = 30000;

/// One loosely-typed field of the host's request description, as handed
/// over the foreign-call boundary.
#[derive(Debug, Clone)]
pub enum RawValue {
    /// A host string.
    Text(String),
    /// A host number, truncated to an unsigned integer.
    Number(u64),
    /// A host object, flattened to its string-valued properties in
    /// property order.
    Entries(Vec<(String, String)>),
    /// Any other host shape.
    Other,
}

/// The host's request description: each field either absent or a
/// loosely-typed value. A wrong-typed optional field counts as absent
/// rather than failing, to tolerate heterogeneous caller input.
#[derive(Debug, Clone)]
pub struct RawOptions {
    pub url: Option<RawValue>,
    pub browser: Option<RawValue>,
    pub method: Option<RawValue>,
    pub headers: Option<RawValue>,
    pub body: Option<RawValue>,
    pub proxy: Option<RawValue>,
    pub timeout: Option<RawValue>,
}

/// A fully-typed request record with every default applied. Always
/// fully constructible once a url is present.
#[derive(Debug, Clone)]
pub struct RequestOptions {
    pub url: String,
    pub profile: EmulationProfile,
    pub method: String,
    pub headers: StrMap,
    pub body: Option<String>,
    pub proxy: Option<String>,
    pub timeout_ms: u64,
}

/// The handshake-only subset for opening a WebSocket session: no
/// method, body or timeout, since none is meaningful for a persistent
/// connection.
#[derive(Debug, Clone)]
pub struct WebSocketOptions {
    pub url: String,
    pub profile: EmulationProfile,
    pub headers: StrMap,
    pub proxy: Option<String>,
}

/// The text a field holds, when it holds a string; a wrong-typed field
/// counts as absent.
pub open spec fn text_of(f: Option<RawValue>) -> Option<Seq<char>> {
    match f {
        Some(RawValue::Text(s)) => Some(s@),
        _ => None,
    }
}

/// The effective profile: the named one, or the default when the field
/// is absent or wrong-typed.
pub open spec fn eff_profile(f: Option<RawValue>) -> EmulationProfile {
    match text_of(f) {
        Some(b) => resolve_spec(b),
        None => default_profile(),
    }
}

/// The effective method: as given, or "GET".
pub open spec fn eff_method(f: Option<RawValue>) -> Seq<char> {
    match text_of(f) {
        Some(m) => m,
        None => "GET"@,
    }
}

/// The effective header mapping: the object's string properties with
/// later duplicates overwriting, or empty.
pub open spec fn eff_headers(f: Option<RawValue>) -> Map<Seq<char>, Seq<char>> {
    match f {
        Some(RawValue::Entries(es)) => assoc_map(es.deep_view()),
        _ => Map::empty(),
    }
}

/// The effective timeout: as given, or the default.
pub open spec fn eff_timeout(f: Option<RawValue>) -> u64 {
    match f {
        Some(RawValue::Number(t)) => t,
        _ => DEFAULT_TIMEOUT_MS,
    }
}

/// The header mapping a raw field denotes, as an executable mapping.
fn headers_from_raw(f: &Option<RawValue>) -> (r: StrMap)
    ensures
        r.wf(),
        r@ == eff_headers(*f),
        !(f matches Some(RawValue::Entries(_))) ==> r.spec_keys() == Seq::<Seq<char>>::empty(),
{
    match f {
        Some(RawValue::Entries(es)) => StrMap::from_entries(es),
        _ => StrMap::new(),
    }
}

/// Builds the typed request record from the loosely-typed description.
/// Fails exactly when `url` is absent or not a string; every other
/// field falls back to its default on a missing or wrong-typed value.
pub fn translate_request(raw: RawOptions) -> (r: Result<RequestOptions, BridgeError>)
    ensures
        r is Ok <==> text_of(raw.url) is Some,
        r is Err ==> r == Err::<RequestOptions, BridgeError>(BridgeError::MissingField),
        r is Ok ==> {
            let o = r->Ok_0;
            &&& Some(o.url@) == text_of(raw.url)
            &&& o.profile == eff_profile(raw.browser)
            &&& o.method@ == eff_method(raw.method)
            &&& o.headers.wf()
            &&& o.headers@ == eff_headers(raw.headers)
            &&& (!(raw.headers matches Some(RawValue::Entries(_))) ==> o.headers.spec_keys()
                == Seq::<Seq<char>>::empty())
            &&& o.body.deep_view() == text_of(raw.body)
            &&& o.proxy.deep_view() == text_of(raw.proxy)
            &&& o.timeout_ms == eff_timeout(raw.timeout)
        },
{
    let RawOptions { url, browser, method, headers, body, proxy, timeout } = raw;
    let url = match url {
        Some(RawValue::Text(u)) => u,
        _ => {
            return Err(BridgeError::MissingField);
        },
    };
    let profile = match &browser {
        Some(RawValue::Text(b)) => parse_emulation(b.as_str()),
        _ => EmulationProfile::Chrome137,
    };
    let method = match method {
        Some(RawValue::Text(m)) => m,
        _ => "GET".to_owned(),
    };
    let headers = headers_from_raw(&headers);
    let body = match body {
        Some(RawValue::Text(b)) => Some(b),
        _ => None,
    };
    let proxy = match proxy {
        Some(RawValue::Text(p)) => Some(p),
        _ => None,
    };
    let timeout_ms = match timeout {
        Some(RawValue::Number(t)) => t,
        _ => DEFAULT_TIMEOUT_MS,
    };
    Ok(RequestOptions { url, profile, method, headers, body, proxy, timeout_ms })
}

/// Builds the handshake record for a WebSocket connect from the same
/// loosely-typed description; the method, body and timeout fields are
/// ignored. Fails exactly when `url` is absent or not a string.
pub fn translate_websocket(raw: RawOptions) -> (r: Result<WebSocketOptions, BridgeError>)
    ensures
        r is Ok <==> text_of(raw.url) is Some,
        r is Err ==> r == Err::<WebSocketOptions, BridgeError>(BridgeError::MissingField),
        r is Ok ==> {
            let o = r->Ok_0;
            &&& Some(o.url@) == text_of(raw.url)
            &&& o.profile == eff_profile(raw.browser)
            &&& o.headers.wf()
            &&& o.headers@ == eff_headers(raw.headers)
            &&& o.proxy.deep_view() == text_of(raw.proxy)
        },
{
    let RawOptions { url, browser, headers, proxy, .. } = raw;
    let url = match url {
        Some(RawValue::Text(u)) => u,
        _ => {
            return Err(BridgeError::MissingField);
        },
    };
    let profile = match &browser {
        Some(RawValue::Text(b)) => parse_emulation(b.as_str()),
        _ => EmulationProfile::Chrome137,
    };
    let headers = headers_from_raw(&headers);
    let proxy = match proxy {
        Some(RawValue::Text(p)) => Some(p),
        _ => None,
    };
    Ok(WebSocketOptions { url, profile, headers, proxy })
}

} // verus!
