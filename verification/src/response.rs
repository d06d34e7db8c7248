use vstd::prelude::*;
use crate::strmap::{StrMap, assoc_map};
use crate::text::{find_char, first_index_of, lemma_first_index_of, str_eq};

verus! {

/// The structured response the bridge returns for one HTTP exchange.
/// Produced once per request; owned solely by the caller after return.
#[derive(Debug, Clone)]
pub struct Response {
    pub status: u16,
    pub url: String,
    pub headers: StrMap,
    pub cookies: StrMap,
    pub body: String,
}

impl Response {
    /// Both mappings keep each key at exactly one position.
    pub open spec fn wf(&self) -> bool {
        self.headers.wf() && self.cookies.wf()
    }
}

/// The header name whose values carry cookies. The protocol engine
/// normalizes header names to lower case, so the scan compares against
/// the lower-case name exactly.
pub open spec fn spec_set_cookie_name() -> Seq<char> {
    "set-cookie"@
}

/// The name/value pair a single cookie header value denotes: the part
/// before the first `;` must be `name=value` with a non-empty name.
/// Anything else is malformed and yields no pair.
pub open spec fn spec_cookie_pair(s: Seq<char>) -> Option<(Seq<char>, Seq<char>)> {
    let part = s.take(first_index_of(s, ';'));
    let e = first_index_of(part, '=');
    if e == 0 || e >= part.len() {
        None
    } else {
        Some((part.take(e), part.skip(e + 1)))
    }
}

/// The cookie mapping an ordered header list denotes: the parsed pair
/// of every well-formed cookie header, later cookies with the same
/// name overwriting earlier ones; malformed cookie headers are
/// skipped, never an error.
pub open spec fn spec_cookie_map(raw: Seq<(Seq<char>, Seq<char>)>) -> Map<Seq<char>, Seq<char>>
    decreases raw.len(),
{
    if raw.len() == 0 {
        Map::empty()
    } else {
        let m = spec_cookie_map(raw.drop_last());
        if raw.last().0 == spec_set_cookie_name() {
            match spec_cookie_pair(raw.last().1) {
                Some(p) => m.insert(p.0, p.1),
                None => m,
            }
        } else {
            m
        }
    }
}

/// Parses one cookie header value into its name/value pair, or nothing
/// when the value is malformed.
pub fn parse_cookie_pair(s: &str) -> (r: Option<(String, String)>)
    ensures
        match r {
            Some(p) => spec_cookie_pair(s@) == Some((p.0@, p.1@)),
            None => spec_cookie_pair(s@) is None,
        },
{
    proof {
        lemma_first_index_of(s@, ';');
    }
    let semi = find_char(s, ';');
    let part = s.substring_char(0, semi);
    proof {
        assert(part@ =~= s@.take(first_index_of(s@, ';')));
        lemma_first_index_of(part@, '=');
    }
    let e = find_char(part, '=');
    let m = part.unicode_len();
    if e == 0 || e >= m {
        None
    } else {
        let name = part.substring_char(0, e).to_owned();
        let value = part.substring_char(e + 1, m).to_owned();
        proof {
            assert(name@ =~= part@.take(e as int));
            assert(value@ =~= part@.skip(e + 1));
        }
        Some((name, value))
    }
}

/// Translates the engine's wire-level answer — status, final url after
/// redirects, the ordered raw header list, body — into the structured
/// response: headers folded into a mapping, cookies extracted from the
/// cookie headers.
pub fn translate_response(status: u16, url: String, raw_headers: &Vec<(String, String)>, body: String) -> (r:
    Response)
    ensures
        r.wf(),
        r.status == status,
        r.url@ == url@,
        r.body@ == body@,
        r.headers@ == assoc_map(raw_headers.deep_view()),
        r.cookies@ == spec_cookie_map(raw_headers.deep_view()),
{
    let ghost kv = raw_headers.deep_view();
    let headers = StrMap::from_entries(raw_headers);
    let mut cookies = StrMap::new();
    let n = raw_headers.len();
    let mut i: usize = 0;
    while i < n
        invariant
            n == raw_headers@.len(),
            kv == raw_headers.deep_view(),
            0 <= i <= n,
            cookies.wf(),
            cookies@ == spec_cookie_map(kv.take(i as int)),
        decreases n - i,
    {
        proof {
            assert(kv.take(i + 1).drop_last() =~= kv.take(i as int));
            assert(kv.take(i + 1).last() == kv[i as int]);
        }
        let is_cookie_header = str_eq(raw_headers[i].0.as_str(), "set-cookie");
        if is_cookie_header {
            match parse_cookie_pair(raw_headers[i].1.as_str()) {
                Some(pair) => {
                    let (name, value) = pair;
                    cookies.insert(name, value);
                },
                None => {},
            }
        }
        i += 1;
    }
    proof {
        assert(kv.take(n as int) =~= kv);
    }
    Response { status, url, headers, cookies, body }
}

/// The host-consumable shape of a response: the same plain fields, with
/// the header and cookie mappings rebuilt as host objects.
#[derive(Debug, Clone)]
pub struct HostResponse {
    pub status: u16,
    pub url: String,
    pub headers: StrMap,
    pub cookies: StrMap,
    pub body: String,
}

/// Marshals a response into the host shape by assigning each header
/// and cookie pair, in order, into fresh host objects.
///
/// Round trip: reading `status`, `url`, `headers`, `cookies` and `body`
/// back from the host shape reproduces the structured response's fields
/// exactly — no key, value or position is lost or reordered.
pub fn response_to_host(resp: &Response) -> (h: HostResponse)
    requires
        resp.wf(),
    ensures
        h.status == resp.status,
        h.url@ == resp.url@,
        h.body@ == resp.body@,
        h.headers.wf(),
        h.headers@ == resp.headers@,
        h.headers.spec_keys() == resp.headers.spec_keys(),
        h.cookies.wf(),
        h.cookies@ == resp.cookies@,
        h.cookies.spec_keys() == resp.cookies.spec_keys(),
{
    HostResponse {
        status: resp.status,
        url: resp.url.clone(),
        headers: resp.headers.rebuild(),
        cookies: resp.cookies.rebuild(),
        body: resp.body.clone(),
    }
}

} // verus!
