//! The requests the client sends: method, address, headers and body.
use http::{HeaderMap, HeaderName, HeaderValue, Uri};
use vstd::prelude::*;
use vstd::utf8::encode_utf8;

use crate::text::{ascii_lower_seq, concat2};

verus! {

/// The name of an HTTP header.
#[verifier::external_type_specification]
#[verifier::external_body]
pub struct ExHeaderName(HeaderName);

/// The value of an HTTP header.
#[verifier::external_type_specification]
#[verifier::external_body]
pub struct ExHeaderValue(HeaderValue);

/// A multimap of HTTP headers.
#[verifier::external_type_specification]
#[verifier::external_body]
#[verifier::reject_recursive_types(T)]
pub struct ExHeaderMap<T>(HeaderMap<T>);

/// A parsed URI.
#[verifier::external_type_specification]
#[verifier::external_body]
pub struct ExUri(Uri);

/// The text of a header name (what `HeaderName::as_str` gives).
pub uninterp spec fn header_name_text(n: HeaderName) -> Seq<char>;

/// The bytes of a header value (what `HeaderValue::as_bytes` gives).
pub uninterp spec fn header_value_bytes(v: HeaderValue) -> Seq<u8>;

/// The headers a map holds: each name with its values, in order.
pub uninterp spec fn header_entries(m: HeaderMap) -> Map<Seq<char>, Seq<Seq<u8>>>;

/// The host part of the URI `s` (`Uri::from_str`, then `Uri::host`): `None`
/// when `s` does not parse as a URI, `Some(None)` when it has no host.
pub uninterp spec fn uri_host_part(s: Seq<char>) -> Option<Option<Seq<char>>>;

/// The port of the URI `s` (`Uri::from_str`, then `Uri::port_u16`): `None`
/// when `s` does not parse as a URI, `Some(None)` when it names no port.
pub uninterp spec fn uri_port_part(s: Seq<char>) -> Option<Option<u16>>;

/// The scheme of the URI `s` (`Uri::from_str`, then `Uri::scheme_str`):
/// `None` when `s` does not parse as a URI, `Some(None)` when it has none.
pub uninterp spec fn uri_scheme_part(s: Seq<char>) -> Option<Option<Seq<char>>>;

/// Whether `c` may appear in a header name: ASCII letters and digits and
/// ``!#$%&'*+-.^_`|~``.
pub open spec fn is_token_char(c: char) -> bool {
    ('a' <= c && c <= 'z') || ('A' <= c && c <= 'Z') || ('0' <= c && c <= '9') || c == '!' || c
        == '#' || c == '$' || c == '%' || c == '&' || c == '\'' || c == '*' || c == '+' || c == '-'
        || c == '.' || c == '^' || c == '_' || c == '`' || c == '|' || c == '~'
}

/// Whether `s` is a valid header name: 1 to 65535 token characters.
pub open spec fn valid_header_name(s: Seq<char>) -> bool {
    0 < s.len() <= 65535 && forall|i: int| 0 <= i < s.len() ==> #[trigger] is_token_char(s[i])
}

/// Whether `c` may appear in a header value: a tab, or any character from the
/// space upwards except DEL.
pub open spec fn is_value_char(c: char) -> bool {
    c == '\t' || (' ' <= c && c != '\x7f')
}

/// Whether `s` is a valid header value.
pub open spec fn valid_header_value(s: Seq<char>) -> bool {
    forall|i: int| 0 <= i < s.len() ==> #[trigger] is_value_char(s[i])
}

/// Parses a header name with http's `HeaderName::from_str`. It succeeds
/// exactly for 1 to 65535 token characters, and the name it gives is the text
/// with ASCII letters in lower case (the source's `HEADER_CHARS` table).
#[verifier::external_body]
pub(crate) fn parse_header_name(key: &str) -> (r: Option<HeaderName>)
    ensures
        r is Some <==> valid_header_name(key@),
        r matches Some(n) ==> header_name_text(n) == ascii_lower_seq(key@),
{
    match key.parse::<HeaderName>() {
        Ok(n) => Some(n),
        Err(_) => None,
    }
}

/// Parses a header value with http's `HeaderValue::from_str`. It succeeds
/// exactly when every byte is a tab or at least 32 and not 127 (the source's
/// `is_valid`), which for text means every character is a value character; the
/// value's bytes are the text's UTF-8 bytes. On failure, the error's text.
#[verifier::external_body]
pub(crate) fn parse_header_value(value: &str) -> (r: Result<HeaderValue, String>)
    ensures
        r is Ok <==> valid_header_value(value@),
        r matches Ok(v) ==> header_value_bytes(v) == encode_utf8(value@),
{
    match HeaderValue::from_str(value) {
        Ok(v) => Ok(v),
        Err(e) => Err(e.to_string()),
    }
}

/// No headers at all.
pub open spec fn no_headers() -> Map<Seq<char>, Seq<Seq<u8>>> {
    Map::empty()
}

/// An empty header map (`HeaderMap::new`).
#[verifier::external_body]
pub(crate) fn header_map_new() -> (map: HeaderMap)
    ensures
        header_entries(map) == no_headers(),
{
    HeaderMap::new()
}

/// Sets a header with `HeaderMap::insert`: the name's earlier values are all
/// replaced by this one. The map panics when it must grow past its maximum of
/// 32768 slots: when it is full, or when a run of long probes has marked it
/// in danger and it holds at least a fifth as many names as it has slots
/// (`try_reserve_one`). Fewer than 6554 names keep it clear of both.
#[verifier::external_body]
pub(crate) fn header_map_insert(m: &mut HeaderMap, name: HeaderName, value: HeaderValue)
    requires
        header_entries(*old(m)).dom().len() < 6554,
    ensures
        header_entries(*final(m)) == header_entries(*old(m)).insert(
            header_name_text(name),
            seq![header_value_bytes(value)],
        ),
{
    m.insert(name, value);
}

/// Adds all of `other`'s headers to `m` with `HeaderMap`'s `Extend` (fed
/// `other`'s own iteration): each name of `other` has its values in `m`
/// replaced by all of `other`'s values for it, in their order; the other
/// names of `m` keep theirs. A new name is added as `insert` adds it, so the
/// map panics in the same two ways (see `header_map_insert`); fewer than 6554
/// names in the two maps together keep it clear of both. The capacity it
/// reserves first is clamped below the maximum, so that step does not panic.
#[verifier::external_body]
pub(crate) fn header_map_extend(m: &mut HeaderMap, other: HeaderMap)
    requires
        header_entries(*old(m)).dom().len() + header_entries(other).dom().len() < 6554,
    ensures
        header_entries(*final(m)) == header_entries(*old(m)).union_prefer_right(header_entries(other)),
{
    m.extend(other);
}

/// The names of `m`, each once (`HeaderMap::keys`, which walks the map's
/// entries, one per name: as many as `keys_len` counts).
#[verifier::external_body]
pub(crate) fn header_map_keys(m: &HeaderMap) -> (r: Vec<HeaderName>)
    ensures
        r.len() == header_entries(*m).dom().len(),
        forall|i: int| 0 <= i < r.len() ==> header_entries(*m).contains_key(#[trigger] header_name_text(r[i])),
        forall|i: int, j: int|
            0 <= i < j < r.len() ==> header_name_text(#[trigger] r[i]) != header_name_text(#[trigger] r[j]),
        forall|k: Seq<char>|
            header_entries(*m).contains_key(k) ==> exists|i: int| 0 <= i < r.len() && #[trigger] header_name_text(r[i]) == k,
{
    m.keys().cloned().collect()
}

/// The number of names in `m` (`HeaderMap::keys_len`, the count of its
/// entries, one per name).
#[verifier::external_body]
pub(crate) fn header_map_keys_len(m: &HeaderMap) -> (r: usize)
    ensures
        r == header_entries(*m).dom().len(),
{
    m.keys_len()
}

/// The first value of `name` in `m` (`HeaderMap::get`); `None` when `m` does
/// not hold the name.
#[verifier::external_body]
pub(crate) fn header_map_get(m: &HeaderMap, name: &HeaderName) -> (r: Option<HeaderValue>)
    ensures
        r is Some <==> header_entries(*m).contains_key(header_name_text(*name)),
        r matches Some(v) ==> header_entries(*m)[header_name_text(*name)].len() > 0
            && header_value_bytes(v) == header_entries(*m)[header_name_text(*name)][0],
{
    m.get(name).cloned()
}

/// The values `name` has in `h`, none when it is absent.
pub open spec fn header_values(h: Map<Seq<char>, Seq<Seq<u8>>>, name: Seq<char>) -> Seq<Seq<u8>> {
    if h.contains_key(name) {
        h[name]
    } else {
        Seq::empty()
    }
}

/// Adds a value to a header with `HeaderMap::append`: it goes after the
/// values the name already has. A new name is added as `insert` adds it, so
/// the map panics in the same two ways (see `header_map_insert`); fewer than
/// 6554 names keep it clear of both.
#[verifier::external_body]
pub(crate) fn header_map_append(m: &mut HeaderMap, name: HeaderName, value: HeaderValue)
    requires
        header_entries(*old(m)).dom().len() < 6554,
    ensures
        header_entries(*final(m)) == header_entries(*old(m)).insert(
            header_name_text(name),
            header_values(header_entries(*old(m)), header_name_text(name)).push(header_value_bytes(value)),
        ),
{
    m.append(name, value);
}

/// Parses `s` with http's `Uri::from_str` and gives its port
/// (`Uri::port_u16`); `None` when it does not parse (the same parse as
/// `uri_host`).
#[verifier::external_body]
pub(crate) fn uri_port(s: &str) -> (r: Option<Option<u16>>)
    ensures
        r is Some <==> uri_host_part(s@) is Some,
        r == uri_port_part(s@),
{
    match s.parse::<Uri>() {
        Ok(u) => Some(u.port_u16()),
        Err(_) => None,
    }
}

/// Parses `s` with http's `Uri::from_str` and gives its scheme
/// (`Uri::scheme_str`); `None` when it does not parse (the same parse as
/// `uri_host`).
#[verifier::external_body]
pub(crate) fn uri_scheme(s: &str) -> (r: Option<Option<String>>)
    ensures
        r is Some <==> uri_host_part(s@) is Some,
        match r {
            Some(Some(t)) => uri_scheme_part(s@) == Some(Some(t@)),
            Some(None) => uri_scheme_part(s@) == Some(None::<Seq<char>>),
            None => uri_scheme_part(s@) is None,
        },
{
    match s.parse::<Uri>() {
        Ok(u) => match u.scheme_str() {
            Some(t) => Some(Some(t.to_string())),
            None => Some(None),
        },
        Err(_) => None,
    }
}

/// Parses `s` with http's `Uri::from_str` and gives its host (`Uri::host`);
/// on a parse failure, the error's text, about which nothing is stated.
#[verifier::external_body]
pub(crate) fn uri_host(s: &str) -> (r: Result<Option<String>, String>)
    ensures
        r is Ok <==> uri_host_part(s@) is Some,
        r matches Ok(h) ==> uri_host_part(s@) == Some(
            match h {
                Some(t) => Some(t@),
                None => None::<Seq<char>>,
            },
        ),
{
    match s.parse::<Uri>() {
        Ok(u) => match u.host() {
            Some(h) => Ok(Some(h.to_string())),
            None => Ok(None),
        },
        Err(e) => Err(e.to_string()),
    }
}

/// The request methods.
#[derive(Debug, Clone, PartialEq, Eq)]
pub enum HttpMethod {
    Get,
    Head,
    Post,
    Put,
    Delete,
    Options,
    Patch,
    Connect,
    Trace,
    Extension(String),
}

/// A request: method, full address, headers and an optional body.
pub struct Request {
    method: HttpMethod,
    url: String,
    headers: HeaderMap,
    body: Option<Vec<u8>>,
}

/// The headers after setting `key` to `value`, when both are valid; unchanged
/// otherwise.
pub open spec fn with_header_spec(h: Map<Seq<char>, Seq<Seq<u8>>>, key: Seq<char>, value: Seq<char>) -> Map<
    Seq<char>,
    Seq<Seq<u8>>,
> {
    if valid_header_value(value) && valid_header_name(key) {
        h.insert(ascii_lower_seq(key), seq![encode_utf8(value)])
    } else {
        h
    }
}

impl Request {
    pub closed spec fn spec_method(&self) -> HttpMethod {
        self.method
    }

    pub closed spec fn spec_url(&self) -> Seq<char> {
        self.url@
    }

    pub closed spec fn spec_headers(&self) -> Map<Seq<char>, Seq<Seq<u8>>> {
        header_entries(self.headers)
    }

    pub closed spec fn spec_body(&self) -> Option<Seq<u8>> {
        match self.body {
            Some(b) => Some(b@),
            None => None,
        }
    }

    /// A request of `method` to `base_url` followed by `path`, without headers
    /// or body.
    pub fn new(method: HttpMethod, base_url: &str, path: &str) -> (r: Request)
        ensures
            r.spec_method() == method,
            r.spec_url() == base_url@ + path@,
            r.spec_headers() == Map::<Seq<char>, Seq<Seq<u8>>>::empty(),
            r.spec_body() is None,
    {
        Request { method, url: concat2(base_url, path), headers: header_map_new(), body: None }
    }

    /// The request with header `key` set to `value` (replacing earlier values
    /// of the name, which is kept in lower case). An invalid name or value
    /// leaves the request as it is.
    pub fn with_header(self, key: &str, value: &str) -> (r: Request)
        requires
            self.spec_headers().dom().len() < 6554,
        ensures
            r.spec_method() == self.spec_method(),
            r.spec_url() == self.spec_url(),
            r.spec_body() == self.spec_body(),
            r.spec_headers() == with_header_spec(self.spec_headers(), key@, value@),
    {
        let mut req = self;
        if let Ok(header_value) = parse_header_value(value) {
            if let Some(header_name) = parse_header_name(key) {
                header_map_insert(&mut req.headers, header_name, header_value);
            }
        }
        req
    }

    /// The request with header `key` set to `value`, failing with the header
    /// library's error text when the value is invalid. `key` must be a valid
    /// name.
    pub fn try_with_header(self, key: &str, value: &str) -> (r: Result<Request, String>)
        requires
            self.spec_headers().dom().len() < 6554,
            valid_header_name(key@),
        ensures
            r is Ok <==> valid_header_value(value@),
            r matches Ok(req) ==> req.spec_method() == self.spec_method() && req.spec_url()
                == self.spec_url() && req.spec_body() == self.spec_body() && req.spec_headers()
                == with_header_spec(self.spec_headers(), key@, value@),
    {
        let mut req = self;
        match parse_header_value(value) {
            Ok(header_value) => {
                if let Some(header_name) = parse_header_name(key) {
                    header_map_insert(&mut req.headers, header_name, header_value);
                }
                Ok(req)
            },
            Err(t) => Err(t),
        }
    }

    /// The request with all of `headers` added: each of their names replaces
    /// the values the request had for it.
    pub fn with_extra_headers(self, headers: HeaderMap) -> (r: Request)
        requires
            self.spec_headers().dom().len() + header_entries(headers).dom().len() < 6554,
        ensures
            r.spec_method() == self.spec_method(),
            r.spec_url() == self.spec_url(),
            r.spec_body() == self.spec_body(),
            r.spec_headers() == self.spec_headers().union_prefer_right(header_entries(headers)),
    {
        let mut req = self;
        header_map_extend(&mut req.headers, headers);
        req
    }

    /// The request with `headers` as its headers, in place of those it had.
    pub fn with_header_map(self, headers: HeaderMap) -> (r: Request)
        ensures
            r.spec_method() == self.spec_method(),
            r.spec_url() == self.spec_url(),
            r.spec_body() == self.spec_body(),
            r.spec_headers() == header_entries(headers),
    {
        let mut req = self;
        req.headers = headers;
        req
    }

    /// The request with `body` as its body.
    pub fn with_body(self, body: Vec<u8>) -> (r: Request)
        ensures
            r.spec_method() == self.spec_method(),
            r.spec_url() == self.spec_url(),
            r.spec_headers() == self.spec_headers(),
            r.spec_body() == Some(body@),
    {
        let mut req = self;
        req.body = Some(body);
        req
    }

    /// The method.
    pub fn method(&self) -> (r: &HttpMethod)
        ensures
            *r == self.spec_method(),
    {
        &self.method
    }

    /// The full address.
    pub fn url(&self) -> (r: &String)
        ensures
            r@ == self.spec_url(),
    {
        &self.url
    }

    /// The headers.
    pub fn headers(&self) -> (r: &HeaderMap)
        ensures
            header_entries(*r) == self.spec_headers(),
    {
        &self.headers
    }

    /// The body that goes out with the request: its own body; an empty one
    /// for a request without a body unless it is a GET or a DELETE, which go
    /// out without.
    pub open spec fn body_to_send(&self) -> Option<Seq<u8>> {
        match self.spec_body() {
            Some(b) => Some(b),
            None => if self.spec_method() is Get || self.spec_method() is Delete {
                None
            } else {
                Some(Seq::<u8>::empty())
            },
        }
    }

    /// The body that goes out with the request.
    pub fn send_body(&self) -> (r: Option<Vec<u8>>)
        ensures
            match r {
                Some(b) => self.body_to_send() == Some(b@),
                None => self.body_to_send() is None,
            },
    {
        match &self.body {
            Some(b) => Some(b.clone()),
            None => match self.method {
                HttpMethod::Get | HttpMethod::Delete => None,
                _ => Some(Vec::new()),
            },
        }
    }

    /// The `content-length` a request over a stream declares: the length of
    /// its body, when it has one.
    pub fn content_length(&self) -> (r: Option<usize>)
        ensures
            match r {
                Some(n) => self.spec_body() matches Some(b) && n == b.len(),
                None => self.spec_body() is None,
            },
    {
        match &self.body {
            Some(b) => Some(b.len()),
            None => None,
        }
    }

    /// The body, consuming the request.
    pub fn body(self) -> (r: Option<Vec<u8>>)
        ensures
            match r {
                Some(b) => self.spec_body() == Some(b@),
                None => self.spec_body() is None,
            },
    {
        self.body
    }
}

} // verus!
