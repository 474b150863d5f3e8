//! The `iroh://` scheme through which the user interface reaches the server:
//! decoding the address it carries and turning it into a request.
use base64::engine::general_purpose::STANDARD;
use base64::Engine;
use vstd::prelude::*;
use vstd::utf8::{decode_utf8, encode_utf8, valid_utf8};

use http::HeaderMap;

use crate::api::{authorized_headers, host_headers};
use crate::hc::request::{
    header_entries, header_map_append, header_map_get, header_map_insert, header_map_keys_len, header_map_keys, header_map_new, header_name_text, header_value_bytes,
    header_values, no_headers, parse_header_name, parse_header_value, uri_host_part, valid_header_name, valid_header_value, HttpMethod, Request,
};
use crate::proto::error::AppError;
use crate::proto::settings::{ClientType, NetworkMode, NetworkSettings};
use crate::state::{settings_view, stored_settings, stored_token, AppState};
use crate::store::{db_entries, utf8_to_string};
use crate::text::{ascii_lower_seq, chars_of, concat3, decimal, has_prefix, string_from_chars, u64_to_decimal};

verus! {

/// Whether `c` has Unicode's `White_Space` property (what `char::is_whitespace`
/// tests and `str::trim` removes).
pub open spec fn is_white_space(c: char) -> bool {
    ('\t' <= c && c <= '\r') || c == ' ' || c == '\u{85}' || c == '\u{a0}' || c == '\u{1680}' || (
    '\u{2000}' <= c && c <= '\u{200a}') || c == '\u{2028}' || c == '\u{2029}' || c == '\u{202f}'
        || c == '\u{205f}' || c == '\u{3000}'
}

/// `s` without its leading white space.
pub open spec fn trim_start_ws(s: Seq<char>) -> Seq<char>
    decreases s.len(),
{
    if s.len() > 0 && is_white_space(s[0]) {
        trim_start_ws(s.drop_first())
    } else {
        s
    }
}

/// `s` without its trailing white space.
pub open spec fn trim_end_ws(s: Seq<char>) -> Seq<char>
    decreases s.len(),
{
    if s.len() > 0 && is_white_space(s.last()) {
        trim_end_ws(s.drop_last())
    } else {
        s
    }
}

/// `s` without leading and trailing white space (`str::trim`).
pub open spec fn trim_ws(s: Seq<char>) -> Seq<char> {
    trim_end_ws(trim_start_ws(s))
}

/// `s` with every leading copy of `p` removed (`str::trim_start_matches` with
/// a string pattern); `s` itself when `p` is empty.
pub open spec fn strip_leading(s: Seq<char>, p: Seq<char>) -> Seq<char>
    decreases s.len(),
{
    if p.len() > 0 && has_prefix(s, p) {
        strip_leading(s.skip(p.len() as int), p)
    } else {
        s
    }
}

/// Whether `c` is white space.
pub fn is_white_space_char(c: char) -> (r: bool)
    ensures
        r == is_white_space(c),
{
    ('\t' <= c && c <= '\r') || c == ' ' || c == '\u{85}' || c == '\u{a0}' || c == '\u{1680}' || (
    '\u{2000}' <= c && c <= '\u{200a}') || c == '\u{2028}' || c == '\u{2029}' || c == '\u{202f}'
        || c == '\u{205f}' || c == '\u{3000}'
}

/// The characters of `cs` from index `start` to index `end`, as a string.
fn chars_between(cs: &Vec<char>, start: usize, end: usize) -> (r: String)
    requires
        start <= end <= cs.len(),
    ensures
        r@ == cs@.subrange(start as int, end as int),
{
    let mut part: Vec<char> = Vec::new();
    let mut i: usize = start;
    while i < end
        invariant
            start <= i <= end <= cs.len(),
            part@ == cs@.subrange(start as int, i as int),
        decreases end - i,
    {
        part.push(cs[i]);
        assert(cs@.subrange(start as int, i + 1) =~= cs@.subrange(start as int, i as int).push(
            cs@[i as int],
        ));
        i = i + 1;
    }
    string_from_chars(&part)
}

/// `s` without leading and trailing white space (`str::trim`).
pub fn trim_white_space(s: &str) -> (r: String)
    ensures
        r@ == trim_ws(s@),
{
    let cs = chars_of(s);
    let n = cs.len();
    let mut start: usize = 0;
    assert(s@.skip(0) =~= s@);
    while start < n && is_white_space_char(cs[start])
        invariant
            cs@ == s@,
            n == cs.len(),
            start <= n,
            trim_start_ws(s@) == trim_start_ws(s@.skip(start as int)),
        decreases n - start,
    {
        assert(s@.skip(start as int).drop_first() =~= s@.skip(start + 1));
        start = start + 1;
    }
    assert(trim_start_ws(s@) =~= s@.skip(start as int));
    let ghost front = s@.skip(start as int);
    let mut end: usize = n;
    while end > start && is_white_space_char(cs[end - 1])
        invariant
            cs@ == s@,
            n == cs.len(),
            start <= end <= n,
            front == s@.skip(start as int),
            trim_end_ws(front) == trim_end_ws(s@.subrange(start as int, end as int)),
        decreases end - start,
    {
        assert(s@.subrange(start as int, end as int).drop_last() =~= s@.subrange(
            start as int,
            end - 1,
        ));
        end = end - 1;
    }
    assert(front =~= s@.subrange(start as int, n as int));
    chars_between(&cs, start, end)
}

/// Whether `p` occurs in `cs` at index `at`.
fn occurs_at(cs: &Vec<char>, at: usize, p: &Vec<char>) -> (r: bool)
    requires
        at <= cs.len(),
    ensures
        r == has_prefix(cs@.skip(at as int), p@),
{
    if p.len() > cs.len() - at {
        return false;
    }
    let mut j: usize = 0;
    while j < p.len()
        invariant
            at <= cs.len(),
            p.len() <= cs.len() - at,
            j <= p.len(),
            forall|k: int| 0 <= k < j ==> cs@[at + k] == p@[k],
        decreases p.len() - j,
    {
        if cs[at + j] != p[j] {
            assert(cs@.skip(at as int).take(p@.len() as int)[j as int] != p@[j as int]);
            return false;
        }
        j = j + 1;
    }
    assert(cs@.skip(at as int).take(p@.len() as int) =~= p@);
    true
}

/// `s` with every leading copy of `p` removed (`str::trim_start_matches`).
pub fn strip_leading_matches(s: &str, p: &str) -> (r: String)
    ensures
        r@ == strip_leading(s@, p@),
{
    let cs = chars_of(s);
    let pc = chars_of(p);
    let mut at: usize = 0;
    assert(s@.skip(0) =~= s@);
    if pc.len() > 0 {
        while occurs_at(&cs, at, &pc)
            invariant
                cs@ == s@,
                pc@ == p@,
                pc.len() > 0,
                at <= cs.len(),
                strip_leading(s@, p@) == strip_leading(s@.skip(at as int), p@),
            decreases cs.len() - at,
        {
            assert(s@.skip(at as int).skip(p@.len() as int) =~= s@.skip(at + p@.len()));
            at = at + pc.len();
        }
    }
    assert(s@.skip(at as int) =~= s@.subrange(at as int, s@.len() as int));
    chars_between(&cs, at, cs.len())
}

/// The value of the hexadecimal digit `b`, if it is one.
pub open spec fn hex_value(b: u8) -> Option<u8> {
    if 48 <= b <= 57 {
        Some((b - 48) as u8)
    } else if 65 <= b <= 70 {
        Some((b - 55) as u8)
    } else if 97 <= b <= 102 {
        Some((b - 87) as u8)
    } else {
        None
    }
}

/// `s` with each `%` that two hexadecimal digits follow replaced by the byte
/// they spell; every other byte, `+` and a lone `%` included, is kept.
pub open spec fn percent_decoded(s: Seq<u8>) -> Seq<u8>
    decreases s.len(),
{
    if s.len() == 0 {
        Seq::<u8>::empty()
    } else if s[0] == 37 && s.len() >= 3 && hex_value(s[1]) is Some && hex_value(s[2]) is Some {
        seq![(hex_value(s[1]).unwrap() * 16 + hex_value(s[2]).unwrap()) as u8] + percent_decoded(
            s.skip(3),
        )
    } else {
        seq![s[0]] + percent_decoded(s.skip(1))
    }
}

/// Percent-decodes `text` with `urlencoding::decode`: the decoded bytes of the
/// text's UTF-8 encoding (the crate's `decode_binary`, stated by
/// `percent_decoded`) read as UTF-8 text; `None` when they are not UTF-8.
#[verifier::external_body]
fn percent_decode(text: &str) -> (r: Option<String>)
    ensures
        r is Some <==> valid_utf8(percent_decoded(encode_utf8(text@))),
        r matches Some(t) ==> t@ == decode_utf8(percent_decoded(encode_utf8(text@))),
{
    match urlencoding::decode(text) {
        Ok(t) => Some(t.into_owned()),
        Err(_) => None,
    }
}

/// What `base64`'s standard engine (`general_purpose::STANDARD`, padded
/// alphabet with `+` and `/`) decodes the UTF-8 bytes of `text` to; `None`
/// when it refuses them.
pub uninterp spec fn base64_standard_decoded(text: Seq<char>) -> Option<Seq<u8>>;

/// Decodes `text` with `base64`'s standard engine (`Engine::decode`).
#[verifier::external_body]
fn base64_decode(text: &str) -> (r: Option<Vec<u8>>)
    ensures
        match r {
            Some(b) => base64_standard_decoded(text@) == Some(b@),
            None => base64_standard_decoded(text@) is None,
        },
{
    match STANDARD.decode(text) {
        Ok(b) => Some(b),
        Err(_) => None,
    }
}

/// Why an encoded address could not be decoded.
#[derive(Debug, Clone, Copy, PartialEq, Eq)]
pub enum UriDecodeError {
    /// The text is not base64.
    Base64,
    /// The decoded bytes, or what percent-decoding them gives, are not UTF-8.
    Utf8,
}

/// A text result as a sequence of characters.
pub open spec fn text_result(r: Result<String, UriDecodeError>) -> Result<Seq<char>, UriDecodeError> {
    match r {
        Ok(s) => Ok(s@),
        Err(e) => Err(e),
    }
}

/// The address that base64-decoded bytes `b` carry: `b` read as UTF-8 text,
/// then percent-decoded.
pub open spec fn address_from_bytes(b: Seq<u8>) -> Result<Seq<char>, UriDecodeError> {
    if !valid_utf8(b) || !valid_utf8(percent_decoded(b)) {
        Err(UriDecodeError::Utf8)
    } else {
        Ok(decode_utf8(percent_decoded(b)))
    }
}

/// The address an encoded text carries: the text without surrounding white
/// space, base64-decoded, then as `address_from_bytes` says.
pub open spec fn decoded_address(encoded: Seq<char>) -> Result<Seq<char>, UriDecodeError> {
    match base64_standard_decoded(trim_ws(encoded)) {
        None => Err(UriDecodeError::Base64),
        Some(b) => address_from_bytes(b),
    }
}

/// Reads base64-decoded bytes as UTF-8 text and percent-decodes it.
pub fn address_from_decoded(bytes: Vec<u8>) -> (r: Result<String, UriDecodeError>)
    ensures
        text_result(r) == address_from_bytes(bytes@),
{
    let ghost b = bytes@;
    let text = match utf8_to_string(bytes) {
        Ok(t) => t,
        Err(_) => return Err(UriDecodeError::Utf8),
    };
    proof {
        vstd::utf8::decode_utf8_encode_utf8(b);
    }
    match percent_decode(text.as_str()) {
        Some(u) => Ok(u),
        None => Err(UriDecodeError::Utf8),
    }
}

/// Decodes the address the user interface encodes with `btoa` over a
/// percent-encoded URL: trims white space, base64-decodes, reads UTF-8,
/// percent-decodes.
pub fn decode_btoa_encoded_uri(encoded_str: &str) -> (r: Result<String, UriDecodeError>)
    ensures
        text_result(r) == decoded_address(encoded_str@),
{
    let trimmed = trim_white_space(encoded_str);
    match base64_decode(trimmed.as_str()) {
        Some(bytes) => address_from_decoded(bytes),
        None => Err(UriDecodeError::Base64),
    }
}

/// The path of the URL `text` (`url::Url::parse`, then `Url::path`); `None`
/// when it does not parse.
pub uninterp spec fn url_path_text(text: Seq<char>) -> Option<Seq<char>>;

/// Parses `text` as a URL with the url crate and gives its path.
#[verifier::external_body]
fn url_path(text: &str) -> (r: Option<String>)
    ensures
        match r {
            Some(p) => url_path_text(text@) == Some(p@),
            None => url_path_text(text@) is None,
        },
{
    match url::Url::parse(text) {
        Ok(u) => Some(u.path().to_string()),
        Err(_) => None,
    }
}

/// The query of the URL `text` (`url::Url::parse`, then `Url::query`):
/// `None` when it does not parse, `Some(None)` when it has no query.
pub uninterp spec fn url_query_text(text: Seq<char>) -> Option<Option<Seq<char>>>;

/// Parses `text` as a URL with the url crate and gives its query; `None`
/// when it does not parse (the same parse as `url_path`).
#[verifier::external_body]
fn url_query(text: &str) -> (r: Option<Option<String>>)
    ensures
        r is Some <==> url_path_text(text@) is Some,
        match r {
            Some(Some(q)) => url_query_text(text@) == Some(Some(q@)),
            Some(None) => url_query_text(text@) == Some(None::<Seq<char>>),
            None => url_query_text(text@) is None,
        },
{
    match url::Url::parse(text) {
        Ok(u) => match u.query() {
            Some(q) => Some(Some(q.to_string())),
            None => Some(None),
        },
        Err(_) => None,
    }
}

/// The start of every address the user interface sends through the scheme.
pub open spec fn scheme_prefix() -> Seq<char> {
    "iroh://localhost/"@
}

/// The server path a scheme address asks for, or the status it is refused
/// with: 400 when the encoded address does not decode or does not parse as
/// a URL.
pub open spec fn proxy_path(uri: Seq<char>) -> Result<Seq<char>, u16> {
    match decoded_address(strip_leading(uri, scheme_prefix())) {
        Err(_) => Err(400),
        Ok(a) => match url_path_text(a) {
            None => Err(400),
            Some(p) => Ok(p),
        },
    }
}

/// A path result as a sequence of characters.
pub open spec fn path_result(r: Result<String, u16>) -> Result<Seq<char>, u16> {
    match r {
        Ok(s) => Ok(s@),
        Err(c) => Err(c),
    }
}

/// The server path the scheme address `uri` asks for, or the status it is
/// refused with.
pub fn iroh_target_path(uri: &str) -> (r: Result<String, u16>)
    ensures
        path_result(r) == proxy_path(uri@),
{
    let encoded = strip_leading_matches(uri, "iroh://localhost/");
    let address = match decode_btoa_encoded_uri(encoded.as_str()) {
        Ok(a) => a,
        Err(_) => return Err(400),
    };
    match url_path(address.as_str()) {
        Some(p) => Ok(p),
        None => Err(400),
    }
}

/// The path and query a scheme address asks the API for (`path?query`, the
/// query empty when there is none), or the status it is refused with: 400
/// when the encoded address does not decode or does not parse as a URL.
pub open spec fn proxy_target(uri: Seq<char>) -> Result<Seq<char>, u16> {
    match decoded_address(strip_leading(uri, scheme_prefix())) {
        Err(_) => Err(400),
        Ok(a) => match (url_path_text(a), url_query_text(a)) {
            (Some(p), Some(q)) => Ok(
                p + "?"@ + match q {
                    Some(t) => t,
                    None => Seq::<char>::empty(),
                },
            ),
            _ => Err(400),
        },
    }
}

/// The path and query the scheme address `uri` asks the API for, or the
/// status it is refused with.
pub fn iroh_target(uri: &str) -> (r: Result<String, u16>)
    ensures
        path_result(r) == proxy_target(uri@),
{
    let encoded = strip_leading_matches(uri, "iroh://localhost/");
    let address = match decode_btoa_encoded_uri(encoded.as_str()) {
        Ok(a) => a,
        Err(_) => return Err(400),
    };
    let path = match url_path(address.as_str()) {
        Some(p) => p,
        None => return Err(400),
    };
    let query = match url_query(address.as_str()) {
        Some(Some(q)) => q,
        Some(None) => String::new(),
        None => return Err(400),
    };
    let r = concat3(path.as_str(), "?", query.as_str());
    Ok(r)
}

/// Whether `status` is a success (2xx).
pub open spec fn is_success(status: u16) -> bool {
    200 <= status < 300
}

/// The headers the reply to the user interface carries besides the server's:
/// for a success, the content type `application/octet-stream` and the body's
/// length; none otherwise.
pub open spec fn extra_reply_headers(status: u16, body_len: nat) -> Seq<(Seq<char>, Seq<char>)> {
    if is_success(status) {
        seq![("Content-Type"@, "application/octet-stream"@), ("Content-Length"@, decimal(body_len))]
    } else {
        Seq::<(Seq<char>, Seq<char>)>::empty()
    }
}

/// The pairs of a list of text pairs, as sequences.
pub open spec fn pair_texts(v: Seq<(String, String)>) -> Seq<(Seq<char>, Seq<char>)> {
    v.map_values(|p: (String, String)| (p.0@, p.1@))
}

/// The headers to add to the server's reply of `status` with a body of
/// `body_len` bytes before it goes back to the user interface.
pub fn proxy_extra_headers(status: u16, body_len: usize) -> (r: Vec<(String, String)>)
    ensures
        pair_texts(r@) == extra_reply_headers(status, body_len as nat),
{
    let mut r: Vec<(String, String)> = Vec::new();
    if 200 <= status && status < 300 {
        r.push((String::from_str("Content-Type"), String::from_str("application/octet-stream")));
        r.push((String::from_str("Content-Length"), u64_to_decimal(body_len as u64)));
    }
    assert(pair_texts(r@) =~= extra_reply_headers(status, body_len as nat));
    r
}

impl AppState {
    /// The API request that carries a scheme request of `method` for `uri`
    /// with `headers` and `body`: the address's path and query below the base
    /// address, with the `host` header and credentials of every API request,
    /// and then the scheme request's own headers, each of which replaces the
    /// values its name had. Refused with 400 when the address does not decode
    /// or parse, with 500 when the base address does not parse.
    pub fn iroh_api_request(&self, uri: &str, method: HttpMethod, headers: HeaderMap, body: Vec<u8>) -> (r:
        Result<Request, u16>)
        requires
            header_entries(headers).dom().len() < 6552,
        ensures
            proxy_target(uri@) matches Err(c) ==> r == Err::<Request, u16>(c),
            proxy_target(uri@) matches Ok(t) ==> match r {
                Ok(req) => self.api_request_with_headers(req, method, t, body@, header_entries(headers)),
                Err(c) => c == 500 && uri_host_part(self.base_url@) is None,
            },
    {
        let target = match iroh_target(uri) {
            Ok(t) => t,
            Err(c) => return Err(c),
        };
        self.api_request_for_target(target.as_str(), method, headers, body)
    }

    /// The API request that carries a scheme request of `method` with
    /// `headers` and `body` to `target`, the path and query its address
    /// decoded to (see `iroh_target`): `target` below the base address, with
    /// the `host` header and credentials of every API request, and then the
    /// scheme request's own headers, each of which replaces the values its
    /// name had. Refused with 500 exactly when the base address does not
    /// parse.
    pub fn api_request_for_target(&self, target: &str, method: HttpMethod, headers: HeaderMap, body: Vec<u8>) -> (r:
        Result<Request, u16>)
        requires
            header_entries(headers).dom().len() < 6552,
        ensures
            match r {
                Ok(req) => self.api_request_with_headers(req, method, target@, body@, header_entries(headers)),
                Err(c) => c == 500 && uri_host_part(self.base_url@) is None,
            },
            r is Ok <==> uri_host_part(self.base_url@) is Some,
    {
        match self.request_with_body(method, target, body) {
            Ok(req) => {
                proof {
                    lemma_api_header_count(self.base_url@, stored_token(db_entries(self.db)));
                }
                let ghost base = req;
                let out = req.with_extra_headers(headers);
                assert(self.request_outcome(Ok(base), method, target@, body@));
                Ok(out)
            },
            Err(_) => Err(500),
        }
    }

    /// Whether `req` is an API request of `method` to `path` with `body`
    /// (see `request_outcome`) with the headers `extra` added, each of their
    /// names replacing the values it had.
    pub open spec fn api_request_with_headers(
        self,
        req: Request,
        method: HttpMethod,
        path: Seq<char>,
        body: Seq<u8>,
        extra: Map<Seq<char>, Seq<Seq<u8>>>,
    ) -> bool {
        exists|base: Request|
            {
                &&& #[trigger] self.request_outcome(Ok(base), method, path, body)
                &&& req.spec_method() == base.spec_method()
                &&& req.spec_url() == base.spec_url()
                &&& req.spec_body() == base.spec_body()
                &&& req.spec_headers() == base.spec_headers().union_prefer_right(extra)
            }
    }

    /// The request that carries a scheme request of `method` for `uri` with
    /// `headers` and `body` to the server, and the kind of client that sends
    /// it: `proxy_request_from` with the scheme address's path and the
    /// settings `get_network_settings` reads (`ipv6_reachable` tells whether
    /// the device reaches IPv6). The query is dropped. Refused with 400 when
    /// the address does not decode or parse, with 500 when the settings cannot
    /// be read.
    pub fn iroh_proxy_request(
        &self,
        uri: &str,
        method: HttpMethod,
        headers: HeaderMap,
        body: Vec<u8>,
        ipv6_reachable: bool,
    ) -> (r: Result<(ClientType, Request), u16>)
        ensures
            proxy_path(uri@) matches Err(c) ==> r == Err::<(ClientType, Request), u16>(c),
            proxy_path(uri@) is Ok && stored_settings(db_entries(self.db)) is None ==> r
                == Err::<(ClientType, Request), u16>(500),
            proxy_path(uri@) is Ok ==> (r matches Err(c) ==> c == 500),
            r matches Ok((ct, req)) ==> exists|s: NetworkSettings, p: Seq<char>|
                {
                    &&& stored_settings(db_entries(self.db)) == Some(settings_view(s))
                    &&& proxy_path(uri@) == Ok::<Seq<char>, u16>(p)
                    &&& #[trigger] proxy_request_spec(s, p, method, header_entries(headers), body@, ipv6_reachable, ct, req)
                },
    {
        let path = match iroh_target_path(uri) {
            Ok(p) => p,
            Err(c) => return Err(c),
        };
        let settings = self.get_network_settings();
        let r = proxy_request_from(settings, path.as_str(), method, headers, body, ipv6_reachable);
        proof {
            if r is Ok {
                let s = settings->Ok_0;
                assert(proxy_request_spec(s, path@, method, header_entries(headers), body@, ipv6_reachable, r->Ok_0.0, r->Ok_0.1));
            }
        }
        r
    }
}

/// Whether `ct` and `req` are the client kind and request that carry a
/// scheme request of `method` for `path` with `headers` and `body` under the
/// settings `s`: the request goes to the settings' address followed by the
/// path, with the scheme request's headers and body, through the Iroh client
/// in P2P mode and the plain client otherwise.
pub open spec fn proxy_request_spec(
    s: NetworkSettings,
    path: Seq<char>,
    method: HttpMethod,
    headers: Map<Seq<char>, Seq<Seq<u8>>>,
    body: Seq<u8>,
    ipv6_reachable: bool,
    ct: ClientType,
    req: Request,
) -> bool {
    &&& ct == (if s.mode == NetworkMode::P2P {
        ClientType::Iroh
    } else {
        ClientType::Reqwest
    })
    &&& req.spec_method() == method
    &&& req.spec_url() == s.spec_addr(ipv6_reachable) + path
    &&& req.spec_headers() == headers
    &&& req.spec_body() == Some(body)
}

/// The client kind and request that carry a scheme request of `method` for
/// `path` with `headers` and `body` under `settings`.
pub fn proxy_request_for(
    settings: &NetworkSettings,
    path: &str,
    method: HttpMethod,
    headers: HeaderMap,
    body: Vec<u8>,
    ipv6_reachable: bool,
) -> (r: (ClientType, Request))
    ensures
        proxy_request_spec(*settings, path@, method, header_entries(headers), body@, ipv6_reachable, r.0, r.1),
{
    let base = settings.get_addr(ipv6_reachable);
    let ct = settings.proxy_client_type();
    let req = Request::new(method, base.as_str(), path);
    let req = req.with_header_map(headers);
    let req = req.with_body(body);
    (ct, req)
}

/// What a scheme request for `path` becomes given what reading the settings
/// gave: 500 when they could not be read, otherwise `proxy_request_for`.
pub fn proxy_request_from(
    settings: Result<NetworkSettings, AppError>,
    path: &str,
    method: HttpMethod,
    headers: HeaderMap,
    body: Vec<u8>,
    ipv6_reachable: bool,
) -> (r: Result<(ClientType, Request), u16>)
    ensures
        settings is Err ==> r == Err::<(ClientType, Request), u16>(500),
        settings matches Ok(s) ==> (r matches Ok((ct, req)) && proxy_request_spec(
            s,
            path@,
            method,
            header_entries(headers),
            body@,
            ipv6_reachable,
            ct,
            req,
        )),
{
    match settings {
        Ok(s) => Ok(proxy_request_for(&s, path, method, headers, body, ipv6_reachable)),
        Err(_) => Err(500),
    }
}


/// The first value of each header of `e`.
pub open spec fn first_values(e: Map<Seq<char>, Seq<Seq<u8>>>) -> Map<Seq<char>, Seq<Seq<u8>>> {
    Map::new(|k: Seq<char>| e.contains_key(k), |k: Seq<char>| e[k].take(1))
}

/// `h` with `value` added after the values of header `key`, when both are
/// valid (what adding a header to a reply does).
pub open spec fn appended_header_spec(h: Map<Seq<char>, Seq<Seq<u8>>>, key: Seq<char>, value: Seq<char>) -> Map<
    Seq<char>,
    Seq<Seq<u8>>,
> {
    if valid_header_value(value) && valid_header_name(key) {
        h.insert(ascii_lower_seq(key), header_values(h, ascii_lower_seq(key)).push(encode_utf8(value)))
    } else {
        h
    }
}

/// `h` with the headers `ps` added in order.
pub open spec fn appended_headers(h: Map<Seq<char>, Seq<Seq<u8>>>, ps: Seq<(Seq<char>, Seq<char>)>) -> Map<
    Seq<char>,
    Seq<Seq<u8>>,
>
    decreases ps.len(),
{
    if ps.len() == 0 {
        h
    } else {
        appended_header_spec(appended_headers(h, ps.drop_last()), ps.last().0, ps.last().1)
    }
}

/// The headers of the reply to a proxied request whose answer from the
/// server had status `status`, headers `server` and a body of `body_len`
/// bytes: the first value of each of the server's headers, then the
/// success headers of `extra_reply_headers`.
pub open spec fn proxy_reply_spec(server: Map<Seq<char>, Seq<Seq<u8>>>, status: u16, body_len: nat) -> Map<
    Seq<char>,
    Seq<Seq<u8>>,
> {
    appended_headers(first_values(server), extra_reply_headers(status, body_len))
}

/// The first value of each of the server's headers, the headers a reply to
/// the user interface takes over from the server's answer.
pub fn first_header_values(server: &HeaderMap) -> (r: HeaderMap)
    requires
        header_entries(*server).dom().len() < 6554,
    ensures
        header_entries(r) == first_values(header_entries(*server)),
        header_entries(r).dom().finite(),
        header_entries(r).dom().len() == header_entries(*server).dom().len(),
{
    let ghost e = header_entries(*server);
    let mut names = header_map_keys(server);
    let ghost all = names@;
    let mut out = header_map_new();
    assert(header_entries(out).dom() =~= Set::<Seq<char>>::empty());
    let mut i: usize = 0;
    while names.len() > 0
        invariant
            e == header_entries(*server),
            e.dom().len() < 6554,
            all.len() == e.dom().len(),
            forall|a: int| 0 <= a < all.len() ==> e.contains_key(#[trigger] header_name_text(all[a])),
            forall|a: int, b: int|
                0 <= a < b < all.len() ==> header_name_text(#[trigger] all[a]) != header_name_text(#[trigger] all[b]),
            forall|k: Seq<char>| e.contains_key(k) ==> exists|a: int| 0 <= a < all.len() && #[trigger] header_name_text(all[a]) == k,
            i + names.len() == all.len(),
            names@ == all.subrange(i as int, all.len() as int),
            header_entries(out).dom().finite(),
            header_entries(out).dom().len() == i,
            forall|k: Seq<char>|
                header_entries(out).contains_key(k) <==> exists|a: int| 0 <= a < i && #[trigger] header_name_text(all[a]) == k,
            forall|a: int|
                0 <= a < i ==> header_entries(out)[#[trigger] header_name_text(all[a])] == e[header_name_text(all[a])].take(1),
        decreases names.len(),
    {
        let name = names.remove(0);
        assert(name == all[i as int]);
        let ghost k = header_name_text(name);
        assert(!header_entries(out).contains_key(k)) by {
            if header_entries(out).contains_key(k) {
                let a = choose|a: int| 0 <= a < i && #[trigger] header_name_text(all[a]) == k;
                assert(header_name_text(all[a]) != header_name_text(all[i as int]));
            }
        }
        let ghost before = header_entries(out);
        match header_map_get(server, &name) {
            Some(v) => {
                assert(e[k].take(1) =~= seq![header_value_bytes(v)]);
                header_map_insert(&mut out, name, v);
            },
            None => {
                assert(false);
            },
        }
        proof {
            assert forall|k2: Seq<char>|
                header_entries(out).contains_key(k2) implies exists|a: int| 0 <= a < i + 1 && #[trigger] header_name_text(all[a]) == k2 by {
                if k2 == k {
                    assert(header_name_text(all[i as int]) == k2);
                } else {
                    assert(before.contains_key(k2));
                }
            }
            assert forall|a: int| 0 <= a < i + 1 implies header_entries(out)[#[trigger] header_name_text(all[a])]
                == e[header_name_text(all[a])].take(1) by {
                if a < i {
                    assert(header_name_text(all[a]) != k);
                }
            }
        }
        i = i + 1;
    }
    proof {
        assert forall|k: Seq<char>| e.contains_key(k) implies header_entries(out).contains_key(k) by {
            let a = choose|a: int| 0 <= a < all.len() && #[trigger] header_name_text(all[a]) == k;
        }
        assert(header_entries(out) =~= first_values(e));
    }
    out
}


/// The headers of the reply to the user interface for a proxied request
/// whose answer from the server had status `status`, headers `server` and a
/// body of `body_len` bytes: the first value of each of the server's
/// headers, then, for a success status, the content type and length.
pub fn proxy_reply_headers(server: &HeaderMap, status: u16, body_len: usize) -> (r: HeaderMap)
    requires
        header_entries(*server).dom().len() < 6552,
    ensures
        header_entries(r) == proxy_reply_spec(header_entries(*server), status, body_len as nat),
{
    let mut out = first_header_values(server);
    let extra = proxy_extra_headers(status, body_len);
    let ghost ps = pair_texts(extra@);
    let ghost start = header_entries(out);
    let mut i: usize = 0;
    assert(ps.take(0) =~= Seq::<(Seq<char>, Seq<char>)>::empty());
    assert(ps.len() == extra.len());
    while i < extra.len()
        invariant
            ps == pair_texts(extra@),
            ps == extra_reply_headers(status, body_len as nat),
            extra.len() <= 2,
            i <= extra.len(),
            start.dom().len() < 6552,
            header_entries(out) == appended_headers(start, ps.take(i as int)),
            header_entries(out).dom().finite(),
            header_entries(out).dom().len() <= start.dom().len() + i,
        decreases extra.len() - i,
    {
        let key = extra[i].0.as_str();
        let value = extra[i].1.as_str();
        assert(key@ == ps[i as int].0 && value@ == ps[i as int].1);
        match (parse_header_name(key), parse_header_value(value)) {
            (Some(n), Ok(v)) => {
                header_map_append(&mut out, n, v);
            },
            _ => {},
        }
        assert(ps.take(i + 1).drop_last() =~= ps.take(i as int));
        i = i + 1;
    }
    assert(ps.take(i as int) =~= ps);
    out
}

/// The API headers name at most two headers.
proof fn lemma_api_header_count(base: Seq<char>, token: Option<(Seq<char>, Seq<char>, Seq<char>, Seq<char>)>)
    ensures
        host_headers(base).dom().len() <= 1,
        token matches Some(t) ==> authorized_headers(base, t.0).dom().len() <= 2,
{
    assert(no_headers().dom() =~= Set::<Seq<char>>::empty());
    if let Some(t) = token {
        assert(authorized_headers(base, t.0).dom().len() <= host_headers(base).dom().len() + 1);
    }
}

/// Whether the headers `m` leave room for what a proxied request or reply
/// adds to them: fewer than 6552 names, so that no header map built from
/// them can outgrow its maximum size.
pub fn headers_fit(m: &HeaderMap) -> (r: bool)
    ensures
        r == (header_entries(*m).dom().len() < 6552),
{
    header_map_keys_len(m) < 6552
}

/// Where answering a scheme request can fail, past its address.
#[derive(Debug, Clone, Copy, PartialEq, Eq)]
pub enum ProxyFailure {
    /// The scheme request, or the server's reply, has too many header names
    /// for its headers to be carried (see `headers_fit`).
    TooManyHeaders,
    /// No client of the needed kind is available.
    NoClient,
    /// Sending the request failed.
    SendFailed,
    /// The reply carried no body (when the body is read as it streams in).
    NoBody,
    /// The reply's body could not be read.
    BodyUnreadable,
}

/// The status a scheme request is answered with when it fails at `f`: 204
/// for a reply without a body, 500 otherwise.
pub fn proxy_failure_status(f: ProxyFailure) -> (r: u16)
    ensures
        r == (if f == ProxyFailure::NoBody {
            204u16
        } else {
            500u16
        }),
{
    match f {
        ProxyFailure::NoBody => 204,
        _ => 500,
    }
}

} // verus!
