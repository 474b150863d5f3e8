//! Requests to a site: its API address with the account's credentials.
use vstd::prelude::*;
use vstd::string::*;

use crate::hc::request::{no_headers, with_header_spec, HttpMethod, Request};
use crate::hc::url::{api_query_url, get_api_query_url};
use crate::proto::settings::HttpVersion;

verus! {

/// A server, the credentials sent to it and the HTTP version it is spoken to
/// in.
pub struct Site {
    pub token: String,
    pub addr: String,
    pub version: HttpVersion,
}

/// Whether `r` is a request of `method` to `url` carrying `token` as its
/// `authorization` header and no body.
pub open spec fn site_request(r: Request, method: HttpMethod, url: Seq<char>, token: Seq<char>) -> bool {
    &&& r.spec_method() == method
    &&& r.spec_url() == url
    &&& r.spec_headers() == with_header_spec(no_headers(), "authorization"@, token)
    &&& r.spec_body() is None
}

impl Site {
    /// Whether requests go out over HTTP/3 first (falling back to a plain
    /// client when no HTTP/3 client can be had).
    pub fn prefers_h3(&self) -> (r: bool)
        ensures
            r == (self.version == HttpVersion::Http3),
    {
        match self.version {
            HttpVersion::Http3 => true,
            _ => false,
        }
    }

    /// A request of `method` to the API `path` on the site (or, when `peer`
    /// is given, on that address, the peer an HTTP/3 client reaches), with
    /// the form-encoded `query` when one is given.
    fn api_request(&self, peer: Option<&str>, method: HttpMethod, path: &str, query: Option<&str>) -> (r: Request)
        ensures
            site_request(
                r,
                method,
                api_query_url(
                    match peer {
                        Some(p) => p@,
                        None => self.addr@,
                    },
                    path@,
                    match query {
                        Some(q) => Some(q@),
                        None => None,
                    },
                ),
                self.token@,
            ),
    {
        let addr = match peer {
            Some(p) => p,
            None => self.addr.as_str(),
        };
        let url = get_api_query_url(addr, path, query);
        let req = Request::new(method, url.as_str(), "");
        proof {
            reveal_strlit("");
        }
        assert(req.spec_url() =~= url@);
        assert(req.spec_headers() =~= no_headers());
        req.with_header("authorization", self.token.as_str())
    }

    /// A request of `method` to the API `path` on the site.
    pub fn build(&self, method: HttpMethod, path: &str) -> (r: Request)
        ensures
            site_request(r, method, api_query_url(self.addr@, path@, None), self.token@),
    {
        self.api_request(None, method, path, None)
    }

    /// A request of `method` to the API `path` on the peer at `addr` that an
    /// HTTP/3 client reaches.
    pub fn h3_build(&self, addr: &str, method: HttpMethod, path: &str) -> (r: Request)
        ensures
            site_request(r, method, api_query_url(addr@, path@, None), self.token@),
    {
        self.api_request(Some(addr), method, path, None)
    }

    /// A request of `method` to the API `path` on the site with the
    /// form-encoded query `query`.
    pub fn build_query(&self, method: HttpMethod, path: &str, query: &str) -> (r: Request)
        ensures
            site_request(r, method, api_query_url(self.addr@, path@, Some(query@)), self.token@),
    {
        self.api_request(None, method, path, Some(query))
    }
}

} // verus!
