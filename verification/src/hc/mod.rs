//! Building the requests the client sends and holding the replies it gets.
pub mod builder;
pub mod h3;
pub mod http_client_manager;
pub mod p2p_dns;
pub mod pool;
pub mod request;
pub mod url;

use http::HeaderMap;
use vstd::prelude::*;

verus! {

/// A reply: status code, headers and the data its body carried.
pub struct Response<T> {
    status: u16,
    headers: HeaderMap,
    data: T,
}

impl<T> Response<T> {
    /// The status code.
    pub closed spec fn spec_status(&self) -> u16 {
        self.status
    }

    /// The headers.
    pub closed spec fn spec_headers(&self) -> HeaderMap {
        self.headers
    }

    /// The data.
    pub closed spec fn spec_data(&self) -> T {
        self.data
    }

    /// A reply with `status`, `headers` and `data`.
    pub fn new(status: u16, headers: HeaderMap, data: T) -> (r: Response<T>)
        ensures
            r.spec_status() == status,
            r.spec_headers() == headers,
            r.spec_data() == data,
    {
        Response { status, headers, data }
    }

    /// The status code.
    pub fn status(&self) -> (r: u16)
        ensures
            r == self.spec_status(),
    {
        self.status
    }

    /// The headers.
    pub fn headers(&self) -> (r: &HeaderMap)
        ensures
            *r == self.spec_headers(),
    {
        &self.headers
    }

    /// The data.
    pub fn data(&self) -> (r: &T)
        ensures
            *r == self.spec_data(),
    {
        &self.data
    }

    /// The data, consuming the reply.
    pub fn into_data(self) -> (r: T)
        ensures
            r == self.spec_data(),
    {
        self.data
    }
}

} // verus!
