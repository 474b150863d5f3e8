//! A bounded pool of HTTP clients handed out first in, first out.
use std::collections::VecDeque;
use vstd::prelude::*;

verus! {

/// reqwest's asynchronous HTTP client.
#[verifier::external_type_specification]
#[verifier::external_body]
pub struct ExReqwestClient(reqwest::Client);

/// An HTTP client and, for a client bound to one peer, that peer's address.
pub struct HttpClient {
    client: reqwest::Client,
    addr: Option<String>,
}

impl HttpClient {
    /// The peer address the client is bound to, if any.
    pub closed spec fn spec_addr(&self) -> Option<Seq<char>> {
        match self.addr {
            Some(a) => Some(a@),
            None => None,
        }
    }

    /// The reqwest client.
    pub closed spec fn spec_client(&self) -> reqwest::Client {
        self.client
    }

    /// Wraps `client`, bound to the peer at `addr` when one is given (the
    /// socket address as text).
    pub fn new(client: reqwest::Client, addr: Option<String>) -> (r: HttpClient)
        ensures
            r.spec_addr() == match addr {
                Some(a) => Some(a@),
                None => None::<Seq<char>>,
            },
            r.spec_client() == client,
    {
        HttpClient { client, addr }
    }

    /// The peer address the client is bound to, if any.
    pub fn get_addr(&self) -> (r: Option<String>)
        ensures
            match r {
                Some(a) => self.spec_addr() == Some(a@),
                None => self.spec_addr() is None,
            },
    {
        match &self.addr {
            Some(a) => Some(a.clone()),
            None => None,
        }
    }

    /// The reqwest client.
    pub fn client(&self) -> (r: &reqwest::Client)
        ensures
            *r == self.spec_client(),
    {
        &self.client
    }
}

/// A pool of clients holding at most `max_size` of them, oldest first.
pub struct ClientPool<C> {
    pool: VecDeque<C>,
    max_size: usize,
}

/// What asking the pool for a client gives.
pub enum PoolGet<C> {
    /// The oldest pooled client.
    Pooled(C),
    /// The pool is empty: build a new plain HTTP client.
    Build,
    /// The pool is empty: build a new P2P client (find the peer through the
    /// signal server, then connect to it).
    BuildPeer,
}

/// The pool after `client` is returned to it: kept at the back unless the pool
/// is full.
pub open spec fn returned<C>(pool: Seq<C>, max_size: nat, client: C) -> Seq<C> {
    if pool.len() < max_size {
        pool.push(client)
    } else {
        pool
    }
}

impl<C> ClientPool<C> {
    /// The pooled clients, oldest first.
    pub closed spec fn view(&self) -> Seq<C> {
        self.pool@
    }

    /// The most clients the pool keeps.
    pub closed spec fn max_size(&self) -> nat {
        self.max_size as nat
    }

    /// The pool never holds more than its maximum.
    pub open spec fn wf(&self) -> bool {
        self.view().len() <= self.max_size()
    }

    /// An empty pool that keeps at most `max_size` clients.
    pub fn new(max_size: usize) -> (r: ClientPool<C>)
        ensures
            r.wf(),
            r.view() == Seq::<C>::empty(),
            r.max_size() == max_size,
    {
        ClientPool { pool: VecDeque::with_capacity(max_size), max_size }
    }

    /// Takes the oldest pooled client; when there is none, says which kind of
    /// new client is to be built: a P2P one when `p2p` is set, a plain one
    /// otherwise.
    pub fn get(&mut self, p2p: bool) -> (r: PoolGet<C>)
        requires
            old(self).wf(),
        ensures
            final(self).wf(),
            final(self).max_size() == old(self).max_size(),
            old(self).view().len() > 0 ==> r == PoolGet::Pooled(old(self).view()[0])
                && final(self).view() == old(self).view().drop_first(),
            old(self).view().len() == 0 ==> final(self).view() == old(self).view() && (if p2p {
                r is BuildPeer
            } else {
                r is Build
            }),
    {
        match self.pool.pop_front() {
            Some(c) => PoolGet::Pooled(c),
            None => if p2p {
                PoolGet::BuildPeer
            } else {
                PoolGet::Build
            },
        }
    }

    /// Returns `client` to the pool; a full pool drops it.
    pub fn put(&mut self, client: C)
        requires
            old(self).wf(),
        ensures
            final(self).wf(),
            final(self).max_size() == old(self).max_size(),
            final(self).view() == returned(old(self).view(), old(self).max_size(), client),
    {
        if self.pool.len() < self.max_size {
            self.pool.push_back(client);
        }
    }
}

} // verus!
