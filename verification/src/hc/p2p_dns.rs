//! Resolving the server's name to the peer the signal server points at.
use vstd::prelude::*;

use crate::signal::{default_stun_addrs, texts, SignalClient};

verus! {

/// Looks up the peer through the signal server, remembering what it found.
#[derive(Debug, Clone)]
pub struct SignalResolver {
    signal_url: String,
    local_port: u16,
    stun_addrs: Option<Vec<String>>,
    addrs: Option<Vec<String>>,
}

/// The texts of an optional list of strings.
pub open spec fn opt_texts(v: Option<Vec<String>>) -> Option<Seq<Seq<char>>> {
    match v {
        Some(l) => Some(texts(l@)),
        None => None,
    }
}

/// What a lookup in a resolver gives: the remembered addresses, or the
/// signal client that is to find the peer.
pub enum Lookup {
    /// The addresses found before.
    Known(Vec<String>),
    /// Ask the signal server through this client.
    Ask(SignalClient),
}

impl SignalResolver {
    /// The signal server's address.
    pub closed spec fn spec_signal_url(&self) -> Seq<char> {
        self.signal_url@
    }

    /// The local port punches go out from.
    pub closed spec fn spec_local_port(&self) -> u16 {
        self.local_port
    }

    /// The STUN servers to ask, when not the default ones.
    pub closed spec fn spec_stun_addrs(&self) -> Option<Seq<Seq<char>>> {
        opt_texts(self.stun_addrs)
    }

    /// The addresses found before, if any.
    pub closed spec fn spec_addrs(&self) -> Option<Seq<Seq<char>>> {
        opt_texts(self.addrs)
    }

    /// A resolver for the signal server at `signal_url` that punches from
    /// `local_port`, knowing no address yet.
    pub fn new(signal_url: &str, local_port: u16, stun_addrs: Option<Vec<String>>) -> (r: SignalResolver)
        ensures
            r.spec_signal_url() == signal_url@,
            r.spec_local_port() == local_port,
            r.spec_stun_addrs() == opt_texts(stun_addrs),
            r.spec_addrs() is None,
    {
        SignalResolver { signal_url: String::from_str(signal_url), local_port, stun_addrs, addrs: None }
    }

    /// The local port punches go out from.
    pub fn local_port(&self) -> (r: u16)
        ensures
            r == self.spec_local_port(),
    {
        self.local_port
    }

    /// The remembered addresses when there are any; otherwise a signal client
    /// for the resolver's signal server and STUN servers.
    pub fn lookup(&self) -> (r: Lookup)
        ensures
            match self.spec_addrs() {
                Some(a) => r matches Lookup::Known(v) && texts(v@) == a,
                None => r matches Lookup::Ask(c) && c.spec_signal_url() == self.spec_signal_url()
                    && c.spec_stun_addrs() == match self.spec_stun_addrs() {
                    Some(s) => s,
                    None => default_stun_addrs(),
                },
            },
    {
        match &self.addrs {
            Some(a) => Lookup::Known(clone_texts(a)),
            None => {
                let stun = match &self.stun_addrs {
                    Some(s) => Some(clone_texts(s)),
                    None => None,
                };
                Lookup::Ask(SignalClient::new(self.signal_url.as_str(), stun))
            },
        }
    }

    /// Forgets the addresses found before.
    pub fn reset(&mut self)
        ensures
            final(self).spec_addrs() is None,
            final(self).spec_signal_url() == old(self).spec_signal_url(),
            final(self).spec_local_port() == old(self).spec_local_port(),
            final(self).spec_stun_addrs() == old(self).spec_stun_addrs(),
    {
        self.addrs = None;
    }
}

/// A copy of a list of strings.
fn clone_texts(v: &Vec<String>) -> (r: Vec<String>)
    ensures
        texts(r@) == texts(v@),
{
    let mut r: Vec<String> = Vec::new();
    let mut i: usize = 0;
    while i < v.len()
        invariant
            i <= v.len(),
            texts(r@) == texts(v@.take(i as int)),
        decreases v.len() - i,
    {
        r.push(v[i].clone());
        assert(texts(v@.take(i + 1)) =~= texts(v@.take(i as int)).push(v@[i as int]@));
        assert(texts(r@) =~= texts(v@.take(i as int)).push(v@[i as int]@));
        i = i + 1;
    }
    assert(v@.take(v.len() as int) =~= v@);
    r
}

} // verus!
