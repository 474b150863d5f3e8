//! A pool of peer-bound clients that go stale after a time without use.
//!
//! Times are milliseconds on a monotonic clock the caller reads; a client
//! last used at `t` is stale once `max_idle_time` has passed since `t`.
use std::collections::VecDeque;
use vstd::prelude::*;

use crate::hc::url::{api_query_url, get_api_query_url};

verus! {

/// The time from `since` to `now`; zero when `now` is earlier (the clock
/// never runs backwards, and `Instant::elapsed` saturates).
pub open spec fn elapsed(now: u64, since: u64) -> nat {
    if now >= since {
        (now - since) as nat
    } else {
        0
    }
}

/// A client, the peer address it reaches and when it was last used.
pub struct ClientWrapper<C> {
    pub client: C,
    pub addr: String,
    pub last_active: u64,
}

impl<C> ClientWrapper<C> {
    /// Wraps `client`, which reaches the server at `addr`, as used at `now`.
    pub fn new(client: C, addr: String, now: u64) -> (r: ClientWrapper<C>)
        ensures
            r.client == client,
            r.addr == addr,
            r.last_active == now,
    {
        ClientWrapper { client, addr, last_active: now }
    }

    /// The address of a GET of the API `path`, with the form-encoded `query`
    /// when one is given, on the peer this client reaches.
    pub fn get(&self, path: &str, query: Option<&str>) -> (r: String)
        ensures
            r@ == api_query_url(
                self.addr@,
                path@,
                match query {
                    Some(q) => Some(q@),
                    None => None,
                },
            ),
    {
        get_api_query_url(self.addr.as_str(), path, query)
    }
}

/// Whether `w` is still usable at `now`.
pub open spec fn is_fresh<C>(w: ClientWrapper<C>, now: u64, max_idle_time: u64) -> bool {
    elapsed(now, w.last_active) < max_idle_time
}

/// What taking a usable client from `pool` at `now` gives: the first fresh
/// client, and the pool without it and without the stale ones before it.
pub open spec fn take_fresh<C>(pool: Seq<ClientWrapper<C>>, now: u64, max_idle_time: u64) -> (
    Option<ClientWrapper<C>>,
    Seq<ClientWrapper<C>>,
)
    decreases pool.len(),
{
    if pool.len() == 0 {
        (None, pool)
    } else if is_fresh(pool[0], now, max_idle_time) {
        (Some(pool[0]), pool.drop_first())
    } else {
        take_fresh(pool.drop_first(), now, max_idle_time)
    }
}

/// Freshness at `now` as a predicate on clients.
pub open spec fn fresh_at<C>(now: u64, max_idle_time: u64) -> spec_fn(ClientWrapper<C>) -> bool {
    |w: ClientWrapper<C>| is_fresh(w, now, max_idle_time)
}

/// The clients of `pool` still fresh at `now`, in order.
pub open spec fn fresh_only<C>(pool: Seq<ClientWrapper<C>>, now: u64, max_idle_time: u64) -> Seq<
    ClientWrapper<C>,
> {
    pool.filter(fresh_at(now, max_idle_time))
}

/// Whether a client last used at `last_active` is still usable at `now`.
fn still_fresh(last_active: u64, now: u64, max_idle_time: u64) -> (r: bool)
    ensures
        r == (elapsed(now, last_active) < max_idle_time),
{
    if now >= last_active {
        now - last_active < max_idle_time
    } else {
        0 < max_idle_time
    }
}

/// A pool of peer-bound clients. At most `max_size` clients are ever built
/// for it: building one takes a permit, and permits are not given back.
pub struct ClientPool<C> {
    signal_url: String,
    pool: VecDeque<ClientWrapper<C>>,
    max_idle_time: u64,
    permits: usize,
}

/// What asking the pool for a client gives.
pub enum GetClient<C> {
    /// A pooled client that is still fresh.
    Pooled(ClientWrapper<C>),
    /// None is pooled and a permit is left: build one through the signal
    /// server and register it.
    Build,
    /// None is pooled and no permit is left: the request waits for good.
    Wait,
}

impl<C> ClientPool<C> {
    /// The pooled clients, oldest first.
    pub closed spec fn view(&self) -> Seq<ClientWrapper<C>> {
        self.pool@
    }

    /// How long a client may go unused.
    pub closed spec fn spec_max_idle_time(&self) -> u64 {
        self.max_idle_time
    }

    /// How many more clients may be built.
    pub closed spec fn spec_permits(&self) -> nat {
        self.permits as nat
    }

    /// The signal server new clients are found through.
    pub closed spec fn spec_signal_url(&self) -> Seq<char> {
        self.signal_url@
    }

    /// An empty pool for the signal server at `signal_url` that builds at
    /// most `max_size` clients, each usable for `max_idle_time`.
    pub fn new(signal_url: &str, max_size: usize, max_idle_time: u64) -> (r: ClientPool<C>)
        ensures
            r.view() == Seq::<ClientWrapper<C>>::empty(),
            r.spec_max_idle_time() == max_idle_time,
            r.spec_permits() == max_size,
            r.spec_signal_url() == signal_url@,
    {
        ClientPool {
            signal_url: String::from_str(signal_url),
            pool: VecDeque::with_capacity(max_size),
            max_idle_time,
            permits: max_size,
        }
    }

    /// The signal server new clients are found through.
    pub fn signal_url(&self) -> (r: &String)
        ensures
            r@ == self.spec_signal_url(),
    {
        &self.signal_url
    }

    /// How many more clients may be built.
    pub fn permits(&self) -> (r: usize)
        ensures
            r == self.spec_permits(),
    {
        self.permits
    }

    /// Takes the first pooled client still fresh at `now`, dropping the stale
    /// ones in front of it.
    pub fn try_get_valid_client(&mut self, now: u64) -> (r: Option<ClientWrapper<C>>)
        ensures
            (r, final(self).view()) == take_fresh(old(self).view(), now, old(self).spec_max_idle_time()),
            final(self).spec_max_idle_time() == old(self).spec_max_idle_time(),
            final(self).spec_permits() == old(self).spec_permits(),
            final(self).spec_signal_url() == old(self).spec_signal_url(),
    {
        let ghost start = self.pool@;
        loop
            invariant
                take_fresh(start, now, self.max_idle_time) == take_fresh(
                    self.pool@,
                    now,
                    self.max_idle_time,
                ),
                self.max_idle_time == old(self).max_idle_time,
                self.permits == old(self).permits,
                self.signal_url == old(self).signal_url,
                start == old(self).pool@,
            decreases self.pool@.len(),
        {
            let ghost before = self.pool@;
            match self.pool.pop_front() {
                None => {
                    return None;
                },
                Some(w) => {
                    assert(before.drop_first() =~= self.pool@);
                    assert(w == before[0]);
                    if still_fresh(w.last_active, now, self.max_idle_time) {
                        return Some(w);
                    }
                },
            }
        }
    }

    /// Hands out a client fresh at `now`, or says whether one may be built.
    pub fn get_client(&mut self, now: u64) -> (r: GetClient<C>)
        ensures
            final(self).view() == take_fresh(old(self).view(), now, old(self).spec_max_idle_time()).1,
            final(self).spec_max_idle_time() == old(self).spec_max_idle_time(),
            final(self).spec_permits() == old(self).spec_permits(),
            final(self).spec_signal_url() == old(self).spec_signal_url(),
            match take_fresh(old(self).view(), now, old(self).spec_max_idle_time()).0 {
                Some(w) => r == GetClient::Pooled(w),
                None => if old(self).spec_permits() > 0 {
                    r is Build
                } else {
                    r is Wait
                },
            },
    {
        match self.try_get_valid_client(now) {
            Some(w) => GetClient::Pooled(w),
            None => if self.permits > 0 {
                GetClient::Build
            } else {
                GetClient::Wait
            },
        }
    }

    /// Pools a newly built client, which reaches the server at `addr`, as
    /// used at `now`; it uses up a permit.
    pub fn register_client(&mut self, client: C, addr: String, now: u64)
        requires
            old(self).spec_permits() > 0,
        ensures
            final(self).view() == old(self).view().push(
                ClientWrapper { client, addr, last_active: now },
            ),
            final(self).spec_permits() == old(self).spec_permits() - 1,
            final(self).spec_max_idle_time() == old(self).spec_max_idle_time(),
            final(self).spec_signal_url() == old(self).spec_signal_url(),
    {
        self.pool.push_back(ClientWrapper { client, addr, last_active: now });
        self.permits = self.permits - 1;
    }

    /// Returns `client` to the pool when it is still fresh at `now`; a stale
    /// one is dropped.
    pub fn put_client(&mut self, client: ClientWrapper<C>, now: u64)
        ensures
            final(self).view() == if is_fresh(client, now, old(self).spec_max_idle_time()) {
                old(self).view().push(client)
            } else {
                old(self).view()
            },
            final(self).spec_max_idle_time() == old(self).spec_max_idle_time(),
            final(self).spec_permits() == old(self).spec_permits(),
            final(self).spec_signal_url() == old(self).spec_signal_url(),
    {
        if still_fresh(client.last_active, now, self.max_idle_time) {
            self.pool.push_back(client);
        }
    }

    /// Drops every pooled client that is stale at `now`, keeping the others in
    /// order.
    pub fn remove_expired(&mut self, now: u64)
        ensures
            final(self).view() == fresh_only(old(self).view(), now, old(self).spec_max_idle_time()),
            final(self).spec_max_idle_time() == old(self).spec_max_idle_time(),
            final(self).spec_permits() == old(self).spec_permits(),
            final(self).spec_signal_url() == old(self).spec_signal_url(),
    {
        let ghost start = self.pool@;
        let ghost keep = fresh_at::<C>(now, self.max_idle_time);
        let n = self.pool.len();
        let mut kept: VecDeque<ClientWrapper<C>> = VecDeque::new();
        let mut i: usize = 0;
        while i < n
            invariant
                i <= n,
                n == start.len(),
                self.pool@ == start.skip(i as int),
                kept@ == start.take(i as int).filter(keep),
                keep == fresh_at::<C>(now, self.max_idle_time),
                self.max_idle_time == old(self).max_idle_time,
                self.permits == old(self).permits,
                self.signal_url == old(self).signal_url,
                start == old(self).pool@,
            decreases n - i,
        {
            let ghost before = self.pool@;
            let w = self.pool.pop_front().unwrap();
            proof {
                assert(before[0] == start[i as int]);
                assert(start.take(i + 1) =~= start.take(i as int).push(start[i as int]));
                start.take(i as int).lemma_filter_push(start[i as int], keep);
                assert(before.drop_first() =~= start.skip(i + 1));
            }
            assert(w == start[i as int]);
            if still_fresh(w.last_active, now, self.max_idle_time) {
                kept.push_back(w);
            }
            i = i + 1;
        }
        assert(start.take(n as int) =~= start);
        assert(kept@ == start.filter(keep));
        self.pool = kept;
        assert(self.pool@ == fresh_only(start, now, self.max_idle_time));
    }
}

} // verus!
