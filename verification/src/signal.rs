//! Finding the peer to punch a UDP hole to: ask STUN servers, one after the
//! other, for the device's public address, then tell the signal server that
//! address and read back the peer's.
//!
//! The network work is the caller's: `SignalClient::start` and
//! `SignalClient::step` say what to do next, and the caller reports what came
//! of it.
use vstd::prelude::*;

use crate::text::concat2;

verus! {

/// The body posted to the signal server: the device's public address.
#[derive(Debug, Clone)]
pub struct AddrReq {
    pub addr: String,
}

/// The STUN servers asked when none are given.
pub open spec fn default_stun_addrs() -> Seq<Seq<char>> {
    seq![
        "stun.miwifi.com:3478"@,
        "stun.chat.bilibili.com:3478"@,
        "turn.cloudflare.com:3478"@,
        "fwa.lifesizecloud.com:3478"@,
        "stun.isp.net.au:3478"@,
        "stun.voipbusterpro.com:3478"@,
        "stun.freeswitch.org:3478"@,
        "stun.nextcloud.com:3478"@,
        "stun.l.google.com:19302"@,
        "stun.sipnet.com:3478"@,
    ]
}

/// The texts of a list of strings.
pub open spec fn texts(v: Seq<String>) -> Seq<Seq<char>> {
    v.map_values(|s: String| s@)
}

/// The error when no STUN server gives a public address.
pub open spec fn all_failed_text() -> Seq<char> {
    "get all pub addr fail"@
}

/// The error when the signal server's reply is not a socket address.
pub open spec fn bad_reply_text(reply: Seq<char>, error: Seq<char>) -> Seq<char> {
    "resp: "@ + reply + ", err: "@ + error
}

/// The STUN servers to ask, in order, and the signal server's address.
pub struct SignalClient {
    stun_addrs: Vec<String>,
    signal_url: String,
}

/// Where a search stands: the index of the STUN server being asked and, once
/// one answered, the local and public addresses it reported.
#[derive(Debug, Clone)]
pub struct SignalState {
    pub next: usize,
    pub found: Option<(String, String)>,
}

/// What came of the last action.
#[derive(Debug)]
pub enum SignalEvent {
    /// The STUN server answered: the local socket's address and the public one.
    Answered { local: String, public: String },
    /// The STUN server could not be reached or gave no address.
    Unanswered,
    /// The signal server replied `text`; `peer` is the socket address it
    /// holds, or the text of the error parsing it gave.
    Replied { text: String, peer: Result<String, String> },
    /// Posting to the signal server, or reading its reply, failed.
    PostFailed(String),
}

/// What to do next.
#[derive(Debug)]
pub enum SignalAction {
    /// Ask the STUN server at this address for the public address.
    Query(String),
    /// Post `body` as JSON to the signal server at `url`.
    Post { url: String, body: AddrReq },
    /// Stop: local, public and peer address, or why none was found.
    Done(Result<(String, String, String), String>),
}

/// Whether `a` is the action that ends the search with the error `text`.
pub open spec fn fails_with(a: SignalAction, text: Seq<char>) -> bool {
    a matches SignalAction::Done(Err(m)) && m@ == text
}

/// Whether `a` asks the STUN server `addr`.
pub open spec fn queries(a: SignalAction, addr: Seq<char>) -> bool {
    a matches SignalAction::Query(q) && q@ == addr
}

impl SignalClient {
    /// The STUN servers, in the order they are asked.
    pub closed spec fn spec_stun_addrs(&self) -> Seq<Seq<char>> {
        texts(self.stun_addrs@)
    }

    /// The signal server's address.
    pub closed spec fn spec_signal_url(&self) -> Seq<char> {
        self.signal_url@
    }

    /// A client for the signal server at `signal_url` that asks `stun_addrs`,
    /// or the default STUN servers when none are given.
    pub fn new(signal_url: &str, stun_addrs: Option<Vec<String>>) -> (r: SignalClient)
        ensures
            r.spec_signal_url() == signal_url@,
            r.spec_stun_addrs() == match stun_addrs {
                Some(v) => texts(v@),
                None => default_stun_addrs(),
            },
    {
        if let Some(stun_addrs) = stun_addrs {
            return SignalClient { signal_url: String::from_str(signal_url), stun_addrs };
        }
        let stun_addrs = vec![
            String::from_str("stun.miwifi.com:3478"),
            String::from_str("stun.chat.bilibili.com:3478"),
            String::from_str("turn.cloudflare.com:3478"),
            String::from_str("fwa.lifesizecloud.com:3478"),
            String::from_str("stun.isp.net.au:3478"),
            String::from_str("stun.voipbusterpro.com:3478"),
            String::from_str("stun.freeswitch.org:3478"),
            String::from_str("stun.nextcloud.com:3478"),
            String::from_str("stun.l.google.com:19302"),
            String::from_str("stun.sipnet.com:3478"),
        ];
        let r = SignalClient { signal_url: String::from_str(signal_url), stun_addrs };
        assert(r.spec_stun_addrs() =~= default_stun_addrs());
        r
    }

    /// The STUN servers, in the order they are asked.
    pub fn stun_addrs(&self) -> (r: &Vec<String>)
        ensures
            texts(r@) == self.spec_stun_addrs(),
    {
        &self.stun_addrs
    }

    /// The signal server's address.
    pub fn signal_url(&self) -> (r: &String)
        ensures
            r@ == self.spec_signal_url(),
    {
        &self.signal_url
    }

    /// How a search begins: by asking the first STUN server, or, when there is
    /// none, by failing.
    pub fn start(&self) -> (r: (SignalState, SignalAction))
        ensures
            self.spec_stun_addrs().len() == 0 ==> fails_with(r.1, all_failed_text()),
            self.spec_stun_addrs().len() > 0 ==> r.0.next == 0 && r.0.found is None && queries(
                r.1,
                self.spec_stun_addrs()[0],
            ),
    {
        let state = SignalState { next: 0, found: None };
        if self.stun_addrs.len() == 0 {
            return (state, SignalAction::Done(Err(String::from_str("get all pub addr fail"))));
        }
        let first = self.stun_addrs[0].clone();
        (state, SignalAction::Query(first))
    }

    /// The next step of a search in `state` after `event`. A STUN server that
    /// does not answer passes the turn to the next one, and after the last
    /// the search fails; the first that answers has its public address posted
    /// to the signal server, whose reply ends the search.
    pub fn step(&self, state: SignalState, event: SignalEvent) -> (r: (SignalState, SignalAction))
        requires
            state.next < self.spec_stun_addrs().len(),
            state.found is None <==> (event is Answered || event is Unanswered),
        ensures
            event is Unanswered && state.next + 1 < self.spec_stun_addrs().len() ==> r.0.next
                == state.next + 1 && r.0.found is None && queries(
                r.1,
                self.spec_stun_addrs()[state.next + 1],
            ),
            event is Unanswered && state.next + 1 == self.spec_stun_addrs().len() ==> fails_with(
                r.1,
                all_failed_text(),
            ),
            event matches SignalEvent::Answered { local, public } ==> {
                &&& r.0.next == state.next
                &&& r.0.found == Some((local, public))
                &&& r.1 matches SignalAction::Post { url, body } && url@ == self.spec_signal_url()
                    && body.addr@ == public@
            },
            event matches SignalEvent::PostFailed(m) ==> fails_with(r.1, m@),
            event matches SignalEvent::Replied { text, peer: Err(e) } ==> fails_with(
                r.1,
                bad_reply_text(text@, e@),
            ),
            event matches SignalEvent::Replied { peer: Ok(p), .. } ==> {
                &&& state.found is Some
                &&& r.1 matches SignalAction::Done(Ok(found)) && found.0@ == state.found.unwrap().0@
                    && found.1@ == state.found.unwrap().1@ && found.2@ == p@
            },
    {
        match event {
            SignalEvent::Unanswered => {
                let n = self.stun_addrs.len();
                assert(self.spec_stun_addrs().len() == n);
                let next = state.next + 1;
                if next < n {
                    let addr = self.stun_addrs[next].clone();
                    (SignalState { next, found: None }, SignalAction::Query(addr))
                } else {
                    (state, SignalAction::Done(Err(String::from_str("get all pub addr fail"))))
                }
            },
            SignalEvent::Answered { local, public } => {
                let body = AddrReq { addr: public.clone() };
                let url = self.signal_url.clone();
                (
                    SignalState { next: state.next, found: Some((local, public)) },
                    SignalAction::Post { url, body },
                )
            },
            SignalEvent::PostFailed(m) => (state, SignalAction::Done(Err(m))),
            SignalEvent::Replied { text, peer } => match peer {
                Ok(p) => {
                    let (local, public) = match &state.found {
                        Some(f) => (f.0.clone(), f.1.clone()),
                        None => (String::new(), String::new()),
                    };
                    (state, SignalAction::Done(Ok((local, public, p))))
                },
                Err(e) => {
                    let head = concat2("resp: ", text.as_str());
                    let tail = concat2(", err: ", e.as_str());
                    let m = concat2(head.as_str(), tail.as_str());
                    assert(m@ =~= bad_reply_text(text@, e@));
                    (state, SignalAction::Done(Err(m)))
                },
            },
        }
    }
}

} // verus!
