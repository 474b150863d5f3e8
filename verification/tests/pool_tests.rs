use crcli::client::pool::{ClientPool as PeerPool, ClientWrapper, GetClient};
use crcli::hc::p2p_dns::{Lookup, SignalResolver};
use crcli::hc::pool::{ClientPool, HttpClient, PoolGet};
use crcli::rendezvous::{HolePunch, PunchAction, PunchEvent};
use crcli::service::uploader::{content_range, ChunkedUpload, UploadStep};
use crcli::signal::{SignalAction, SignalClient, SignalEvent};

#[test]
fn pool_hands_clients_out_oldest_first() {
    let mut p: ClientPool<u32> = ClientPool::new(2);
    assert!(matches!(p.get(false), PoolGet::Build));
    assert!(matches!(p.get(true), PoolGet::BuildPeer));
    p.put(1);
    p.put(2);
    p.put(3);
    assert!(matches!(p.get(true), PoolGet::Pooled(1)));
    assert!(matches!(p.get(true), PoolGet::Pooled(2)));
    assert!(matches!(p.get(false), PoolGet::Build));
}

#[test]
fn http_client_keeps_its_peer() {
    let c = HttpClient::new(reqwest::Client::new(), Some("1.2.3.4:5".to_string()));
    assert_eq!(c.get_addr(), Some("1.2.3.4:5".to_string()));
    let c = HttpClient::new(reqwest::Client::new(), None);
    assert_eq!(c.get_addr(), None);
}

#[test]
fn stale_peer_clients_are_dropped() {
    let mut p: PeerPool<&str> = PeerPool::new("https://h/api/v4/p2p/signal", 1, 300);
    assert!(matches!(p.get_client(0), GetClient::Build));
    p.register_client("a", "1.1.1.1:1".to_string(), 0);
    assert!(matches!(p.get_client(10), GetClient::Pooled(ClientWrapper { client: "a", .. })));
    assert!(matches!(p.get_client(10), GetClient::Wait));
    p.put_client(ClientWrapper::new("b", "x".to_string(), 100), 399);
    p.put_client(ClientWrapper::new("c", "y".to_string(), 100), 400);
    assert!(matches!(p.try_get_valid_client(1000), None));
    p.put_client(ClientWrapper::new("d", "z".to_string(), 900), 1000);
    p.put_client(ClientWrapper::new("e", "z".to_string(), 1000), 1000);
    p.remove_expired(1250);
    assert!(matches!(p.try_get_valid_client(1250), Some(ClientWrapper { client: "e", .. })));
    assert_eq!(p.signal_url(), "https://h/api/v4/p2p/signal");
}

#[test]
fn peer_client_addresses() {
    let w = ClientWrapper::new((), "https://1.2.3.4:8443".to_string(), 0);
    assert_eq!(w.get("/file", Some("uri=a")), "https://1.2.3.4:8443/api/v4/file?uri=a");
    assert_eq!(w.get("/user/capacity", None), "https://1.2.3.4:8443/api/v4/user/capacity");
}

#[test]
fn signal_search_tries_servers_in_order() {
    let c = SignalClient::new("https://h/api/v4/p2p/signal", Some(vec!["s1:1".to_string(), "s2:2".to_string()]));
    let (st, a) = c.start();
    assert!(matches!(a, SignalAction::Query(ref q) if q == "s1:1"));
    let (st, a) = c.step(st, SignalEvent::Unanswered);
    assert!(matches!(a, SignalAction::Query(ref q) if q == "s2:2"));
    let (_, a) = c.step(st.clone(), SignalEvent::Unanswered);
    assert!(matches!(a, SignalAction::Done(Err(ref m)) if m == "get all pub addr fail"));
    let (st, a) = c.step(
        st,
        SignalEvent::Answered { local: "0.0.0.0:4000".to_string(), public: "8.8.8.8:4000".to_string() },
    );
    match a {
        SignalAction::Post { url, body } => {
            assert_eq!(url, "https://h/api/v4/p2p/signal");
            assert_eq!(body.addr, "8.8.8.8:4000");
        },
        other => panic!("unexpected {:?}", other),
    }
    let (_, a) = c.step(
        st.clone(),
        SignalEvent::Replied { text: "9.9.9.9:1".to_string(), peer: Ok("9.9.9.9:1".to_string()) },
    );
    match a {
        SignalAction::Done(Ok((l, p, r))) => {
            assert_eq!((l.as_str(), p.as_str(), r.as_str()), ("0.0.0.0:4000", "8.8.8.8:4000", "9.9.9.9:1"))
        },
        other => panic!("unexpected {:?}", other),
    }
    let (_, a) = c.step(
        st,
        SignalEvent::Replied { text: "oops".to_string(), peer: Err("invalid socket address syntax".to_string()) },
    );
    assert!(matches!(a, SignalAction::Done(Err(ref m)) if m == "resp: oops, err: invalid socket address syntax"));
}

#[test]
fn default_stun_servers() {
    let c = SignalClient::new("u", None);
    assert_eq!(c.stun_addrs().len(), 10);
    assert_eq!(c.stun_addrs()[0], "stun.miwifi.com:3478");
    assert_eq!(c.stun_addrs()[8], "stun.l.google.com:19302");
    assert_eq!(c.signal_url(), "u");
    let empty = SignalClient::new("u", Some(vec![]));
    assert!(matches!(empty.start().1, SignalAction::Done(Err(_))));
}

#[test]
fn resolver_asks_until_it_knows() {
    let mut r = SignalResolver::new("https://h/sig", 4000, None);
    assert_eq!(r.local_port(), 4000);
    match r.lookup() {
        Lookup::Ask(c) => {
            assert_eq!(c.signal_url(), "https://h/sig");
            assert_eq!(c.stun_addrs().len(), 10);
        },
        Lookup::Known(_) => panic!("nothing is known yet"),
    }
    r.reset();
    assert!(matches!(r.lookup(), Lookup::Ask(_)));
}

#[test]
fn hole_punch_gives_up_after_five_rounds() {
    let (mut p, a) = HolePunch::start();
    assert_eq!(a, PunchAction::SendPunch);
    let mut punches = 1;
    let mut reads = 0;
    let mut action = p.step(PunchEvent::Sent);
    loop {
        match action {
            PunchAction::TryReceive => {
                reads += 1;
                action = p.step(PunchEvent::NothingReceived);
            },
            PunchAction::Sleep => action = p.step(PunchEvent::Slept),
            PunchAction::SendPunch => {
                punches += 1;
                action = p.step(PunchEvent::Sent);
            },
            PunchAction::TimedOut => break,
            PunchAction::Punched => panic!("no answer was given"),
        }
    }
    assert_eq!((punches, reads), (5, 25));
}

#[test]
fn hole_punch_ends_on_an_answer_from_the_peer() {
    let (mut p, _) = HolePunch::start();
    assert_eq!(p.step(PunchEvent::Sent), PunchAction::TryReceive);
    assert_eq!(p.step(PunchEvent::Received { from_peer: false }), PunchAction::Sleep);
    assert_eq!(p.step(PunchEvent::Slept), PunchAction::TryReceive);
    assert_eq!(p.step(PunchEvent::Received { from_peer: true }), PunchAction::Punched);
}

#[test]
fn chunked_upload_ranges_tile_the_file() {
    assert_eq!(content_range(0, 4, 10), "bytes 0-3/10");
    let mut u = ChunkedUpload::new(10, 4);
    assert!(matches!(u.next(), UploadStep::Read(4)));
    assert!(matches!(u.on_read(4), UploadStep::Send(ref r) if r == "bytes 0-3/10"));
    assert!(matches!(u.on_sent(4, 200, "200 OK"), UploadStep::Read(4)));
    assert!(matches!(u.on_read(4), UploadStep::Send(ref r) if r == "bytes 4-7/10"));
    assert!(matches!(u.on_sent(4, 201, "201 Created"), UploadStep::Read(4)));
    assert!(matches!(u.on_read(2), UploadStep::Send(ref r) if r == "bytes 8-9/10"));
    assert!(matches!(u.on_sent(2, 200, "200 OK"), UploadStep::Finished));
    assert_eq!(u.uploaded(), 10);
}

#[test]
fn chunked_upload_stops_on_refusal_or_empty_read() {
    let mut u = ChunkedUpload::new(10, 4);
    assert!(matches!(u.on_sent(4, 413, "413 Payload Too Large"),
        UploadStep::Failed(ref m) if m == "Upload failed with status: 413 Payload Too Large"));
    assert_eq!(u.uploaded(), 0);
    assert!(matches!(u.on_read(0), UploadStep::Finished));
    let empty = ChunkedUpload::new(0, 4);
    assert!(matches!(empty.next(), UploadStep::Finished));
}
