use crcli::hc::request::HttpMethod;
use crcli::proto::error::{Ack, AppError};
use crcli::proto::login::{Group, LoginAck, Token, User};
use crcli::proto::settings::{ClientType, NetworkMode, NetworkSettings};
use crcli::state::{next_id_from, pair_from_read, settings_from_reads, token_from_reads, AppState};

fn fresh_state() -> AppState {
    let db = sled::Config::new().temporary(true).open().expect("temporary store");
    AppState::new(db)
}

fn token(expiry: &str) -> Token {
    Token {
        access_token: "acc".to_string(),
        refresh_token: "ref".to_string(),
        access_expires: expiry.to_string(),
        refresh_expires: expiry.to_string(),
    }
}

#[test]
fn new_state_is_plain_http_without_base() {
    let s = fresh_state();
    assert_eq!(s.ct, ClientType::Reqwest);
    assert_eq!(s.base_url, "");
}

#[test]
fn empty_store_reads_default_settings() {
    let s = fresh_state();
    let n = s.get_network_settings().unwrap();
    assert_eq!((n.addr.as_str(), n.addr6.as_str(), n.iroh_endpoint.as_str()), ("", "", ""));
    assert_eq!(n.mode, NetworkMode::Auto);
}

#[test]
fn settings_read_back_what_was_written() {
    let mut s = fresh_state();
    s.set_addr(
        Some("cloud.example.com".to_string()),
        Some("v6.example.com".to_string()),
        Some("iroh://abc".to_string()),
        NetworkMode::P2P,
    )
    .unwrap();
    let n = s.get_network_settings().unwrap();
    assert_eq!(n.addr, "cloud.example.com");
    assert_eq!(n.addr6, "v6.example.com");
    assert_eq!(n.iroh_endpoint, "iroh://abc");
    assert_eq!(n.mode, NetworkMode::P2P);
}

#[test]
fn unset_addresses_keep_their_values() {
    let mut s = fresh_state();
    s.set_addr(Some("a".to_string()), Some("b".to_string()), None, NetworkMode::IPv6).unwrap();
    s.set_addr(None, None, Some("c".to_string()), NetworkMode::Normal).unwrap();
    let n = s.get_network_settings().unwrap();
    assert_eq!((n.addr.as_str(), n.addr6.as_str(), n.iroh_endpoint.as_str()), ("a", "b", "c"));
    assert_eq!(n.mode, NetworkMode::Normal);
}

#[test]
fn tokens_read_back_what_was_written() {
    let mut s = fresh_state();
    s.set_token(token("2030-01-01T00:00:00Z")).unwrap();
    let t = s.get_token().unwrap();
    assert_eq!(t.access_token, "acc");
    assert_eq!(t.refresh_token, "ref");
    assert_eq!(t.access_expires, "2030-01-01T00:00:00Z");
    let t = s.get_token_sync().unwrap();
    assert_eq!(t.refresh_expires, "2030-01-01T00:00:00Z");
}

#[test]
fn tokens_with_unreadable_expiry_are_refused() {
    let s = fresh_state();
    for (k, v) in [("access_token", "acc"), ("access_expires", "tomorrow"), ("refresh_token", "ref"), ("refresh_expires", "tomorrow")] {
        s.db.insert(k, v).unwrap();
    }
    assert!(matches!(s.get_token(), Err(AppError::Anyhow(_))));
}

#[test]
fn missing_tokens_are_an_error() {
    let s = fresh_state();
    assert!(matches!(s.get_token_sync(), Err(AppError::Anyhow(_))));
}

#[test]
fn logout_forgets_the_tokens() {
    let mut s = fresh_state();
    s.set_token(token("2030-01-01T00:00:00Z")).unwrap();
    s.logout().unwrap();
    assert!(s.get_token().is_err());
}

#[test]
fn ids_are_consecutive() {
    let mut s = fresh_state();
    assert_eq!(s.gen_id().unwrap(), 1);
    assert_eq!(s.gen_id().unwrap(), 2);
    assert_eq!(s.gen_id().unwrap(), 3);
}

#[test]
fn ids_wrap_at_the_top() {
    let mut s = fresh_state();
    s.db.insert("id", "4294967295").unwrap();
    assert_eq!(s.gen_id().unwrap(), u32::MAX);
    assert_eq!(s.gen_id().unwrap(), 0);
}

#[test]
fn settings_listed_and_deleted_by_key() {
    let mut s = fresh_state();
    s.set_addr(Some("a".to_string()), None, None, NetworkMode::Normal).unwrap();
    let keys = vec!["addr", "addr6", "mode"];
    let got = s.get_settings(&keys).unwrap();
    assert_eq!(
        got,
        vec![("addr".to_string(), "a".to_string()), ("mode".to_string(), "2".to_string())]
    );
    s.delete_settings(&vec!["addr"]).unwrap();
    let got = s.get_settings(&keys).unwrap();
    assert_eq!(got, vec![("mode".to_string(), "2".to_string())]);
}

#[test]
fn base_url_from_settings() {
    let mut s = fresh_state();
    let n = NetworkSettings {
        addr: "cloud.example.com".to_string(),
        addr6: String::new(),
        iroh_endpoint: "iroh://abc".to_string(),
        mode: NetworkMode::P2P,
    };
    let endpoint = s.init_base_url(&n, false);
    assert_eq!(s.base_url, "https://cloud.example.com/api/v4");
    assert_eq!(endpoint, Some("iroh://abc".to_string()));
    let n = NetworkSettings {
        addr: "http://h:1".to_string(),
        addr6: String::new(),
        iroh_endpoint: "iroh://p2p".to_string(),
        mode: NetworkMode::P2P,
    };
    assert_eq!(s.init_base_url(&n, false), None);
    assert_eq!(s.base_url, "http://h:1/api/v4");
}

#[test]
fn api_requests_carry_host_and_credentials() {
    let mut s = fresh_state();
    s.base_url = "https://cloud.example.com/api/v4".to_string();
    let r = s.request(HttpMethod::Get, "/user/capacity").unwrap();
    assert_eq!(r.url(), "https://cloud.example.com/api/v4/user/capacity");
    assert_eq!(r.headers().get("host").unwrap(), "cloud.example.com");
    assert!(r.headers().get("authorization").is_none());
    assert_eq!(r.body(), Some(b"null".to_vec()));
    s.set_token(token("2030-01-01T00:00:00Z")).unwrap();
    let r = s.request_with_query(HttpMethod::Get, "/file", "uri=x").unwrap();
    assert_eq!(r.url(), "https://cloud.example.com/api/v4/file?uri=x");
    assert_eq!(r.headers().get("authorization").unwrap(), "Bearer acc");
}

#[test]
fn api_request_needs_a_parsable_base() {
    let mut s = fresh_state();
    s.base_url = "http://bad host".to_string();
    assert!(matches!(s.request(HttpMethod::Get, "/x"), Err(AppError::Anyhow(_))));
}

#[test]
fn resolved_requests_replace_the_base_path() {
    let mut s = fresh_state();
    s.base_url = "https://cloud.example.com/api/v4".to_string();
    let r = s.batch_urls_request(b"{}".to_vec()).unwrap();
    assert_eq!(r.url(), "https://cloud.example.com/file/url");
    let r = s.get_thumb_url_request("uri=a").unwrap();
    assert_eq!(r.url(), "https://cloud.example.com/file/thumb?uri=a");
    assert_eq!(r.method(), &HttpMethod::Get);
}

#[test]
fn endpoint_paths() {
    let mut s = fresh_state();
    s.base_url = "https://h/api/v4".to_string();
    assert_eq!(s.prepare_request("email=a").unwrap().url(), "https://h/api/v4/session/prepare?email=a");
    assert_eq!(s.login_request(vec![]).unwrap().url(), "https://h/api/v4/session/token");
    assert_eq!(s.get_capacity_request().unwrap().url(), "https://h/api/v4/user/capacity");
    assert_eq!(s.delete_share_request("s1").unwrap().url(), "https://h/api/v4/share/s1");
    assert_eq!(
        s.get_share_info_request("s1", "owner_extended=true").unwrap().url(),
        "https://h/api/v4/share/info/s1?owner_extended=true"
    );
    assert_eq!(s.create_folder_request(vec![]).unwrap().method(), &HttpMethod::Post);
}

fn bytes(t: &str) -> Option<Vec<u8>> {
    Some(t.as_bytes().to_vec())
}

#[test]
fn settings_are_made_from_what_was_read() {
    let n = settings_from_reads(bytes("a"), None, bytes("iroh://x"), bytes("4")).unwrap();
    assert_eq!((n.addr.as_str(), n.addr6.as_str(), n.iroh_endpoint.as_str()), ("a", "", "iroh://x"));
    assert_eq!(n.mode, NetworkMode::P2P);
    let n = settings_from_reads(None, None, None, None).unwrap();
    assert_eq!(n.mode, NetworkMode::Auto);
    assert!(matches!(settings_from_reads(Some(vec![0xff]), None, None, None), Err(AppError::Anyhow(_))));
}

#[test]
fn tokens_are_made_from_what_was_read() {
    let e = "2030-01-01T00:00:00Z";
    let t = token_from_reads(bytes("acc"), bytes(e), bytes("ref"), bytes(e)).unwrap();
    assert_eq!((t.access_token.as_str(), t.refresh_token.as_str()), ("acc", "ref"));
    assert_eq!((t.access_expires.as_str(), t.refresh_expires.as_str()), (e, e));
    assert!(matches!(token_from_reads(None, bytes(e), bytes("ref"), bytes(e)), Err(AppError::Anyhow(_))));
    assert!(matches!(token_from_reads(bytes("acc"), bytes("soon"), bytes("ref"), bytes(e)), Err(AppError::Anyhow(_))));
    assert!(matches!(token_from_reads(bytes("acc"), bytes(e), Some(vec![0xc3]), bytes(e)), Err(AppError::Anyhow(_))));
}

#[test]
fn ids_are_made_from_what_was_read() {
    assert_eq!(next_id_from(None).unwrap(), 1);
    assert_eq!(next_id_from(bytes("41")).unwrap(), 41);
    assert_eq!(next_id_from(bytes("many")).unwrap(), 1);
    assert!(matches!(next_id_from(Some(vec![0xff, 0xfe])), Err(AppError::Anyhow(_))));
}

#[test]
fn listed_settings_are_made_from_what_was_read() {
    assert_eq!(pair_from_read("addr", None).unwrap(), None);
    assert_eq!(pair_from_read("addr", bytes("h")).unwrap(), Some(("addr".to_string(), "h".to_string())));
    assert!(matches!(pair_from_read("addr", Some(vec![0x80])), Err(AppError::Anyhow(_))));
}

#[test]
fn entries_are_read_by_key() {
    let mut s = fresh_state();
    assert_eq!(s.read_entry("addr").unwrap(), None);
    s.set_addr(Some("h".to_string()), None, None, NetworkMode::Normal).unwrap();
    assert_eq!(s.read_entry("addr").unwrap(), Some(b"h".to_vec()));
    assert_eq!(s.read_entry("mode").unwrap(), Some(b"2".to_vec()));
}

#[test]
fn credentials_follow_the_token_given() {
    let mut s = fresh_state();
    s.base_url = "https://cloud.example.com/api/v4".to_string();
    let r = s.request_with_token(HttpMethod::Post, "/x", vec![1], Ok(token("2030-01-01T00:00:00Z"))).unwrap();
    assert_eq!(r.url(), "https://cloud.example.com/api/v4/x");
    assert_eq!(r.headers().get("authorization").unwrap(), "Bearer acc");
    assert_eq!(r.headers().get("host").unwrap(), "cloud.example.com");
    let r = s.request_with_token(HttpMethod::Post, "/x", vec![1], Err(AppError::Anyhow("none".to_string()))).unwrap();
    assert!(r.headers().get("authorization").is_none());
    assert_eq!(r.headers().get("host").unwrap(), "cloud.example.com");
    s.base_url = "no base".to_string();
    assert!(matches!(
        s.request_with_token(HttpMethod::Get, "/x", vec![], Ok(token("2030-01-01T00:00:00Z"))),
        Err(AppError::Anyhow(_))
    ));
}

#[test]
fn resolved_requests_carry_the_token_given() {
    let mut s = fresh_state();
    s.base_url = "https://cloud.example.com/api/v4".to_string();
    let r = s
        .resolved_request_with_token(HttpMethod::Post, "/file/url", "", Some(vec![7]), Ok(token("x")))
        .unwrap();
    assert_eq!(r.url(), "https://cloud.example.com/file/url");
    assert_eq!(r.headers().get("authorization").unwrap(), "Bearer acc");
    assert_eq!(r.body(), Some(vec![7]));
    let r = s
        .resolved_request_with_token(HttpMethod::Get, "/file/thumb", "?uri=a", None, Err(AppError::Anyhow(String::new())))
        .unwrap();
    assert_eq!(r.url(), "https://cloud.example.com/file/thumb?uri=a");
    assert!(r.headers().is_empty());
    let mut bad = token("x");
    bad.access_token = "a\nb".to_string();
    assert!(matches!(
        s.resolved_request_with_token(HttpMethod::Get, "/f", "", None, Ok(bad)),
        Err(AppError::Serde(_))
    ));
}

fn login_ack(code: i64, expiry: &str) -> Ack<LoginAck> {
    let user = User {
        id: "u1".to_string(),
        email: "a@b.c".to_string(),
        nickname: "n".to_string(),
        status: "active".to_string(),
        created_at: "2024-01-01T00:00:00Z".to_string(),
        group: Group {
            id: "g".to_string(),
            name: "Admin".to_string(),
            permission: "/".to_string(),
            direct_link_batch_size: 10,
            trash_retention: 7,
        },
        language: None,
    };
    Ack { code, data: Some(LoginAck { user, token: token(expiry) }), msg: "m".to_string(), correlation_id: None }
}

#[test]
fn a_login_stores_the_session() {
    let mut s = fresh_state();
    let (user, stored) = s.complete_login(login_ack(0, "2030-01-01T00:00:00Z")).unwrap();
    assert_eq!(user.id, "u1");
    assert!(stored.is_ok());
    assert_eq!(s.get_token_sync().unwrap().access_token, "acc");
}

#[test]
fn a_login_with_unreadable_expiry_is_refused() {
    let mut s = fresh_state();
    assert!(matches!(s.complete_login(login_ack(0, "tomorrow")), Err(AppError::Serde(_))));
    assert!(s.get_token_sync().is_err());
}

#[test]
fn a_refused_login_gives_the_server_message() {
    let mut s = fresh_state();
    match s.complete_login(login_ack(40001, "2030-01-01T00:00:00Z")) {
        Err(AppError::Message(c, m)) => assert_eq!((c, m.as_str()), (40001, "m")),
        _ => panic!("expected the server's message"),
    }
    assert!(s.get_token_sync().is_err());
}

#[test]
fn refresh_requests_carry_the_refresh_token() {
    let req = crcli::api::refresh_req_for(Ok(token("2030-01-01T00:00:00Z"))).unwrap();
    assert_eq!(req.refresh_token, "ref");
    assert!(matches!(
        crcli::api::refresh_req_for(Err(AppError::Anyhow("gone".to_string()))),
        Err(AppError::Anyhow(m)) if m == "gone"
    ));
    let mut s = fresh_state();
    assert!(matches!(s.refresh_token_req(), Err(AppError::Anyhow(_))));
    s.set_token(token("2030-01-01T00:00:00Z")).unwrap();
    assert_eq!(s.refresh_token_req().unwrap().refresh_token, "ref");
}

#[test]
fn starting_in_p2p_mode_picks_the_client_kind() {
    let mut s = fresh_state();
    let n = NetworkSettings {
        addr: "cloud.example.com".to_string(),
        addr6: String::new(),
        iroh_endpoint: "iroh://abc".to_string(),
        mode: NetworkMode::P2P,
    };
    assert_eq!(s.apply_settings(&n, false), Some("iroh://abc".to_string()));
    assert_eq!(s.ct, ClientType::Iroh);
    assert_eq!(s.base_url, "https://cloud.example.com/api/v4");
    let n = NetworkSettings { iroh_endpoint: String::new(), addr: String::new(), ..n };
    assert_eq!(s.apply_settings(&n, false), None);
    assert_eq!(s.ct, ClientType::Reqwest);
    s.ct = ClientType::Iroh;
    let n = NetworkSettings { mode: NetworkMode::Normal, ..n };
    s.apply_settings(&n, false);
    assert_eq!(s.ct, ClientType::Iroh);
}

#[test]
fn resolved_requests_are_owed_when_the_address_resolves() {
    let mut s = fresh_state();
    s.base_url = "https://cloud.example.com/api/v4".to_string();
    let r = s.batch_urls_request(b"{}".to_vec()).unwrap();
    assert!(r.headers().get("authorization").is_none());
    s.set_token(token("2030-01-01T00:00:00Z")).unwrap();
    let r = s.get_thumb_url_request("uri=a").unwrap();
    assert_eq!(r.headers().get("authorization").unwrap(), "Bearer acc");
    let mut bad = token("2030-01-01T00:00:00Z");
    bad.access_token = "a\nb".to_string();
    s.set_token(bad).unwrap();
    assert!(matches!(s.batch_urls_request(b"{}".to_vec()), Err(AppError::Serde(_))));
}
