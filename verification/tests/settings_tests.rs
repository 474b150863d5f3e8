use crcli::proto::settings::{ClientType, HttpVersion, NetworkMode, NetworkSettings};

fn settings(addr: &str, addr6: &str, endpoint: &str, mode: NetworkMode) -> NetworkSettings {
    NetworkSettings {
        addr: addr.to_string(),
        addr6: addr6.to_string(),
        iroh_endpoint: endpoint.to_string(),
        mode,
    }
}

#[test]
fn mode_codes_round_trip() {
    for m in [NetworkMode::Auto, NetworkMode::Normal, NetworkMode::IPv6, NetworkMode::P2P] {
        assert_eq!(NetworkMode::from_code(m.code().as_str()), m);
    }
    assert_eq!(NetworkMode::P2P.code(), "4");
    assert_eq!(NetworkMode::Auto.code(), "1");
}

#[test]
fn unknown_mode_text_reads_as_auto() {
    assert_eq!(NetworkMode::from_code(""), NetworkMode::Auto);
    assert_eq!(NetworkMode::from_code("9"), NetworkMode::Auto);
    assert_eq!(NetworkMode::from_code("1"), NetworkMode::Auto);
    assert_eq!(NetworkMode::from_code("3"), NetworkMode::IPv6);
}

#[test]
fn http_version_follows_mode() {
    assert_eq!(settings("", "", "", NetworkMode::P2P).get_http_version(), HttpVersion::Http3);
    assert_eq!(settings("", "", "", NetworkMode::IPv6).get_http_version(), HttpVersion::Http2);
    assert_eq!(settings("", "", "", NetworkMode::Normal).get_http_version(), HttpVersion::Http11);
    assert_eq!(settings("", "", "", NetworkMode::Auto).get_http_version(), HttpVersion::Http11);
}

#[test]
fn p2p_address_prefers_endpoint_then_addr_then_default() {
    let s = settings("cloud.example.com", "", "iroh://abc", NetworkMode::P2P);
    assert_eq!(s.get_addr(false), "iroh://abc");
    let s = settings("cloud.example.com", "", "", NetworkMode::P2P);
    assert_eq!(s.get_addr(false), "cloud.example.com");
    let s = settings("", "", "", NetworkMode::P2P);
    assert_eq!(s.get_addr(true), "iroh://p2p");
}

#[test]
fn http_address_gets_scheme_when_missing() {
    let s = settings("cloud.example.com", "", "", NetworkMode::Normal);
    assert_eq!(s.get_addr(false), "https://cloud.example.com");
    let s = settings("http://10.0.0.2:5212", "", "", NetworkMode::Normal);
    assert_eq!(s.get_addr(false), "http://10.0.0.2:5212");
}

#[test]
fn ipv6_address_selected_by_mode_and_reachability() {
    let s = settings("v4.example.com", "v6.example.com", "", NetworkMode::IPv6);
    assert_eq!(s.get_addr(false), "https://v6.example.com");
    let s = settings("v4.example.com", "v6.example.com", "", NetworkMode::Auto);
    assert_eq!(s.get_addr(true), "https://v6.example.com");
    assert_eq!(s.get_addr(false), "https://v4.example.com");
    assert_eq!(s.select_http_addr(false), "v4.example.com");
    let s = settings("v4.example.com", "", "", NetworkMode::IPv6);
    assert_eq!(s.get_addr(true), "https://v4.example.com");
    let s = settings("v4.example.com", "v6.example.com", "", NetworkMode::Normal);
    assert_eq!(s.get_addr(true), "https://v4.example.com");
}

#[test]
fn api_urls_and_queries() {
    let s = settings("cloud.example.com", "", "", NetworkMode::Normal);
    assert_eq!(s.get_url(None, "/file", false), "https://cloud.example.com/api/v4/file");
    assert_eq!(
        s.get_url(Some("http://peer:1".to_string()), "/file", false),
        "http://peer:1/api/v4/file"
    );
    assert_eq!(
        s.get_query(None, "file", "uri=x", false),
        "https://cloud.example.com/api/v4/file?uri=x"
    );
}

#[test]
fn client_kinds() {
    let s = settings("", "", "iroh://abc", NetworkMode::P2P);
    assert_eq!(s.client_type(false), ClientType::Iroh);
    assert_eq!(s.proxy_client_type(), ClientType::Iroh);
    let s = settings("", "", "", NetworkMode::P2P);
    assert_eq!(s.client_type(false), ClientType::Reqwest);
    assert_eq!(s.proxy_client_type(), ClientType::Iroh);
    let s = settings("a", "", "iroh://abc", NetworkMode::Normal);
    assert_eq!(s.client_type(false), ClientType::Reqwest);
    assert_eq!(s.proxy_client_type(), ClientType::Reqwest);
}
