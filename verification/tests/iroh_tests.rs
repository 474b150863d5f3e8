use crcli::hc::request::HttpMethod;
use crcli::iroh::{
    address_from_decoded, decode_btoa_encoded_uri, first_header_values, headers_fit, iroh_target, proxy_reply_headers, iroh_target_path, proxy_extra_headers,
    proxy_failure_status, proxy_request_for, proxy_request_from, ProxyFailure, UriDecodeError,
};
use crcli::proto::error::AppError;
use crcli::proto::settings::{ClientType, NetworkMode, NetworkSettings};
use crcli::state::AppState;

const THUMB: &str = "aHR0cHMlM0ElMkYlMkZleGFtcGxlLmNvbSUyRmFwaSUyRnY0JTJGZmlsZSUyRnRodW1iJTNGdXJpJTNEeA==";

#[test]
fn decodes_base64_then_percent_encoding() {
    assert_eq!(
        decode_btoa_encoded_uri(THUMB).unwrap(),
        "https://example.com/api/v4/file/thumb?uri=x"
    );
    assert_eq!(decode_btoa_encoded_uri("  aGVsbG8lMjB3b3JsZA==\n").unwrap(), "hello world");
}

#[test]
fn refuses_what_does_not_decode() {
    assert_eq!(decode_btoa_encoded_uri("not base64!"), Err(UriDecodeError::Base64));
    assert_eq!(decode_btoa_encoded_uri("//4="), Err(UriDecodeError::Utf8));
    assert_eq!(decode_btoa_encoded_uri("JUZG"), Err(UriDecodeError::Utf8));
}

#[test]
fn percent_decoding_keeps_what_is_not_an_escape() {
    assert_eq!(address_from_decoded(b"a+b%2".to_vec()).unwrap(), "a+b%2");
    assert_eq!(address_from_decoded(b"%zz%41".to_vec()).unwrap(), "%zzA");
    assert_eq!(address_from_decoded(b"%e4%b8%ad".to_vec()).unwrap(), "\u{4e2d}");
    assert_eq!(address_from_decoded(vec![0xc3]), Err(UriDecodeError::Utf8));
}

#[test]
fn scheme_addresses_map_to_server_paths() {
    let uri = format!("iroh://localhost/{}", THUMB);
    assert_eq!(iroh_target_path(&uri).unwrap(), "/api/v4/file/thumb");
    assert_eq!(iroh_target_path("iroh://localhost/@@@"), Err(400));
    assert_eq!(iroh_target_path("iroh://localhost/aGVsbG8lMjB3b3JsZA=="), Err(400));
}

#[test]
fn success_replies_get_type_and_length() {
    let h = proxy_extra_headers(200, 1234);
    assert_eq!(
        h,
        vec![
            ("Content-Type".to_string(), "application/octet-stream".to_string()),
            ("Content-Length".to_string(), "1234".to_string()),
        ]
    );
    assert!(proxy_extra_headers(404, 10).is_empty());
    assert!(proxy_extra_headers(199, 10).is_empty());
    assert_eq!(proxy_extra_headers(299, 0).len(), 2);
}

#[test]
fn proxied_requests_go_to_the_configured_server() {
    let db = sled::Config::new().temporary(true).open().unwrap();
    let mut s = AppState::new(db);
    s.set_addr(Some("cloud.example.com".to_string()), None, None, NetworkMode::Normal).unwrap();
    let uri = format!("iroh://localhost/{}", THUMB);
    let mut incoming = http::HeaderMap::new();
    incoming.insert("x-trace", http::HeaderValue::from_static("abc"));
    let (ct, req) = s.iroh_proxy_request(&uri, HttpMethod::Get, incoming, vec![9], false).unwrap();
    assert_eq!(ct, ClientType::Reqwest);
    assert_eq!(req.url(), "https://cloud.example.com/api/v4/file/thumb");
    assert_eq!(req.method(), &HttpMethod::Get);
    assert_eq!(req.headers().len(), 1);
    assert_eq!(req.headers().get("x-trace").unwrap(), "abc");
    assert_eq!(req.body(), Some(vec![9]));
    assert!(matches!(
        s.iroh_proxy_request("iroh://localhost/%%", HttpMethod::Get, http::HeaderMap::new(), vec![], false),
        Err(400)
    ));
    s.set_addr(None, None, Some("iroh://abc".to_string()), NetworkMode::P2P).unwrap();
    let (ct, req) = s.iroh_proxy_request(&uri, HttpMethod::Post, http::HeaderMap::new(), vec![], false).unwrap();
    assert!(req.headers().is_empty());
    assert_eq!(ct, ClientType::Iroh);
    assert_eq!(req.url(), "iroh://abc/api/v4/file/thumb");
}

#[test]
fn scheme_addresses_map_to_api_targets_with_query() {
    let uri = format!("iroh://localhost/{}", THUMB);
    assert_eq!(iroh_target(&uri).unwrap(), "/api/v4/file/thumb?uri=x");
    let plain = "aHR0cHM6Ly9oL2E="; // https://h/a
    assert_eq!(iroh_target(&format!("iroh://localhost/{}", plain)).unwrap(), "/a?");
    assert_eq!(iroh_target("iroh://localhost/!!"), Err(400));
}

#[test]
fn scheme_requests_become_api_requests() {
    let db = sled::Config::new().temporary(true).open().unwrap();
    let mut s = AppState::new(db);
    s.base_url = "https://cloud.example.com/api/v4".to_string();
    let uri = format!("iroh://localhost/{}", THUMB);
    let req = s.iroh_api_request(&uri, HttpMethod::Get, http::HeaderMap::new(), vec![1]).unwrap();
    assert_eq!(req.url(), "https://cloud.example.com/api/v4/api/v4/file/thumb?uri=x");
    assert_eq!(req.headers().get("host").unwrap(), "cloud.example.com");
    assert!(matches!(
        s.iroh_api_request("iroh://localhost/??", HttpMethod::Get, http::HeaderMap::new(), vec![]),
        Err(400)
    ));
    s.base_url = "http://bad host".to_string();
    assert!(matches!(s.iroh_api_request(&uri, HttpMethod::Get, http::HeaderMap::new(), vec![]), Err(500)));
}

fn settings(mode: NetworkMode) -> NetworkSettings {
    NetworkSettings {
        addr: "cloud.example.com".to_string(),
        addr6: "[::1]:5212".to_string(),
        iroh_endpoint: "iroh://node".to_string(),
        mode,
    }
}

#[test]
fn proxy_requests_follow_the_settings_they_are_given() {
    let mut h = http::HeaderMap::new();
    h.insert("accept", http::HeaderValue::from_static("*/*"));
    let (ct, req) = proxy_request_for(&settings(NetworkMode::Normal), "/p", HttpMethod::Put, h, vec![1, 2], true);
    assert_eq!(ct, ClientType::Reqwest);
    assert_eq!(req.method(), &HttpMethod::Put);
    assert_eq!(req.headers().get("accept").unwrap(), "*/*");
    assert!(req.url().ends_with("/p"));
    assert_eq!(req.body(), Some(vec![1, 2]));
    let (ct, req) = proxy_request_for(&settings(NetworkMode::P2P), "/q", HttpMethod::Get, http::HeaderMap::new(), vec![], false);
    assert_eq!(ct, ClientType::Iroh);
    assert_eq!(req.url(), "iroh://node/q");
}

#[test]
fn unreadable_settings_answer_500() {
    let r = proxy_request_from(
        Err(AppError::Anyhow("db".to_string())),
        "/p",
        HttpMethod::Get,
        http::HeaderMap::new(),
        vec![],
        false,
    );
    assert!(matches!(r, Err(500)));
    let r = proxy_request_from(Ok(settings(NetworkMode::P2P)), "/p", HttpMethod::Get, http::HeaderMap::new(), vec![], false);
    assert_eq!(r.unwrap().1.url(), "iroh://node/p");
}

#[test]
fn failed_proxying_is_answered_by_stage() {
    assert_eq!(proxy_failure_status(ProxyFailure::NoBody), 204);
    assert_eq!(proxy_failure_status(ProxyFailure::NoClient), 500);
    assert_eq!(proxy_failure_status(ProxyFailure::SendFailed), 500);
    assert_eq!(proxy_failure_status(ProxyFailure::BodyUnreadable), 500);
}

#[test]
fn scheme_request_headers_replace_those_of_the_api_request() {
    let db = sled::Config::new().temporary(true).open().unwrap();
    let mut s = AppState::new(db);
    s.base_url = "https://cloud.example.com/api/v4".to_string();
    let uri = format!("iroh://localhost/{}", THUMB);
    let mut incoming = http::HeaderMap::new();
    incoming.insert("host", http::HeaderValue::from_static("localhost"));
    incoming.insert("accept", http::HeaderValue::from_static("image/*"));
    incoming.append("accept", http::HeaderValue::from_static("*/*"));
    let req = s.iroh_api_request(&uri, HttpMethod::Get, incoming, vec![]).unwrap();
    let hosts: Vec<_> = req.headers().get_all("host").iter().collect();
    assert_eq!(hosts, vec!["localhost"]);
    let accepts: Vec<_> = req.headers().get_all("accept").iter().collect();
    assert_eq!(accepts, vec!["image/*", "*/*"]);
    assert_eq!(req.headers().keys_len(), 2);
}

fn server_headers() -> http::HeaderMap {
    let mut h = http::HeaderMap::new();
    h.insert("content-type", http::HeaderValue::from_static("text/plain"));
    h.insert("set-cookie", http::HeaderValue::from_static("a=1"));
    h.append("set-cookie", http::HeaderValue::from_static("b=2"));
    h
}

fn values(h: &http::HeaderMap, name: &str) -> Vec<String> {
    h.get_all(name).iter().map(|v| v.to_str().unwrap().to_string()).collect()
}

#[test]
fn replies_keep_the_first_value_of_each_server_header() {
    let r = first_header_values(&server_headers());
    assert_eq!(r.keys_len(), 2);
    assert_eq!(values(&r, "content-type"), vec!["text/plain"]);
    assert_eq!(values(&r, "set-cookie"), vec!["a=1"]);
    assert!(first_header_values(&http::HeaderMap::new()).is_empty());
}

#[test]
fn successful_replies_gain_type_and_length_after_the_server_headers() {
    let r = proxy_reply_headers(&server_headers(), 200, 5);
    assert_eq!(values(&r, "content-type"), vec!["text/plain", "application/octet-stream"]);
    assert_eq!(values(&r, "content-length"), vec!["5"]);
    assert_eq!(values(&r, "set-cookie"), vec!["a=1"]);
    let r = proxy_reply_headers(&server_headers(), 404, 5);
    assert_eq!(values(&r, "content-type"), vec!["text/plain"]);
    assert!(r.get("content-length").is_none());
}

#[test]
fn header_room_is_counted_by_name() {
    assert!(headers_fit(&server_headers()));
    let mut many = http::HeaderMap::new();
    for i in 0..6552 {
        let name = http::HeaderName::from_bytes(format!("x-h{}", i).as_bytes()).unwrap();
        many.insert(name, http::HeaderValue::from_static("v"));
    }
    assert!(!headers_fit(&many));
    assert_eq!(proxy_failure_status(ProxyFailure::TooManyHeaders), 500);
}

#[test]
fn decoded_targets_become_api_requests() {
    let db = sled::Config::new().temporary(true).open().unwrap();
    let mut s = AppState::new(db);
    s.base_url = "https://cloud.example.com/api/v4".to_string();
    let req = s.api_request_for_target("/file/thumb?uri=x", HttpMethod::Get, http::HeaderMap::new(), vec![]).unwrap();
    assert_eq!(req.url(), "https://cloud.example.com/api/v4/file/thumb?uri=x");
    s.base_url = "http://bad host".to_string();
    assert!(matches!(s.api_request_for_target("/x", HttpMethod::Get, http::HeaderMap::new(), vec![]), Err(500)));
}
