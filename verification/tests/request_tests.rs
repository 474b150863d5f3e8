use crcli::hc::builder::Site;
use crcli::hc::h3::signal_url;
use crcli::hc::http_client_manager::{ClientChoice, HttpClientManager};
use crcli::hc::request::{HttpMethod, Request};
use crcli::hc::url::{get_api_query_url, get_api_url};
use crcli::hc::Response;
use crcli::proto::settings::{ClientType, HttpVersion};

#[test]
fn request_parts() {
    let r = Request::new(HttpMethod::Post, "https://h/api/v4", "/file/move");
    assert_eq!(r.url(), "https://h/api/v4/file/move");
    assert_eq!(r.method(), &HttpMethod::Post);
    assert!(r.headers().is_empty());
    let r = r.with_header("X-Trace", "abc").with_body(vec![1, 2, 3]);
    assert_eq!(r.headers().get("x-trace").unwrap(), "abc");
    assert_eq!(r.content_length(), Some(3));
    assert_eq!(r.send_body(), Some(vec![1, 2, 3]));
    assert_eq!(r.body(), Some(vec![1, 2, 3]));
}

#[test]
fn invalid_headers_are_skipped_or_refused() {
    let r = Request::new(HttpMethod::Get, "u", "").with_header("bad name", "v");
    assert!(r.headers().is_empty());
    let r = Request::new(HttpMethod::Get, "u", "").with_header("Name", "line\nbreak");
    assert!(r.headers().is_empty());
    let r = Request::new(HttpMethod::Get, "u", "");
    assert!(r.try_with_header("Name", "line\nbreak").is_err());
    let r = Request::new(HttpMethod::Get, "u", "");
    let r = r.try_with_header("Name", "ok").unwrap();
    assert_eq!(r.headers().get("name").unwrap(), "ok");
}

#[test]
fn header_set_twice_keeps_the_last_value() {
    let r = Request::new(HttpMethod::Get, "u", "").with_header("A", "1").with_header("a", "2");
    let all: Vec<_> = r.headers().get_all("a").iter().collect();
    assert_eq!(all.len(), 1);
    assert_eq!(all[0], "2");
}

#[test]
fn bodies_that_go_out() {
    let get = Request::new(HttpMethod::Get, "u", "");
    assert_eq!(get.send_body(), None);
    assert_eq!(get.content_length(), None);
    let del = Request::new(HttpMethod::Delete, "u", "");
    assert_eq!(del.send_body(), None);
    let post = Request::new(HttpMethod::Post, "u", "");
    assert_eq!(post.send_body(), Some(Vec::new()));
    assert_eq!(post.content_length(), None);
}

#[test]
fn api_addresses() {
    assert_eq!(get_api_url("https://h", "/file"), "https://h/api/v4/file");
    assert_eq!(get_api_query_url("https://h", "/file", Some("uri=x")), "https://h/api/v4/file?uri=x");
    assert_eq!(get_api_query_url("https://h", "/file", None), "https://h/api/v4/file");
}

#[test]
fn site_requests() {
    let site = Site { token: "tok".to_string(), addr: "https://h".to_string(), version: HttpVersion::Http3 };
    assert!(site.prefers_h3());
    let r = site.build(HttpMethod::Get, "/user/capacity");
    assert_eq!(r.url(), "https://h/api/v4/user/capacity");
    assert_eq!(r.headers().get("authorization").unwrap(), "tok");
    let r = site.build_query(HttpMethod::Get, "/file", "uri=a");
    assert_eq!(r.url(), "https://h/api/v4/file?uri=a");
    let r = site.h3_build("https://1.2.3.4:8443", HttpMethod::Put, "/share");
    assert_eq!(r.url(), "https://1.2.3.4:8443/api/v4/share");
    let plain = Site { token: String::new(), addr: "https://h".to_string(), version: HttpVersion::Http11 };
    assert!(!plain.prefers_h3());
}

#[test]
fn signal_server_addresses() {
    assert_eq!(signal_url("cloud.example.com").unwrap(), "https://cloud.example.com/api/v4/p2p/signal");
    assert_eq!(signal_url("http://h:5212").unwrap(), "http://h:5212/api/v4/p2p/signal");
    assert_eq!(signal_url("https://h:443").unwrap(), "https://h/api/v4/p2p/signal");
    assert_eq!(signal_url("h:80").unwrap(), "https://h/api/v4/p2p/signal");
    assert!(signal_url("bad host").is_err());
}

#[test]
fn client_manager_choices() {
    let mut m: HttpClientManager<u8> = HttpClientManager::new();
    assert_eq!(m.get_client(ClientType::Iroh).err().unwrap(), "Iroh client not initialized");
    assert!(matches!(m.get_client(ClientType::Reqwest), Ok(ClientChoice::Reqwest)));
    m.init_iroh_endpoint(7);
    assert!(matches!(m.get_client(ClientType::Iroh), Ok(ClientChoice::Iroh(&7))));
}

#[test]
fn replies_keep_their_parts() {
    let mut h = http::HeaderMap::new();
    h.insert("content-type", "text/plain".parse().unwrap());
    let r = Response::new(201, h, "data".to_string());
    assert_eq!(r.status(), 201);
    assert_eq!(r.headers().get("content-type").unwrap(), "text/plain");
    assert_eq!(r.data(), "data");
    assert_eq!(r.into_data(), "data");
}
