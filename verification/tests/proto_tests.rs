use crcli::proto::error::{Ack, AppError, ErrorPayload};
use crcli::proto::get_json;
use crcli::proto::storage::get_mime_type;

fn ack<T>(code: i64, data: Option<T>, msg: &str) -> Ack<T> {
    Ack { code, data, msg: msg.to_string(), correlation_id: None }
}

#[test]
fn error_texts() {
    assert_eq!(AppError::Unauthorized.display_text(), "unauthorized");
    assert_eq!(AppError::NoData.display_text(), "success, no data");
    assert_eq!(AppError::HttpStatus(404).display_text(), "http status: 404");
    assert_eq!(AppError::Io("disk".to_string()).display_text(), "io: disk");
    assert_eq!(AppError::Anyhow("boom".to_string()).display_text(), "boom");
    assert_eq!(AppError::Requesst("x".to_string()).display_text(), "request error: x");
    assert_eq!(AppError::Serde("y".to_string()).display_text(), "serde error: y");
    assert_eq!(AppError::Message(-7, "bad".to_string()).display_text(), "code:-7, msg:bad");
    assert_eq!(AppError::Other("z".to_string()).display_text(), "z");
}

#[test]
fn error_payloads() {
    let p = ErrorPayload::from(&AppError::Unauthorized);
    assert_eq!((p.msg().as_str(), p.code()), ("need login", Some(401)));
    let p = ErrorPayload::from(&AppError::NoData);
    assert_eq!((p.msg().as_str(), p.code()), ("no data", Some(200)));
    let p = ErrorPayload::from(&AppError::HttpStatus(503));
    assert_eq!((p.msg().as_str(), p.code()), ("http status", Some(503)));
    let p = ErrorPayload::from(&AppError::Io("e".to_string()));
    assert_eq!((p.msg().as_str(), p.code()), ("io error: e", Some(400)));
    let p = ErrorPayload::from(&AppError::Requesst("e".to_string()));
    assert_eq!((p.msg().as_str(), p.code()), ("request error: e", Some(400)));
    let p = ErrorPayload::from(&AppError::Serde("e".to_string()));
    assert_eq!((p.msg().as_str(), p.code()), ("json error: e", Some(400)));
    let p = ErrorPayload::from(&AppError::Anyhow("e".to_string()));
    assert_eq!((p.msg().as_str(), p.code()), ("error: e", Some(500)));
    let p = ErrorPayload::from(&AppError::Other("e".to_string()));
    assert_eq!((p.msg().as_str(), p.code()), ("error: e", Some(500)));
    let p = ErrorPayload::from(&AppError::Message(40073, "locked".to_string()));
    assert_eq!((p.msg().as_str(), p.code()), ("locked", Some(40073)));
}

#[test]
fn ack_data() {
    assert_eq!(ack(0, Some(5u32), "").get_data(), Ok(5));
    assert_eq!(ack::<u32>(0, None, "").get_data(), Err(AppError::NoData));
    assert_eq!(ack(3, Some(5u32), "no").get_data(), Err(AppError::Message(3, "no".to_string())));
    assert_eq!(ack(0, Some(6u32), "").expect_data(), Ok(6));
    assert_eq!(ack::<u32>(1, None, "m").expect_data(), Err(AppError::Message(1, "m".to_string())));
    assert_eq!(ack::<u32>(0, None, "").succeeded(), Ok(true));
    assert_eq!(ack::<u32>(2, None, "f").succeeded(), Err(AppError::Message(2, "f".to_string())));
}

#[test]
fn mime_types_by_extension() {
    assert_eq!(get_mime_type("a.txt"), "text/plain");
    assert_eq!(get_mime_type("photo.JPG"), "image/jpeg");
    assert_eq!(get_mime_type("dir/x.png"), "image/png");
    assert_eq!(get_mime_type("index.html"), "text/html");
    assert_eq!(get_mime_type("d.json"), "application/json");
    assert_eq!(get_mime_type("v.Mp4"), "video/mp4");
    assert_eq!(get_mime_type("s.mp3"), "audio/mpeg");
    assert_eq!(get_mime_type("s.wav"), "audio/wav");
    assert_eq!(get_mime_type("archive.tar.gz"), "octet-stream");
    assert_eq!(get_mime_type("README"), "octet-stream");
    assert_eq!(get_mime_type(".txt"), "octet-stream");
}

#[test]
fn sample_reply_is_empty() {
    assert_eq!(get_json(), "");
}

#[test]
fn test_decode() {
    let res = serde_json::from_str::<serde_json::Value>(get_json());
    assert!(res.is_err());
}
