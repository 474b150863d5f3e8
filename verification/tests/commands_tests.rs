use crcli::api::delete_file_result;
use crcli::commands::{
    batch_urls_result, check_download, collect_file_tags, has_distinct_keys, create_folder_req, delete_file_req,
    download_for, file_source_result, files_uri, first_url, get_download_history, get_files_req,
    get_shares_req, get_sync_progress, get_sync_status, last_url, proxy_image_request,
    search_files_uri, share_file_req, thumb_url_result, toggle_sync, update_share_req, upload_for,
    upload_result, upload_session_req,
};
use crcli::hc::request::HttpMethod;
use crcli::proto::error::{Ack, AppError};
use crcli::proto::file::{ApplicationOwner, DeleteFileAck};
use crcli::proto::storage::{BatchUrlsAck, FileItem, FileSrouce, GetThumbURLAck, Url};

fn ack<T>(code: i64, data: Option<T>, msg: &str) -> Ack<T> {
    Ack { code, data, msg: msg.to_string(), correlation_id: None }
}

fn file(metadata: Option<Vec<(&str, &str)>>) -> FileItem {
    FileItem {
        item_type: 0,
        id: "f".to_string(),
        name: "n".to_string(),
        created_at: String::new(),
        updated_at: String::new(),
        size: 0,
        metadata: metadata.map(|m| m.into_iter().map(|(k, v)| (k.to_string(), v.to_string())).collect()),
        path: String::new(),
        capability: String::new(),
        owned: true,
        shared: None,
        primary_entity: String::new(),
    }
}

fn urls(list: &[&str]) -> BatchUrlsAck {
    BatchUrlsAck {
        expires: "later".to_string(),
        urls: list.iter().map(|u| Url { url: u.to_string() }).collect(),
    }
}

#[test]
fn batch_url_replies() {
    let a = batch_urls_result(ack(0, Some(urls(&["a"])), "")).unwrap();
    assert_eq!(a.urls.len(), 1);
    let a = batch_urls_result(ack(0, None, "")).unwrap();
    assert!(a.urls.is_empty() && a.expires.is_empty());
    assert_eq!(
        batch_urls_result(ack(9, None, "no")).err(),
        Some(AppError::Message(9, "no".to_string()))
    );
    assert_eq!(first_url(urls(&["a", "b"])).unwrap(), "a");
    assert_eq!(first_url(urls(&[])).err(), Some(AppError::NoData));
    assert_eq!(last_url(urls(&["a", "b"])), "b");
    assert_eq!(last_url(urls(&[])), "");
}

#[test]
fn thumbnail_and_source_replies() {
    let t = GetThumbURLAck { url: "https://t".to_string() };
    assert_eq!(thumb_url_result(ack(0, Some(t), "")).unwrap(), "https://t");
    assert_eq!(thumb_url_result(ack(0, None, "")).unwrap(), "");
    assert!(thumb_url_result(ack(1, None, "x")).is_err());
    let s = vec![
        FileSrouce { file_url: "u1".to_string(), link: "l1".to_string() },
        FileSrouce { file_url: "u2".to_string(), link: "l2".to_string() },
    ];
    assert_eq!(file_source_result(ack(0, Some(s), "")).unwrap().link, "l1");
    assert_eq!(
        file_source_result(ack(0, Some(vec![]), "empty")).err(),
        Some(AppError::Message(0, "empty".to_string()))
    );
    assert_eq!(upload_result(ack(0, None, ""), 7), Ok(7));
    assert_eq!(upload_result(ack(2, None, "q"), 7), Err(AppError::Message(2, "q".to_string())));
}

#[test]
fn deletion_replies() {
    assert!(matches!(delete_file_result(ack(0, None, "")), Ok(None)));
    let lock = DeleteFileAck {
        owner: ApplicationOwner { owner_type: "app".to_string() },
        path: "/p".to_string(),
        token: "t".to_string(),
        file_type: "file".to_string(),
    };
    let r = delete_file_result(ack(40073, Some(lock), "locked")).unwrap();
    assert_eq!(r.unwrap().token, "t");
    assert_eq!(
        delete_file_result(ack(5, None, "x")).err(),
        Some(AppError::Message(5, "x".to_string()))
    );
}

#[test]
fn tags_are_collected_once_in_order() {
    let files = vec![
        file(Some(vec![("tag:red", "#f00"), ("size", "1"), ("tag:blue", "#00f")])),
        file(None),
        file(Some(vec![("tag:red", "#f11")])),
    ];
    let (per_file, keys) = collect_file_tags(&files);
    assert_eq!(per_file.len(), 3);
    assert_eq!(per_file[0].len(), 2);
    assert_eq!((per_file[0][0].key.as_str(), per_file[0][0].color.as_str()), ("red", "#f00"));
    assert_eq!((per_file[0][1].key.as_str(), per_file[0][1].color.as_str()), ("blue", "#00f"));
    assert!(per_file[1].is_empty());
    assert_eq!(per_file[2][0].color, "#f11");
    assert_eq!(keys, vec!["tag:red".to_string(), "tag:blue".to_string()]);
}

#[test]
fn listing_and_search_addresses() {
    assert_eq!(files_uri("cloudreve://my/", "image"), "cloudreve://my/?category=image");
    assert_eq!(files_uri("cloudreve://my/", ""), "cloudreve://my/");
    let r = get_files_req("cloudreve://my/", "video", 2, 50, "name", "asc");
    assert_eq!((r.page, r.page_size), (2, 50));
    assert_eq!(r.uri, "cloudreve://my/?category=video");
    assert_eq!((r.order_by.as_str(), r.order_direction.as_str()), ("name", "asc"));
    assert_eq!(
        search_files_uri("cloudreve://my", "cat"),
        "cloudreve://my?name=cat&name_op_or=&case_folding="
    );
}

#[test]
fn share_requests() {
    let r = share_file_req(0, 3600, true, "cloudreve://my/a");
    assert_eq!((r.downloads, r.expire, r.is_private), (None, Some(3600), Some(true)));
    let r = share_file_req(5, 0, false, "u");
    assert_eq!((r.downloads, r.expire, r.is_private), (Some(5), None, None));
    let r = update_share_req(3, 0, "u");
    assert_eq!((r.downloads, r.expire, r.is_private), (Some(3), None, None));
    assert_eq!(get_shares_req("desc").page_size, 50);
}

#[test]
fn file_operation_requests() {
    let r = delete_file_req(true, true, vec!["a".to_string()]);
    assert!(r.unlink && !r.skip_soft_delete);
    let r = delete_file_req(false, false, vec![]);
    assert!(r.skip_soft_delete);
    let r = create_folder_req("cloudreve://my/new");
    assert_eq!((r.file_type.as_str(), r.err_on_conflict), ("folder", true));
    let r = upload_session_req("image/png", "cloudreve://my/a.png", 10, "p1", 1700000000);
    assert_eq!((r.size, r.last_modified), (10, 1700000000));
    assert_eq!(r.mime_type, "image/png");
}

#[test]
fn downloads_need_address_and_folder() {
    assert!(check_download("/tmp", "https://x").is_ok());
    assert_eq!(
        check_download("", "https://x").err(),
        Some(AppError::Anyhow("fail, dir:, url:https://x".to_string()))
    );
    assert_eq!(
        check_download("/tmp", "").err(),
        Some(AppError::Anyhow("fail, dir:/tmp, url:".to_string()))
    );
    let d = download_for(4, "/tmp/a".to_string(), "https://x".to_string());
    assert_eq!((d.id, d.file_path.as_str(), d.url.as_str()), (4, "/tmp/a", "https://x"));
}

#[test]
fn uploads_go_to_the_session() {
    let u = upload_for(9, "cloudreve://my/dir", "a.png", "/local/a.png".to_string(), "https://h/api/v4", "s1");
    assert_eq!(u.uri, "cloudreve://my/dir/a.png");
    assert_eq!(u.upload_url, "https://h/api/v4/file/upload/s1/0");
    assert_eq!((u.id, u.filename.as_str()), (9, "a.png"));
}

#[test]
fn image_proxy_request_names_the_client() {
    let r = proxy_image_request("https://img/x.png");
    assert_eq!(r.url(), "https://img/x.png");
    assert_eq!(r.method(), &HttpMethod::Get);
    assert_eq!(r.headers().get("user-agent").unwrap(), "Cloudreve-Tauri/1.0");
}

#[test]
fn placeholder_sync_views() {
    let s = get_sync_status();
    assert!(!s.enabled);
    assert_eq!(s.synced_files, Some(42));
    assert_eq!(s.last_sync.as_deref(), Some("2024-05-20T12:34:56"));
    let s = toggle_sync(true);
    assert!(s.enabled && s.last_sync.is_none());
    let p = get_sync_progress();
    assert_eq!((p.percentage, p.synced, p.total, p.status.as_str()), (35, 7, 20, "syncing"));
    let h = get_download_history();
    assert_eq!(h.len(), 1);
    assert_eq!((h[0].file_name.as_str(), h[0].progress, h[0].size), ("example.jpg", 100, 1048576));
}

#[test]
fn android_downloads_go_to_the_download_folder() {
    assert_eq!(crcli::commands::android_downloads_dir("/storage/emulated/0"), "/storage/emulated/0/Download");
}

#[test]
fn metadata_keys_are_checked_for_repeats() {
    let kv = |k: &str, v: &str| (k.to_string(), v.to_string());
    assert!(has_distinct_keys(&vec![]));
    assert!(has_distinct_keys(&vec![kv("tag:a", "red"), kv("tag:b", "red"), kv("x", "1")]));
    assert!(!has_distinct_keys(&vec![kv("tag:a", "red"), kv("x", "1"), kv("tag:a", "blue")]));
}
