use crcli::media::{
    classify_media, generate_file_id, get_file_time, get_media_mime_type, is_image_file,
    is_video_file, media_id, media_uri, to_lower_hex, MediaKind, bytes_before, newest_first,
};
use crcli::net::{has_ipv6_connectivity, is_reachable_ipv6};

#[test]
fn file_ids_are_md5_of_the_path() {
    assert_eq!(generate_file_id(""), "d41d8cd98f00b204e9800998ecf8427e");
    assert_eq!(generate_file_id("/sdcard/DCIM/a.jpg"), "b8c8e241cb65d360bbf0ef16c1ecc59c");
    assert_eq!(media_id("/sdcard/DCIM/a.jpg", MediaKind::Image), "img-b8c8e241cb65d360bbf0ef16c1ecc59c");
    assert_eq!(media_id("", MediaKind::Video), "vid-d41d8cd98f00b204e9800998ecf8427e");
    assert_eq!(to_lower_hex(&[0, 15, 255]), "000fff");
}

#[test]
fn media_kinds_by_extension() {
    assert!(is_image_file("a/b.JPEG"));
    assert!(is_image_file("x.webp"));
    assert!(!is_image_file("x.mp4"));
    assert!(is_video_file("clip.MOV"));
    assert!(!is_video_file("noext"));
    assert!(is_video_file("clip.m\u{212a}v"));
    assert_eq!("m\u{212a}v".to_lowercase(), "mkv");
    assert_eq!(classify_media("a.png", true, true), Some(MediaKind::Image));
    assert_eq!(classify_media("a.png", false, true), None);
    assert_eq!(classify_media("a.mkv", true, true), Some(MediaKind::Video));
    assert_eq!(classify_media("a.txt", true, true), None);
}

#[test]
fn media_types_and_addresses() {
    assert_eq!(get_media_mime_type("a.jpg"), "image/jpeg");
    assert_eq!(get_media_mime_type("a.PNG"), "image/png");
    assert_eq!(get_media_mime_type("a.mp4"), "video/mp4");
    assert_eq!(get_media_mime_type("a.xyz"), "application/octet-stream");
    assert_eq!(get_media_mime_type("a.M\u{212a}V"), "video/x-matroska");
    assert_eq!(media_uri("/sdcard/a.jpg"), "file:///sdcard/a.jpg");
    assert_eq!(get_file_time(Some(5), 9), 5);
    assert_eq!(get_file_time(None, 9), 9);
}

#[test]
fn ipv6_reachability() {
    assert!(!is_reachable_ipv6([0, 0, 0, 0, 0, 0, 0, 1]));
    assert!(!is_reachable_ipv6([0xfe80, 0, 0, 0, 1, 2, 3, 4]));
    assert!(!is_reachable_ipv6([0xfebf, 0, 0, 0, 1, 2, 3, 4]));
    assert!(is_reachable_ipv6([0x2001, 0xdb8, 0, 0, 0, 0, 0, 1]));
    assert!(!has_ipv6_connectivity(&vec![]));
    assert!(!has_ipv6_connectivity(&vec![[0, 0, 0, 0, 0, 0, 0, 1]]));
    assert!(has_ipv6_connectivity(&vec![[0, 0, 0, 0, 0, 0, 0, 1], [0x2408, 1, 2, 3, 4, 5, 6, 7]]));
}

fn keys(ks: &[&str]) -> Vec<Vec<u8>> {
    ks.iter().map(|k| k.as_bytes().to_vec()).collect()
}

#[test]
fn media_are_listed_newest_first() {
    let k = keys(&[
        "2024-01-01T10:00:00+01:00",
        "2025-06-01T08:00:00+02:00",
        "2024-01-01T10:00:00+01:00",
        "2023-12-31T23:59:59+01:00",
    ]);
    assert_eq!(newest_first(&k), vec![1, 0, 2, 3]);
    assert_eq!(newest_first(&keys(&[])), Vec::<usize>::new());
    assert_eq!(newest_first(&keys(&["a", "b", "c"])), vec![2, 1, 0]);
    assert_eq!(newest_first(&keys(&["x", "x", "x"])), vec![0, 1, 2]);
}

#[test]
fn byte_order_is_that_of_strings() {
    assert!(bytes_before(&b"2024".to_vec(), &b"2025".to_vec()));
    assert!(!bytes_before(&b"2025".to_vec(), &b"2024".to_vec()));
    assert!(bytes_before(&b"ab".to_vec(), &b"abc".to_vec()));
    assert!(!bytes_before(&b"abc".to_vec(), &b"abc".to_vec()));
    assert!(bytes_before(&Vec::new(), &b"a".to_vec()));
}
