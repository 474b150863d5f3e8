use crcli::iroh::{is_white_space_char, strip_leading_matches, trim_white_space};
use crcli::path::{extension, file_name};
use crcli::text::{
    chars_of, concat3, eq_lowercase, i64_to_decimal, parse_u32, starts_with, str_eq,
    string_from_chars, u64_to_decimal,
};

fn chars(s: &str) -> Vec<char> {
    s.chars().collect()
}

fn text(v: Option<Vec<char>>) -> Option<String> {
    v.map(|c| c.into_iter().collect())
}

#[test]
fn decimal_texts() {
    assert_eq!(u64_to_decimal(0), "0");
    assert_eq!(u64_to_decimal(1234567890), "1234567890");
    assert_eq!(u64_to_decimal(u64::MAX), "18446744073709551615");
    assert_eq!(i64_to_decimal(-42), "-42");
    assert_eq!(i64_to_decimal(i64::MIN), "-9223372036854775808");
}

#[test]
fn parse_numbers() {
    assert_eq!(parse_u32("0"), Some(0));
    assert_eq!(parse_u32("4294967295"), Some(u32::MAX));
    assert_eq!(parse_u32("4294967296"), None);
    assert_eq!(parse_u32(""), None);
    assert_eq!(parse_u32("12a"), None);
    assert_eq!(parse_u32("+1"), Some(1));
}

#[test]
fn string_helpers() {
    assert!(starts_with("https://x", "http"));
    assert!(!starts_with("htt", "http"));
    assert!(str_eq("ab", "ab"));
    assert!(!str_eq("ab", "aB"));
    assert!(eq_lowercase(&chars("JpG"), "jpg"));
    assert!(!eq_lowercase(&chars("jpeg"), "jpg"));
    assert!(eq_lowercase(&chars("M\u{212a}V"), "mkv"));
    assert!(!eq_lowercase(&chars("\u{130}"), "i"));
    assert_eq!(concat3("a", "-", "b"), "a-b");
    assert_eq!(string_from_chars(&chars_of("héllo")), "héllo");
}

#[test]
fn trimming() {
    assert_eq!(trim_white_space("  \t abc \n"), "abc");
    assert_eq!(trim_white_space("\u{3000}a b\u{a0}"), "a b");
    assert_eq!(trim_white_space("   "), "");
    assert!(is_white_space_char('\u{2028}'));
    assert!(!is_white_space_char('x'));
    assert_eq!(strip_leading_matches("ab ab abc", "ab "), "abc");
    assert_eq!(strip_leading_matches("xyz", ""), "xyz");
    assert_eq!(
        strip_leading_matches("iroh://localhost/iroh://localhost/QQ==", "iroh://localhost/"),
        "QQ=="
    );
}

#[test]
fn path_names_and_extensions() {
    assert_eq!(text(file_name(&chars("/a/b/c.txt"))), Some("c.txt".to_string()));
    assert_eq!(text(file_name(&chars("/a/b/"))), Some("b".to_string()));
    assert_eq!(text(file_name(&chars("/a/.."))), None);
    assert_eq!(text(file_name(&chars("/"))), None);
    assert_eq!(text(file_name(&chars("a/."))), Some("a".to_string()));
    assert_eq!(text(extension(&chars("x/archive.tar.gz"))), Some("gz".to_string()));
    assert_eq!(text(extension(&chars(".bashrc"))), None);
    assert_eq!(text(extension(&chars("name."))), Some("".to_string()));
    assert_eq!(text(extension(&chars("noext"))), None);
}
