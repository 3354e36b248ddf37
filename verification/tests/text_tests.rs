use linux_tools::name_set::NameSet;
use linux_tools::number::{decimal, parse_u32};
use linux_tools::text::{
    contains, join, replace, replace_first, rsplit_once, split, split_whitespace, starts_with, str_eq,
    trim,
};

#[test]
fn split_keeps_empty_pieces() {
    assert_eq!(split("a\n\nb\n", "\n"), vec!["a", "", "b", ""]);
    assert_eq!(split("", "\n"), vec![""]);
    assert_eq!(split("x: y: z", ": "), vec!["x", "y", "z"]);
}

#[test]
fn trim_removes_unicode_whitespace() {
    assert_eq!(trim("  host\n"), "host");
    assert_eq!(trim("\u{3000}a b\t"), "a b");
    assert_eq!(trim(""), "");
}

#[test]
fn rsplit_once_takes_the_last_match() {
    assert_eq!(rsplit_once("/home/alice", "/"), Some(("/home".to_string(), "alice".to_string())));
    assert_eq!(rsplit_once("a.b.c", "."), Some(("a.b".to_string(), "c".to_string())));
    assert_eq!(rsplit_once("abc", "."), None);
}

#[test]
fn replace_first_and_replace_all() {
    assert_eq!(replace_first("/a/b/a/", "/a/", ""), "b/a/");
    assert_eq!(replace_first("xyz", "q", "r"), "xyz");
    assert_eq!(replace("a-b-c", "-", "+"), "a+b+c");
}

#[test]
fn join_puts_separators_between() {
    let parts = vec!["1 (dpkg)".to_string(), "2 (snap)".to_string()];
    assert_eq!(join(&parts, ", "), "1 (dpkg), 2 (snap)");
    assert_eq!(join(&Vec::new(), ", "), "");
}

#[test]
fn searching_text() {
    assert!(contains("/home/a/.git/x", ".git"));
    assert!(!contains("/home/a/git", ".git"));
    assert!(starts_with("model name\t: X", "model name"));
    assert!(!starts_with("mod", "model"));
    assert!(str_eq("abc", "abc"));
    assert!(!str_eq("abc", "abd"));
}

#[test]
fn split_whitespace_skips_runs() {
    assert_eq!(split_whitespace("  firefox  123 latest \n"), vec!["firefox", "123", "latest"]);
    assert!(split_whitespace("   ").is_empty());
}

#[test]
fn decimal_renders_numbers() {
    assert_eq!(decimal(0), "0");
    assert_eq!(decimal(2400), "2400");
    assert_eq!(decimal(u64::MAX), "18446744073709551615");
}

#[test]
fn parse_u32_follows_from_str() {
    assert_eq!(parse_u32("3000"), Some(3000));
    assert_eq!(parse_u32("+7"), Some(7));
    assert_eq!(parse_u32("4294967295"), Some(u32::MAX));
    assert_eq!(parse_u32("4294967296"), None);
    assert_eq!(parse_u32(""), None);
    assert_eq!(parse_u32("12\n"), None);
    assert_eq!(parse_u32("-1"), None);
    assert_eq!(parse_u32("3000"), "3000".parse::<u32>().ok());
}

#[test]
fn name_set_insert_contains_remove() {
    let mut s = NameSet::new();
    assert!(s.insert("vim"));
    assert!(!s.insert("vim"));
    assert!(s.insert("git"));
    assert_eq!(s.len(), 2);
    assert!(s.contains("vim"));
    assert!(s.remove("vim"));
    assert!(!s.contains("vim"));
    assert!(s.contains("git"));
    assert!(!s.remove("vim"));
    assert_eq!(s.len(), 1);
}
