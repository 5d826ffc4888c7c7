use rustyscript::specifier::{classify, SpecifierKind};
use rustyscript::text::{contains_name, copy_names, has_prefix, same_names, str_equal};

fn names(list: &[&str]) -> Vec<String> {
    list.iter().map(|s| s.to_string()).collect()
}

#[test]
fn classify_relative_specifiers() {
    assert_eq!(classify("./a.js"), SpecifierKind::Relative);
    assert_eq!(classify("../lib/a.js"), SpecifierKind::Relative);
    assert_eq!(classify("/abs/a.js"), SpecifierKind::Relative);
    assert_eq!(classify("/"), SpecifierKind::Relative);
}

#[test]
fn classify_file_specifiers() {
    assert_eq!(classify("file:///home/a.js"), SpecifierKind::File);
    assert_eq!(classify("file:"), SpecifierKind::File);
}

#[test]
fn classify_network_specifiers() {
    assert_eq!(classify("http://example.com/a.js"), SpecifierKind::Network);
    assert_eq!(classify("https://example.com/a.js"), SpecifierKind::Network);
}

#[test]
fn classify_bare_specifiers() {
    assert_eq!(classify("lodash"), SpecifierKind::Bare);
    assert_eq!(classify(""), SpecifierKind::Bare);
    assert_eq!(classify("."), SpecifierKind::Bare);
    assert_eq!(classify(".."), SpecifierKind::Bare);
    assert_eq!(classify(".hidden"), SpecifierKind::Bare);
    assert_eq!(classify("file"), SpecifierKind::Bare);
    assert_eq!(classify("httpx://example.com"), SpecifierKind::Bare);
    assert_eq!(classify("data:text/javascript,1"), SpecifierKind::Bare);
    assert_eq!(classify("ext:core/mod.js"), SpecifierKind::Bare);
}

#[test]
fn classify_matches_schemes_in_lower_case_only() {
    assert_eq!(classify("HTTP://example.com/a.js"), SpecifierKind::Bare);
    assert_eq!(classify("File:///a.js"), SpecifierKind::Bare);
}

#[test]
fn has_prefix_compares_characters() {
    assert!(has_prefix("https://x", "https:"));
    assert!(has_prefix("abc", ""));
    assert!(has_prefix("", ""));
    assert!(has_prefix("abc", "abc"));
    assert!(!has_prefix("ab", "abc"));
    assert!(!has_prefix("", "a"));
    assert!(!has_prefix("xbc", "abc"));
    assert!(has_prefix("\u{e9}t\u{e9}.js", "\u{e9}t"));
    assert!(!has_prefix("\u{e9}t\u{e9}.js", "et"));
}

#[test]
fn str_equal_compares_characters() {
    assert!(str_equal("", ""));
    assert!(str_equal("run", "run"));
    assert!(!str_equal("run", "ru"));
    assert!(!str_equal("run", "rum"));
    assert!(!str_equal("", "a"));
    assert!(str_equal("na\u{ef}ve", "na\u{ef}ve"));
    assert!(!str_equal("na\u{ef}ve", "naive"));
}

#[test]
fn contains_name_finds_exact_names_only() {
    let list = names(&["run", "default", "getValue"]);
    assert!(contains_name(&list, "run"));
    assert!(contains_name(&list, "getValue"));
    assert!(!contains_name(&list, "getvalue"));
    assert!(!contains_name(&list, "ru"));
    assert!(!contains_name(&list, ""));
    assert!(!contains_name(&names(&[]), "run"));
}

#[test]
fn same_names_respects_order_and_length() {
    assert!(same_names(&names(&[]), &names(&[])));
    assert!(same_names(&names(&["a", "b"]), &names(&["a", "b"])));
    assert!(!same_names(&names(&["a", "b"]), &names(&["b", "a"])));
    assert!(!same_names(&names(&["a"]), &names(&["a", "b"])));
    assert!(!same_names(&names(&["a", "b"]), &names(&["a", "c"])));
}

#[test]
fn copy_names_keeps_every_name() {
    let list = names(&["run", "", "x y"]);
    assert_eq!(copy_names(&list), list);
    assert_eq!(copy_names(&names(&[])), names(&[]));
}
