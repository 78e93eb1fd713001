//! The string helpers the provisioning logic is built on.

use move_on_aptos::text::{join_strings, str_equal, str_starts_with};

#[test]
fn test_join_strings_empty() {
    let items: Vec<String> = vec![];
    assert_eq!(join_strings(&items, ", "), "");
}

#[test]
fn test_join_strings_single() {
    let items = vec!["only.gz".to_string()];
    assert_eq!(join_strings(&items, ", "), "only.gz");
}

#[test]
fn test_join_strings_many() {
    let items = vec!["a".to_string(), "b".to_string(), "c".to_string()];
    assert_eq!(join_strings(&items, ", "), "a, b, c");
}

#[test]
fn test_str_starts_with() {
    assert!(str_starts_with("aptos-language-server-1.0.0", "aptos-language-server-"));
    assert!(str_starts_with("anything", ""));
    assert!(!str_starts_with("aptos-language-serve", "aptos-language-server-"));
    assert!(!str_starts_with("", "a"));
    assert!(!str_starts_with("abc", "abd"));
}

#[test]
fn test_str_equal() {
    assert!(str_equal("", ""));
    assert!(str_equal("same", "same"));
    assert!(!str_equal("same", "samey"));
    assert!(!str_equal("abc", "abd"));
}
