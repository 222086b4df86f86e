use release_installer::text::decimal;
use release_installer::text::ends_with_slash;
use release_installer::text::join3;
use release_installer::text::same_text;

#[test]
fn decimal_writes_digits_without_padding() {
    assert_eq!(decimal(0), "0");
    assert_eq!(decimal(7), "7");
    assert_eq!(decimal(10), "10");
    assert_eq!(decimal(404), "404");
    assert_eq!(decimal(1234567890), "1234567890");
    assert_eq!(decimal(u64::MAX), "18446744073709551615");
}

#[test]
fn same_text_is_exact() {
    assert!(same_text("", ""));
    assert!(same_text("abc", "abc"));
    assert!(!same_text("abc", "abd"));
    assert!(!same_text("abc", "ab"));
    assert!(!same_text("abc", "ABC"));
    assert!(same_text("gr\u{fc}n", "gr\u{fc}n"));
    assert!(!same_text("gr\u{fc}n", "grun"));
}

#[test]
fn ends_with_slash_looks_at_the_last_character() {
    assert!(ends_with_slash("a/"));
    assert!(ends_with_slash("/"));
    assert!(!ends_with_slash(""));
    assert!(!ends_with_slash("a/b"));
    assert!(!ends_with_slash("a\\"));
    assert!(ends_with_slash("\u{fc}/"));
}

#[test]
fn join3_concatenates_in_order() {
    assert_eq!(join3("a", "b", "c"), "abc");
    assert_eq!(join3("", "x", ""), "x");
}
