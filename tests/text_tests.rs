use godo::text::{compare_text, contains, ends_with, find_char, same_text, starts_with};
use std::cmp::Ordering;

#[test]
fn prefix_suffix_infix() {
    assert!(starts_with("4.2-stable", "4.2"));
    assert!(!starts_with("4.2", "4.2-stable"));
    assert!(starts_with("abc", ""));
    assert!(ends_with("4.2-stable", "stable"));
    assert!(!ends_with("4.3-rc1", "stable"));
    assert!(contains("Godot_win64_mono.zip", "mono"));
    assert!(!contains("Godot_win64.zip", "mono"));
    assert!(contains("", ""));
    assert!(same_text("a", "a"));
    assert!(!same_text("a", "ab"));
}

#[test]
fn find_and_order() {
    assert_eq!(find_char("4.2.1", '.', 0), 1);
    assert_eq!(find_char("4.2.1", '.', 2), 3);
    assert_eq!(find_char("4.2.1", '.', 4), 5);
    assert_eq!(compare_text("10", "9"), Ordering::Less);
    assert_eq!(compare_text("2", "2-stable"), Ordering::Less);
    assert_eq!(compare_text("é", "e"), "é".cmp("e"));
    assert_eq!(compare_text("x", "x"), Ordering::Equal);
}
