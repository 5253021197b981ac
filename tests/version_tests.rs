use godo::version::{self, compare};
use std::cmp::Ordering;

fn s(x: &str) -> String {
    x.to_string()
}

#[test]
fn parse_standard_dir() {
    let v = version::parse(s("Godot_4.2-stable")).unwrap();
    assert_eq!(v.tag(), "4.2-stable");
    assert!(!v.mono());
}

#[test]
fn parse_mono_dir() {
    let v = version::parse(s("Godot_4.2-stable_mono")).unwrap();
    assert_eq!(v.tag(), "4.2-stable");
    assert!(v.mono());
}

#[test]
fn parse_space_separated_dir() {
    let v = version::parse(s("Godot 3.5-stable mono")).unwrap();
    assert_eq!(v.tag(), "3.5-stable");
    assert!(v.mono());
}

#[test]
fn parse_without_separator_fails() {
    assert!(version::parse(s("Godot")).is_none());
    assert!(version::parse(s("")).is_none());
}

#[test]
fn parse_empty_tag() {
    let v = version::parse(s("Godot_")).unwrap();
    assert_eq!(v.tag(), "");
    assert!(!v.mono());
}

#[test]
fn dir_name_encodes_variant() {
    assert_eq!(version::new(s("4.2-stable"), false).dir_name(), "Godot_4.2-stable");
    assert_eq!(version::new(s("4.2-stable"), true).dir_name(), "Godot_4.2-stable_mono");
}

#[test]
fn names_of_version() {
    let v = version::new(s("4.3-rc1"), true);
    assert_eq!(v.short_name(), "4.3-rc1 mono");
    assert_eq!(v.version_name(), "Godot 4.3-rc1 mono");
    let w = version::new(s("4.3-rc1"), false);
    assert_eq!(w.short_name(), "4.3-rc1");
    assert_eq!(w.version_name(), "Godot 4.3-rc1");
}

#[test]
fn decode_encode_round_trip() {
    for tag in ["4.2-stable", "3.5.3-stable", "4.3-rc1", "4", ""] {
        for mono in [false, true] {
            let v = version::new(s(tag), mono);
            let back = version::parse(v.dir_name()).unwrap();
            assert_eq!(back, v);
        }
    }
}

#[test]
fn versions_equal_by_tag_and_variant() {
    assert_eq!(version::new(s("4.2"), true), version::new(s("4.2"), true));
    assert_ne!(version::new(s("4.2"), true), version::new(s("4.2"), false));
    assert_ne!(version::new(s("4.2"), true), version::new(s("4.1"), true));
}

#[test]
fn compare_pads_missing_segments() {
    assert_eq!(compare(s("4.2"), s("4.2.1")), Ordering::Less);
    assert_eq!(compare(s("4.2.1"), s("4.2")), Ordering::Greater);
    assert_eq!(compare(s("4.2"), s("4.2.0")), Ordering::Equal);
    assert_eq!(compare(s("4"), s("4.0.0")), Ordering::Equal);
}

#[test]
fn compare_segments_as_strings() {
    // "10" sorts below "9" as a string.
    assert_eq!(compare(s("4.10"), s("4.9")), Ordering::Less);
    assert_eq!(compare(s("4.2-stable"), s("4.2-rc1")), Ordering::Greater);
    assert_eq!(compare(s("3.5-stable"), s("4.1-stable")), Ordering::Less);
    assert_eq!(compare(s("4.2-stable"), s("4.2-stable")), Ordering::Equal);
}

#[test]
fn compare_ignores_fourth_segment() {
    assert_eq!(compare(s("4.2.1.7"), s("4.2.1")), Ordering::Equal);
}

#[test]
fn compare_antisymmetric_and_transitive_on_samples() {
    let tags = ["4.2", "4.2.1", "4.10", "3.5-stable", "4.3-rc1", "4", "4.2.0"];
    for a in tags {
        for b in tags {
            assert_eq!(compare(s(a), s(b)), compare(s(b), s(a)).reverse());
            for c in tags {
                let ab = compare(s(a), s(b));
                let bc = compare(s(b), s(c));
                if ab != Ordering::Greater && bc != Ordering::Greater {
                    assert_ne!(compare(s(a), s(c)), Ordering::Greater);
                }
                if ab == Ordering::Less && bc != Ordering::Greater {
                    assert_eq!(compare(s(a), s(c)), Ordering::Less);
                }
            }
        }
    }
}
