use efm::text::{ends_with, join, strip_suffix};

#[test]
fn ends_with_finds_a_suffix() {
    assert!(ends_with("esp-1.local.", ".local."));
    assert!(ends_with(".local.", ".local."));
    assert!(ends_with("anything", ""));
    assert!(ends_with("", ""));
}

#[test]
fn ends_with_misses_what_is_not_at_the_end() {
    assert!(!ends_with("esp-1.local", ".local."));
    assert!(!ends_with("esp-1.local.x", ".local."));
    assert!(!ends_with("local.", ".local."));
    assert!(!ends_with("", ".local."));
}

#[test]
fn ends_with_counts_characters_not_bytes() {
    assert!(ends_with("gerät-ß", "ät-ß"));
    assert!(!ends_with("gerät-ß", "at-ß"));
}

#[test]
fn strip_suffix_removes_one_suffix_at_the_end() {
    assert_eq!(strip_suffix("esp-1.local.", ".local."), "esp-1");
    assert_eq!(strip_suffix("a.local.b.local.", ".local."), "a.local.b");
    assert_eq!(strip_suffix(".local..local.", ".local."), ".local.");
    assert_eq!(strip_suffix(".local.", ".local."), "");
    assert_eq!(strip_suffix("küche.local.", ".local."), "küche");
}

#[test]
fn strip_suffix_leaves_other_text_alone() {
    assert_eq!(strip_suffix("esp-1", ".local."), "esp-1");
    assert_eq!(strip_suffix("esp-1.local", ".local."), "esp-1.local");
    assert_eq!(strip_suffix(".local.esp", ".local."), ".local.esp");
    assert_eq!(strip_suffix("", ".local."), "");
    assert_eq!(strip_suffix("esp", ""), "esp");
}

#[test]
fn join_puts_the_separator_between_parts() {
    let parts = vec!["a".to_string(), "b".to_string(), "c".to_string()];
    assert_eq!(join(&parts, ","), "a,b,c");
    assert_eq!(join(&parts, " - "), "a - b - c");
    assert_eq!(join(&parts, ""), "abc");
}

#[test]
fn join_of_few_parts() {
    assert_eq!(join(&vec![], ","), "");
    assert_eq!(join(&vec!["one".to_string()], ","), "one");
    assert_eq!(join(&vec!["".to_string(), "".to_string()], ","), ",");
}
