use vshell::strutil::{has_prefix, matches_at, replace_all};

#[test]
fn replace_all_scans_left_to_right_without_overlap() {
    assert_eq!(replace_all("abcabc", "bc", "Z"), "aZaZ");
    assert_eq!(replace_all("aaaa", "aa", "b"), "bb");
    assert_eq!(replace_all("~x~", "~", "/home/u"), "/home/ux/home/u");
    assert_eq!(replace_all("none here", "zz", "y"), "none here");
}

#[test]
fn replace_all_with_an_empty_pattern_changes_nothing() {
    assert_eq!(replace_all("abc", "", "y"), "abc");
}

#[test]
fn prefix_and_substring_tests() {
    assert!(has_prefix("/home/user/x", "/home/user"));
    assert!(!has_prefix("/home", "/home/user"));
    assert!(has_prefix("anything", ""));
    assert!(matches_at("abcdef", 2, "cde"));
    assert!(!matches_at("abcdef", 1, "cde"));
}
