use static_site_deploy::text::{chars_of, contains, nth_segment, text_eq, to_decimal};

#[test]
fn contains_finds_a_run_in_the_middle() {
    assert!(contains("Stack with id X does not exist", "does not exist"));
    assert!(!contains("Stack exists", "does not exist"));
    assert!(contains("abc", ""));
    assert!(!contains("ab", "abc"));
}

#[test]
fn nth_segment_cuts_at_every_separator() {
    assert_eq!(nth_segment("/hostedzone/Z123", '/', 2), Some("Z123".to_string()));
    assert_eq!(nth_segment("/hostedzone/Z123", '/', 0), Some("".to_string()));
    assert_eq!(nth_segment("/hostedzone/Z123", '/', 3), None);
    assert_eq!(nth_segment("Z123", '/', 2), None);
    assert_eq!(nth_segment("a//b", '/', 1), Some("".to_string()));
}

#[test]
fn chars_and_equality_go_by_characters() {
    assert_eq!(chars_of("a-b"), vec!['a', '-', 'b']);
    assert!(chars_of("").is_empty());
    assert!(text_eq("Completed", "Completed"));
    assert!(!text_eq("Completed", "completed"));
    assert!(!text_eq("a", "ab"));
}

#[test]
fn to_decimal_writes_base_ten() {
    assert_eq!(to_decimal(0), "0");
    assert_eq!(to_decimal(7), "7");
    assert_eq!(to_decimal(1698530400123), "1698530400123");
    assert_eq!(to_decimal(u128::MAX), u128::MAX.to_string());
}
