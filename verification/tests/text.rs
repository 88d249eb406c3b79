use vista_shell::text::{ends_with, is_listed, position, push_decimal, same_text, starts_with};

#[test]
fn prefixes_and_suffixes() {
    assert!(starts_with("añb", "añ"));
    assert!(!starts_with("a", "añ"));
    assert!(starts_with("", ""));
    assert!(ends_with("añb", "ñb"));
    assert!(!ends_with("b", "ñb"));
    assert!(same_text("añ", "añ"));
    assert!(!same_text("a", "añ"));
}

#[test]
fn decimals_have_no_leading_zeros() {
    for n in [0u32, 7, 10, 99, 100, 4_000_000_000, u32::MAX] {
        let mut text = String::from("n=");
        push_decimal(&mut text, n);
        assert_eq!(text, format!("n={n}"));
    }
}

#[test]
fn positions_are_first_positions() {
    let list = vec!["a".to_string(), "b".to_string(), "a".to_string()];
    assert_eq!(position(&list, "a"), Some(0));
    assert_eq!(position(&list, "b"), Some(1));
    assert_eq!(position(&list, "c"), None);
    assert!(is_listed(&list, "b"));
    assert!(!is_listed(&list, "c"));
}
