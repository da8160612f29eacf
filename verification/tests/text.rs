use wavy::text::{first_line, push_decimal, push_signed_decimal, replace_newlines, same_text, starts_with};

#[test]
fn decimals() {
    let mut s = String::from("n=");
    push_decimal(&mut s, 0);
    assert_eq!(s, "n=0");
    let mut s = String::new();
    push_decimal(&mut s, 18_446_744_073_709_551_615);
    assert_eq!(s, "18446744073709551615");
    let mut s = String::new();
    push_signed_decimal(&mut s, -9_223_372_036_854_775_808);
    assert_eq!(s, "-9223372036854775808");
    let mut s = String::new();
    push_signed_decimal(&mut s, 42);
    assert_eq!(s, "42");
}

#[test]
fn lines_and_prefixes() {
    assert_eq!(replace_newlines("a\nb\n"), "a: b: ");
    assert_eq!(replace_newlines(""), "");
    assert_eq!(first_line("HDA Intel\nFront"), Some("HDA Intel".to_string()));
    assert_eq!(first_line("Card\r\nrest"), Some("Card".to_string()));
    assert_eq!(first_line("\nrest"), Some(String::new()));
    assert_eq!(first_line("single"), Some("single".to_string()));
    assert_eq!(first_line(""), None);
    for s in ["x\ny", "a\r\n", "\r", "abc"] {
        assert_eq!(first_line(s), s.lines().next().map(|l| l.to_string()));
    }
    assert!(starts_with("sysdefault:CARD=PCH", "sysdefault"));
    assert!(!starts_with("sys", "sysdefault"));
    assert!(same_text("null", "null"));
    assert!(!same_text("null", "nul"));
}
