use newsletter_ingest::stripslashes;

#[test]
fn clean_text_is_unchanged() {
    assert_eq!(stripslashes("plain text, no escapes"), Some("plain text, no escapes".to_string()));
    assert_eq!(stripslashes(""), Some(String::new()));
}

#[test]
fn escaped_backslash_yields_one_backslash() {
    assert_eq!(stripslashes("a\\\\bc"), Some("a\\bc".to_string()));
}

#[test]
fn backslash_keeps_the_next_character() {
    assert_eq!(stripslashes("ab\\c"), Some("abc".to_string()));
    assert_eq!(stripslashes("\\\"quoted\\\""), Some("\"quoted\"".to_string()));
}

#[test]
fn standard_escape_codes_are_not_interpreted() {
    assert_eq!(stripslashes("line\\nbreak"), Some("linenbreak".to_string()));
    assert_eq!(stripslashes("\\u00e9"), Some("u00e9".to_string()));
}

#[test]
fn lone_trailing_backslash_fails() {
    assert_eq!(stripslashes("abc\\"), None);
    assert_eq!(stripslashes("\\"), None);
}

#[test]
fn escaped_trailing_backslash_succeeds() {
    assert_eq!(stripslashes("abc\\\\"), Some("abc\\".to_string()));
}

#[test]
fn non_ascii_text_survives() {
    assert_eq!(stripslashes("caf\\é ☕"), Some("café ☕".to_string()));
}
