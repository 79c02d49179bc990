use credscan::pattern::{
    compile, is_blank, LineKind, PatternError, Patterns, CREDENTIAL_PATTERN, URL_PATTERN,
};

fn patterns() -> Patterns {
    Patterns::new().expect("the two patterns compile")
}

#[test]
fn both_patterns_compile() {
    assert!(Patterns::new().is_ok());
    assert!(compile(URL_PATTERN, PatternError::Url).is_ok());
    assert!(compile(CREDENTIAL_PATTERN, PatternError::Credential).is_ok());
}

#[test]
fn compile_keeps_the_pattern_text() {
    let re = compile(r"a+b", PatternError::Url).expect("a valid pattern");
    assert_eq!(re.as_str(), "a+b");
}

#[test]
fn refused_url_pattern_gives_the_url_error() {
    assert_eq!(compile("(unclosed", PatternError::Url).err(), Some(PatternError::Url));
}

#[test]
fn refused_credential_pattern_gives_the_credential_error() {
    assert_eq!(
        compile("[z-a]", PatternError::Credential).err(),
        Some(PatternError::Credential)
    );
}

#[test]
fn find_url_returns_the_match_and_not_the_line() {
    let p = patterns();
    assert_eq!(
        p.find_url("see http://a.com:80 for more"),
        Some("http://a.com".to_string())
    );
    assert_eq!(p.find_url("https://b.org/x?y=1 z"), Some("https://b.org/x?y=1".to_string()));
    assert_eq!(p.find_url("android://com.app"), Some("android://com.app".to_string()));
    assert_eq!(p.find_url("ftp://f"), Some("ftp://f".to_string()));
}

#[test]
fn find_url_needs_a_known_scheme_and_a_host() {
    let p = patterns();
    assert_eq!(p.find_url("gopher://x"), None);
    assert_eq!(p.find_url("http://"), None);
    assert_eq!(p.find_url("http:// x"), None);
    assert_eq!(p.find_url(""), None);
    assert_eq!(p.find_url("plain text"), None);
}

#[test]
fn find_url_takes_the_leftmost_url() {
    let p = patterns();
    assert_eq!(p.find_url("ftp://one http://two"), Some("ftp://one".to_string()));
    // `xhttps://h` holds `https://h` from its second character on.
    assert_eq!(p.find_url("xhttps://h"), Some("https://h".to_string()));
}

#[test]
fn find_credential_returns_the_run_at_the_end() {
    let p = patterns();
    assert_eq!(p.find_credential("user1"), Some("user1".to_string()));
    assert_eq!(p.find_credential("Login: bob"), Some("bob".to_string()));
    assert_eq!(p.find_credential("a:b:c"), Some("c".to_string()));
}

#[test]
fn find_credential_needs_a_run_at_the_very_end() {
    let p = patterns();
    assert_eq!(p.find_credential(""), None);
    assert_eq!(p.find_credential("   "), None);
    assert_eq!(p.find_credential("name:"), None);
    assert_eq!(p.find_credential("trailing space "), None);
}

#[test]
fn classify_asks_url_first_then_credential_then_blank() {
    let p = patterns();
    assert_eq!(p.classify("go to http://a.com now"), LineKind::Url("http://a.com".to_string()));
    assert_eq!(p.classify("pass word"), LineKind::Credential("word".to_string()));
    assert_eq!(p.classify(""), LineKind::Blank);
    assert_eq!(p.classify(" \t "), LineKind::Blank);
    assert_eq!(p.classify("key: "), LineKind::Other);
    assert_eq!(p.classify("x:"), LineKind::Other);
}

#[test]
fn is_blank_on_empty_and_whitespace() {
    assert!(is_blank(""));
    assert!(is_blank(" "));
    assert!(is_blank("\t \r"));
    assert!(is_blank("\u{00a0}\u{3000}"));
}

#[test]
fn is_blank_is_false_with_any_other_character() {
    assert!(!is_blank("a"));
    assert!(!is_blank("  :  "));
    assert!(!is_blank(" \u{200b} "));
}

#[test]
fn pattern_errors_are_distinct() {
    assert_ne!(PatternError::Url, PatternError::Credential);
}
