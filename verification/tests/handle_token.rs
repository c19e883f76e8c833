use ashpd::handle_token::{HandleInvalidCharacter, HandleToken};

#[test]
fn handle_token() {
    assert_eq!(HandleToken::try_from("token").is_ok(), true);

    let token = HandleToken::try_from("token2").unwrap();
    assert_eq!(token.to_string(), "token2".to_string());

    assert_eq!(HandleToken::try_from("/test").is_ok(), false);

    assert_eq!(HandleToken::try_from("تجربة").is_ok(), false);

    assert_eq!(HandleToken::try_from("test_token").is_ok(), true);

    HandleToken::default(); // ensure we don't panic
}

#[test]
fn handle_token_reports_first_invalid_character() {
    match HandleToken::try_from("ab-c/d") {
        Err(e) => {
            assert_eq!(e, HandleInvalidCharacter('-'));
            assert_eq!(e.message(), "Invalid Character -");
        }
        Ok(_) => panic!("a dash is not allowed"),
    }
}

#[test]
fn handle_token_default_has_prefix_and_ten_alphanumerics() {
    let token = HandleToken::default();
    let s = token.as_str();
    assert_eq!(s.len(), 16);
    assert!(s.starts_with("ashpd_"));
    assert!(s[6..].chars().all(|c| c.is_ascii_alphanumeric()));
    // Two fresh tokens are, in practice, different.
    let other = HandleToken::default();
    assert_ne!(token.to_string(), other.to_string());
}

#[test]
fn handle_token_from_string() {
    let token = HandleToken::try_from_string("abc_1".to_string()).unwrap();
    assert_eq!(token.as_str(), "abc_1");
    assert!(HandleToken::try_from_string("a b".to_string()).is_err());
}
