use url_shortener::token::{is_alphanumeric_symbol, Token, ValidationError};

#[test]
fn test_token_length() {
    assert_eq!(Token::TOKEN_LENGTH, 6);
}

#[test]
fn test_token_generation() {
    let token = Token::default();
    assert_eq!(token.as_str().len(), Token::TOKEN_LENGTH);
}

#[test]
fn test_token_generation_is_random() {
    let token1 = Token::default();
    let token2 = Token::default();
    assert_ne!(token1, token2);
}

#[test]
fn test_token_generation_is_alphanumeric() {
    let token = Token::default();
    assert!(token.as_str().chars().all(|c| c.is_alphanumeric()));
}

#[test]
fn test_try_from_fails_for_longer_strings() {
    let result = Token::try_from("1234567");
    assert!(result.is_err());
}

#[test]
fn try_from_fails_for_shorter_strings() {
    let result = Token::try_from("abc12");
    assert_eq!(result, Err(ValidationError { expected: 6 }));
}

#[test]
fn try_from_names_the_expected_length() {
    assert_eq!(Token::try_from("1234567"), Err(ValidationError { expected: 6 }));
    assert_eq!(Token::try_from(""), Err(ValidationError { expected: 6 }));
}

#[test]
fn try_from_keeps_the_text() {
    let token = Token::try_from("abc123").unwrap();
    assert_eq!(token.as_str(), "abc123");
    assert_eq!(token.to_string(), "abc123");
}

#[test]
fn try_from_does_not_look_at_the_characters() {
    let token = Token::try_from("a-b_c!").unwrap();
    assert_eq!(token.as_str(), "a-b_c!");
    assert!(!token.is_alphanumeric());
}

#[test]
fn try_from_counts_characters() {
    // Three characters of two bytes each.
    assert_eq!(
        Token::try_from("\u{e9}\u{e9}\u{e9}"),
        Err(ValidationError { expected: 6 })
    );
    // Six characters, seven bytes.
    let token = Token::try_from("abcde\u{e9}").unwrap();
    assert_eq!(token.as_str(), "abcde\u{e9}");
    assert_eq!(token.as_str().chars().count(), 6);
    assert_eq!(token.as_str().len(), 7);
    assert!(!token.is_alphanumeric());
    // Six characters of four bytes each.
    let token = Token::try_from("\u{1f600}\u{1f600}\u{1f600}\u{1f600}\u{1f600}\u{1f600}").unwrap();
    assert_eq!(token.as_str().chars().count(), 6);
    // Seven characters, of which six bytes would be a token's worth.
    assert!(Token::try_from("abcdefg").is_err());
}

#[test]
fn generated_tokens_are_ascii_alphanumeric() {
    for _ in 0..200 {
        let token = Token::default();
        assert_eq!(token.as_str().len(), 6);
        assert_eq!(token.as_str().chars().count(), 6);
        assert!(token.as_str().bytes().all(|b| b.is_ascii_alphanumeric()));
        assert!(token.is_alphanumeric());
    }
}

#[test]
fn generated_tokens_vary() {
    let first = Token::default();
    let mut differs = false;
    for _ in 0..20 {
        if Token::default() != first {
            differs = true;
        }
    }
    assert!(differs);
}

#[test]
fn from_symbols_spells_the_token() {
    let token = Token::from_symbols(b"aB3xY9").unwrap();
    assert_eq!(token.as_str(), "aB3xY9");
    assert!(token.is_alphanumeric());
    assert_eq!(token, Token::try_from("aB3xY9").unwrap());
}

#[test]
fn from_symbols_refuses_other_lengths() {
    assert!(Token::from_symbols(b"").is_none());
    assert!(Token::from_symbols(b"abc12").is_none());
    assert!(Token::from_symbols(b"abc1234").is_none());
}

#[test]
fn from_symbols_refuses_other_symbols() {
    assert!(Token::from_symbols(b"abc-12").is_none());
    assert!(Token::from_symbols(b"abc 12").is_none());
    assert!(Token::from_symbols(&[b'a', b'b', b'c', b'1', b'2', 0xe9]).is_none());
}

#[test]
fn alphanumeric_symbols_are_digits_and_letters() {
    for symbol in 0..=255u8 {
        assert_eq!(is_alphanumeric_symbol(symbol), symbol.is_ascii_alphanumeric());
    }
}

#[test]
fn equal_tokens_have_equal_text() {
    let token = Token::try_from("abc123").unwrap();
    let copy = token.clone();
    assert_eq!(token, copy);
    assert_eq!(copy.as_str(), "abc123");
    assert_ne!(token, Token::try_from("abc124").unwrap());
}
