use url::Url;
use url_shortener::store::{RegistrationError, ResolutionError, Store, StoreAccess};
use url_shortener::token::{Token, ValidationError};

#[test]
fn store_test_register_url() {
    let mut store = Store::default();
    let url = Url::parse("https://example.com").unwrap();
    let token = store.register_url(url.clone()).unwrap();

    assert_eq!(store.len(), 1);
    assert_eq!(store.get(&token), Some(&url));
}

#[test]
fn test_resolve_token() {
    let mut store = Store::default();
    let url = Url::parse("https://example.com").unwrap();
    let token = store.register_url(url.clone()).unwrap();

    let resolved = store.resolve_token(token.as_str()).unwrap();
    assert_eq!(resolved, url);
}

#[test]
fn test_resolve_nonexistent_token() {
    let store = Store::default();
    let result = store.resolve_token("123456");
    assert!(result.is_err());
}

#[test]
fn test_resolve_invalid_token() {
    let store = Store::default();
    let result = store.resolve_token("too_long");
    assert!(result.is_err());
}

#[test]
fn test_multiple_urls() {
    let mut store = Store::default();
    let url1 = Url::parse("https://example1.com").unwrap();
    let url2 = Url::parse("https://example2.com").unwrap();

    let token1 = store.register_url(url1.clone()).unwrap();
    let token2 = store.register_url(url2.clone()).unwrap();

    assert_ne!(token1, token2);
    assert_eq!(store.resolve_token(token1.as_str()).unwrap(), url1);
    assert_eq!(store.resolve_token(token2.as_str()).unwrap(), url2);
}

#[test]
fn empty_store_has_no_entries() {
    let store = Store::default();
    assert_eq!(store.len(), 0);
    assert_eq!(store.get(&Token::try_from("123456").unwrap()), None);
}

#[test]
fn resolving_an_unknown_token_is_not_found() {
    let store = Store::default();
    assert_eq!(store.resolve_token("123456"), Err(ResolutionError::NotFound));
}

#[test]
fn resolving_a_text_of_another_length_is_invalid() {
    let mut store = Store::default();
    store.register_url(Url::parse("https://example.com").unwrap()).unwrap();
    let invalid = ResolutionError::InvalidToken(ValidationError { expected: 6 });
    assert_eq!(store.resolve_token("too_long"), Err(invalid));
    assert_eq!(store.resolve_token("abc12"), Err(invalid));
    assert_eq!(store.resolve_token(""), Err(invalid));
}

#[test]
fn resolving_six_characters_that_are_not_alphanumeric_is_not_found() {
    let mut store = Store::default();
    store.register_url(Url::parse("https://example.com").unwrap()).unwrap();
    assert_eq!(store.resolve_token("a-b_c!"), Err(ResolutionError::NotFound));
    assert_eq!(store.resolve_token("abcde\u{e9}"), Err(ResolutionError::NotFound));
}

#[test]
fn resolving_six_bytes_of_three_characters_is_invalid() {
    let mut store = Store::default();
    store.register_url(Url::parse("https://example.com").unwrap()).unwrap();
    let invalid = ResolutionError::InvalidToken(ValidationError { expected: 6 });
    assert_eq!(store.resolve_token("\u{e9}\u{e9}\u{e9}"), Err(invalid));
}

#[test]
fn registration_round_trips() {
    let mut store = Store::default();
    for i in 0..50 {
        let url = Url::parse(&format!("https://example.com/page/{}", i)).unwrap();
        let token = store.register_url(url.clone()).unwrap();
        assert!(token.is_alphanumeric());
        assert_eq!(store.resolve_token(token.as_str()), Ok(url));
    }
}

#[test]
fn registration_never_fails() {
    let mut store = Store::default();
    let url = Url::parse("https://example.com").unwrap();
    let result: Result<Token, RegistrationError> = store.register_url(url);
    assert!(result.is_ok());
}

#[test]
fn insert_binds_the_given_token() {
    let mut store = Store::default();
    let token = Token::from_symbols(b"abc123").unwrap();
    let url = Url::parse("https://example.com/a").unwrap();
    store.insert(token.clone(), url.clone());
    assert_eq!(store.len(), 1);
    assert_eq!(store.get(&token), Some(&url));
    assert_eq!(store.resolve_token("abc123"), Ok(url));
    assert_eq!(store.resolve_token("abc124"), Err(ResolutionError::NotFound));
}

#[test]
fn later_binding_of_a_token_wins() {
    let mut store = Store::default();
    let token = Token::from_symbols(b"abc123").unwrap();
    let first = Url::parse("https://example1.com").unwrap();
    let second = Url::parse("https://example2.com").unwrap();
    store.insert(token.clone(), first);
    store.insert(token.clone(), second.clone());
    assert_eq!(store.len(), 1);
    assert_eq!(store.resolve_token(token.as_str()), Ok(second));
}

#[test]
fn binding_one_token_leaves_the_others() {
    let mut store = Store::default();
    let one = Token::from_symbols(b"aaaaa1").unwrap();
    let two = Token::from_symbols(b"aaaaa2").unwrap();
    let first = Url::parse("https://example1.com").unwrap();
    let second = Url::parse("https://example2.com").unwrap();
    store.insert(one, first.clone());
    store.insert(two, second.clone());
    assert_eq!(store.len(), 2);
    assert_eq!(store.resolve_token("aaaaa1"), Ok(first));
    assert_eq!(store.resolve_token("aaaaa2"), Ok(second));
}

#[test]
fn resolving_changes_nothing() {
    let mut store = Store::default();
    let url = Url::parse("https://example.com").unwrap();
    let token = store.register_url(url.clone()).unwrap();
    let _ = store.resolve_token("123456");
    let _ = store.resolve_token("too_long");
    assert_eq!(store.len(), 1);
    assert_eq!(store.resolve_token(token.as_str()), Ok(url));
}
