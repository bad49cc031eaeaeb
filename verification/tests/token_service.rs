use auth_service::banned_token_store::HashsetBannedTokenStore;
use auth_service::data_store::BannedTokenStore;
use auth_service::digits::{parse_u64, u64_to_string};
use auth_service::email::Email;
use auth_service::redis_banned_token_store;
use auth_service::redis_two_fa_code_store;
use auth_service::token::{issue_token, validate_token, TOKEN_TTL_SECONDS};

const SECRET: &str = "test-secret";

fn email(s: &str) -> Email {
    Email::parse(s.to_string()).unwrap()
}

#[test]
fn u64_renders_as_decimal() {
    assert_eq!(u64_to_string(0), "0".to_string());
    assert_eq!(u64_to_string(7), "7".to_string());
    assert_eq!(u64_to_string(905), "905".to_string());
    assert_eq!(u64_to_string(100000), "100000".to_string());
    assert_eq!(
        u64_to_string(u64::MAX),
        "18446744073709551615".to_string()
    );
}

#[test]
fn parse_u64_accepts_digit_strings_that_fit() {
    assert_eq!(parse_u64("0"), Some(0));
    assert_eq!(parse_u64("000905"), Some(905));
    assert_eq!(parse_u64("18446744073709551615"), Some(u64::MAX));
}

#[test]
fn parse_u64_rejects_the_rest() {
    assert_eq!(parse_u64(""), None);
    assert_eq!(parse_u64("12a"), None);
    assert_eq!(parse_u64("-1"), None);
    assert_eq!(parse_u64("18446744073709551616"), None);
}

#[test]
fn issued_token_validates_and_names_its_subject() {
    let store = HashsetBannedTokenStore::default();
    let token = issue_token(&email("test@example.com"), 1_000, SECRET);
    let claims = validate_token(token.as_str(), &store, 1_000, SECRET).unwrap();
    assert_eq!(claims.subject.as_str(), "test@example.com");
    assert_eq!(claims.issued_at, 1_000);
    assert_eq!(claims.expiry, 1_000 + TOKEN_TTL_SECONDS);
}

#[test]
fn expired_token_is_rejected_even_if_never_banned() {
    let store = HashsetBannedTokenStore::default();
    let token = issue_token(&email("test@example.com"), 1_000, SECRET);
    assert!(validate_token(token.as_str(), &store, 1_000 + TOKEN_TTL_SECONDS - 1, SECRET).is_some());
    assert!(validate_token(token.as_str(), &store, 1_000 + TOKEN_TTL_SECONDS, SECRET).is_none());
    assert!(validate_token(token.as_str(), &store, 5_000, SECRET).is_none());
}

#[test]
fn banned_token_is_rejected_before_its_expiry() {
    let mut store = HashsetBannedTokenStore::default();
    let token = issue_token(&email("test@example.com"), 1_000, SECRET);
    store.store_token(token.clone()).unwrap();
    assert!(validate_token(token.as_str(), &store, 1_000, SECRET).is_none());
}

#[test]
fn token_under_a_different_secret_is_rejected() {
    let store = HashsetBannedTokenStore::default();
    let token = issue_token(&email("test@example.com"), 1_000, SECRET);
    assert!(validate_token(token.as_str(), &store, 1_000, "other-secret").is_none());
}

#[test]
fn tampered_token_is_rejected() {
    let store = HashsetBannedTokenStore::default();
    let token = issue_token(&email("test@example.com"), 1_000, SECRET);
    let mut tampered = String::from(token.trim_end_matches("test@example.com"));
    tampered.push_str("other@example.com");
    assert!(validate_token(tampered.as_str(), &store, 1_000, SECRET).is_none());
    assert!(validate_token("invalid_token", &store, 1_000, SECRET).is_none());
}

#[test]
fn subject_with_dots_round_trips() {
    let store = HashsetBannedTokenStore::default();
    let token = issue_token(&email("first.last@mail.example.org"), 2_000, SECRET);
    let claims = validate_token(token.as_str(), &store, 2_000, SECRET).unwrap();
    assert_eq!(claims.subject.as_str(), "first.last@mail.example.org");
}

#[test]
fn banned_token_key_is_prefixed() {
    assert_eq!(
        redis_banned_token_store::get_key("test_token"),
        "banned_token:test_token".to_string()
    );
}

#[test]
fn two_fa_code_key_is_prefixed() {
    assert_eq!(
        redis_two_fa_code_store::get_key(&email("test@email.com")),
        "two_fa_code:test@email.com".to_string()
    );
}
