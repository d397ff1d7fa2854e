use sshn::tokens::expiry_after;
use sshn::{LoginResponse, Token, TokenType, Tokens};

fn response(expires_in: i64, refresh_expires_in: i64) -> LoginResponse {
    LoginResponse {
        access_token: String::from("access"),
        expires_in,
        refresh_expires_in,
        refresh_token: String::from("refresh"),
    }
}

fn clock() -> i64 {
    let since = std::time::SystemTime::now()
        .duration_since(std::time::UNIX_EPOCH)
        .unwrap();
    since.as_millis() as i64
}

#[test]
fn expiry_is_now_plus_lifetime() {
    assert_eq!(expiry_after(1_000, 300), Some(301_000));
    assert_eq!(expiry_after(0, 0), Some(0));
    assert_eq!(expiry_after(1_700_000_000_000, 1_800), Some(1_700_001_800_000));
    assert_eq!(expiry_after(5_000, -2), Some(3_000));
}

#[test]
fn expiry_at_the_edges_of_the_range() {
    assert_eq!(expiry_after(i64::MAX, 0), Some(i64::MAX));
    assert_eq!(expiry_after(i64::MAX, 1), None);
    assert_eq!(expiry_after(i64::MAX - 1000, 1), Some(i64::MAX));
    assert_eq!(expiry_after(i64::MAX - 999, 1), None);
    assert_eq!(expiry_after(i64::MIN, 0), Some(i64::MIN));
    assert_eq!(expiry_after(i64::MIN, -1), None);
    assert_eq!(expiry_after(0, i64::MAX), None);
    assert_eq!(expiry_after(0, i64::MIN), None);
    assert_eq!(expiry_after(0, i64::MAX / 1000), Some(i64::MAX / 1000 * 1000));
    assert_eq!(expiry_after(0, i64::MAX / 1000 + 1), None);
    assert_eq!(
        expiry_after(-1_000_000, i64::MAX / 1000 + 1),
        Some((i64::MAX / 1000 + 1 - 1000) * 1000)
    );
}

#[test]
fn token_built_with_a_lifetime_of_300_seconds() {
    let now = 1_700_000_000_000;
    let tokens = response(300, 1_800).into_tokens_at(now).unwrap();
    assert_eq!(tokens.access_token().expires(), now + 300_000);
    assert_eq!(tokens.refresh_token().expires(), now + 1_800_000);
    assert_eq!(tokens.access_token().content(), "access");
    assert_eq!(tokens.refresh_token().content(), "refresh");
    assert_eq!(tokens.access_token().token_type(), TokenType::Access);
    assert_eq!(tokens.refresh_token().token_type(), TokenType::Refresh);
}

#[test]
fn token_built_against_the_clock() {
    let before = clock();
    let tokens = response(300, 1_800).into_tokens().unwrap();
    let after = clock();
    let access = tokens.access_token().expires();
    assert!(access >= before + 300_000);
    assert!(access <= after + 300_000);
    assert!(access - (before + 300_000) <= 1_000);
    let refresh = tokens.refresh_token().expires();
    assert!(refresh >= before + 1_800_000);
    assert!(refresh <= after + 1_800_000);
}

#[test]
fn lifetimes_out_of_range_yield_no_tokens() {
    assert!(response(i64::MAX, 10).into_tokens_at(0).is_none());
    assert!(response(10, i64::MAX).into_tokens_at(0).is_none());
    assert!(response(i64::MIN, 10).into_tokens_at(0).is_none());
    assert!(response(1, 1).into_tokens_at(i64::MAX).is_none());
    assert!(response(i64::MAX, i64::MAX).into_tokens().is_none());
}

#[test]
fn a_token_expires_at_its_expiry() {
    let token = Token::new(String::from("t"), 1_000, TokenType::Access);
    assert!(!token.has_expired_at(999));
    assert!(token.has_expired_at(1_000));
    assert!(token.has_expired_at(1_001));
    assert!(!token.has_expired_at(i64::MIN));
    assert!(token.has_expired_at(i64::MAX));
}

#[test]
fn expiry_against_the_clock() {
    let past = Token::new(String::from("t"), clock() - 60_000, TokenType::Access);
    assert!(past.has_expired());
    let future = Token::new(String::from("t"), clock() + 60_000, TokenType::Refresh);
    assert!(!future.has_expired());
}

#[test]
fn token_getters_return_what_was_given() {
    let token = Token::new(String::from("content"), -5, TokenType::Refresh);
    assert_eq!(token.content(), "content");
    assert_eq!(token.expires(), -5);
    assert_eq!(token.token_type(), TokenType::Refresh);
    let copy = token.clone();
    assert_eq!(copy.content(), "content");
    assert_eq!(copy.expires(), -5);
    assert_eq!(copy.token_type(), TokenType::Refresh);
}

#[test]
fn default_token_is_an_expired_empty_access_token() {
    let token = Token::default();
    assert_eq!(token.content(), "");
    assert_eq!(token.token_type(), TokenType::Access);
    assert!(token.has_expired_at(clock() + 1));
    assert_eq!(TokenType::default(), TokenType::Access);
    let empty = Token::empty_at(77);
    assert_eq!(empty.expires(), 77);
    assert!(empty.has_expired_at(77));
    assert!(!empty.has_expired_at(76));
}

#[test]
fn pair_keeps_its_two_tokens_apart() {
    let refresh = Token::new(String::from("r"), 2_000, TokenType::Refresh);
    let access = Token::new(String::from("a"), 1_000, TokenType::Access);
    let tokens = Tokens::new(refresh, access);
    assert_eq!(tokens.refresh_token().content(), "r");
    assert_eq!(tokens.refresh_token().expires(), 2_000);
    assert_eq!(tokens.access_token().content(), "a");
    assert_eq!(tokens.access_token().expires(), 1_000);
    let copy = tokens.clone();
    assert_eq!(copy.refresh_token().content(), "r");
    assert_eq!(copy.access_token().content(), "a");
}
