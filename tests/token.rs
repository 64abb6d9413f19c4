use webrtc_stream_server::token::{AuthorizationToken, TokenError, VALIDITY_SECONDS};
use webrtc_stream_server::user::User;

const NOW: i64 = 1_700_000_000;

fn user(id: &str) -> User {
    User { id: id.to_string() }
}

#[test]
fn issued_token_validates_to_its_subject() {
    let claims = AuthorizationToken::issued_at(user("alice"), NOW);
    assert_eq!(claims.exp, NOW + 14400);
    let token = claims.encode("s3cret").unwrap();
    let back = AuthorizationToken::decode(&token, "s3cret", NOW).ok().unwrap();
    assert_eq!(back.uid, "alice");
    assert_eq!(back.exp, NOW + VALIDITY_SECONDS);
    assert!(back.exp > NOW);
}

#[test]
fn issued_token_validates_until_just_before_expiry() {
    let token = AuthorizationToken::issued_at(user("bob"), NOW).encode("k").unwrap();
    let later = NOW + VALIDITY_SECONDS - 1;
    assert!(AuthorizationToken::decode(&token, "k", later).is_ok());
    let at_expiry = NOW + VALIDITY_SECONDS;
    assert!(matches!(AuthorizationToken::decode(&token, "k", at_expiry), Err(TokenError::Expired)));
}

#[test]
fn expired_token_fails_even_when_correctly_signed() {
    let claims = AuthorizationToken { uid: "carol".to_string(), exp: NOW - 10 };
    let token = claims.encode("k").unwrap();
    assert!(matches!(AuthorizationToken::decode(&token, "k", NOW), Err(TokenError::Expired)));
}

#[test]
fn token_signed_with_other_secret_fails() {
    let token = AuthorizationToken::issued_at(user("dave"), NOW).encode("first").unwrap();
    assert!(matches!(
        AuthorizationToken::decode(&token, "second", NOW),
        Err(TokenError::SignatureInvalid)
    ));
}

#[test]
fn garbage_token_is_malformed() {
    assert!(matches!(AuthorizationToken::decode("not-a-token", "k", NOW), Err(TokenError::Malformed)));
    assert!(matches!(AuthorizationToken::decode("", "k", NOW), Err(TokenError::Malformed)));
}

#[test]
fn encoded_token_has_three_parts_and_is_not_its_input() {
    let token = AuthorizationToken::issued_at(user("erin"), NOW).encode("k").unwrap();
    assert_eq!(token.split('.').count(), 3);
    assert!(!token.contains("erin"));
}

#[test]
fn token_from_clock_names_the_user() {
    let claims = AuthorizationToken::from(user("frank"));
    assert_eq!(claims.uid, "frank");
    let token = claims.encode("k").unwrap();
    let back = AuthorizationToken::decode(&token, "k", claims.exp - 1).ok().unwrap();
    assert_eq!(back.uid, "frank");
}

#[test]
fn check_claims_needs_both_fields_and_a_future_expiry() {
    assert!(matches!(
        AuthorizationToken::check_claims(None, Some(NOW + 1), NOW),
        Err(TokenError::Malformed)
    ));
    assert!(matches!(
        AuthorizationToken::check_claims(Some("u".to_string()), None, NOW),
        Err(TokenError::Malformed)
    ));
    assert!(matches!(
        AuthorizationToken::check_claims(Some("u".to_string()), Some(NOW), NOW),
        Err(TokenError::Expired)
    ));
    let ok = AuthorizationToken::check_claims(Some("u".to_string()), Some(NOW + 1), NOW).ok().unwrap();
    assert_eq!(ok.uid, "u");
    assert_eq!(ok.exp, NOW + 1);
}
