use webrtc_stream_server::api_response::ApiError;
use webrtc_stream_server::auth::{
    handshake_token, token_from_cookie, token_from_query, token_param, AuthResponse, JwtUserExtractor,
    JwtWsUserExtractor,
};
use webrtc_stream_server::token::VALIDITY_SECONDS;
use webrtc_stream_server::user::User;

const NOW: i64 = 1_700_000_000;

fn issued(id: &str, secret: &str) -> String {
    AuthResponse::issue_at(User { id: id.to_string() }, secret, NOW).ok().unwrap().auth_token
}

#[test]
fn cookie_token_is_found_among_others() {
    assert_eq!(token_from_cookie("a=1; token=abc; b=2"), Some("abc".to_string()));
    assert_eq!(token_from_cookie("token=xyz"), Some("xyz".to_string()));
    assert_eq!(token_from_cookie("tokenx=1;token=v"), Some("v".to_string()));
    assert_eq!(token_from_cookie("token=first; token=second"), Some("first".to_string()));
}

#[test]
fn cookie_without_token_gives_nothing() {
    assert_eq!(token_from_cookie(""), None);
    assert_eq!(token_from_cookie("a=1; b=2"), None);
    assert_eq!(token_from_cookie("token"), None);
    assert_eq!(token_from_cookie("x=token"), None);
}

#[test]
fn query_token_is_decoded() {
    assert_eq!(token_from_query("token=abc"), Some("abc".to_string()));
    assert_eq!(token_from_query("x=1&token=a%20b&token=c"), Some("a b".to_string()));
    assert_eq!(token_from_query("x=1"), None);
    assert_eq!(token_from_query(""), None);
}

#[test]
fn token_param_takes_the_first_match() {
    let pairs = vec![
        ("a".to_string(), "1".to_string()),
        ("token".to_string(), "t1".to_string()),
        ("token".to_string(), "t2".to_string()),
    ];
    assert_eq!(token_param(&pairs), Some("t1".to_string()));
    assert_eq!(token_param(&Vec::new()), None);
}

#[test]
fn handshake_prefers_query_then_cookie() {
    assert_eq!(handshake_token(Some("token=q"), Some("token=c")), Some("q".to_string()));
    assert_eq!(handshake_token(Some("x=1"), Some("token=c")), Some("c".to_string()));
    assert_eq!(handshake_token(None, Some("token=c")), Some("c".to_string()));
    assert_eq!(handshake_token(None, None), None);
}

#[test]
fn handshake_without_credential_is_required() {
    let r = JwtWsUserExtractor::from_handshake_at(Some("x=1"), None, "k", NOW);
    assert!(matches!(r, Err(ApiError::AuthenticationRequired)));
    let r = JwtWsUserExtractor::from_handshake(None, Some("a=b"), "k");
    assert!(matches!(r, Err(ApiError::AuthenticationRequired)));
}

#[test]
fn handshake_with_bad_credential_is_expired() {
    let r = JwtWsUserExtractor::from_handshake_at(Some("token=junk"), None, "k", NOW);
    assert!(matches!(r, Err(ApiError::AuthenticationExpired)));
    let token = issued("u", "other");
    let q = format!("token={}", token);
    let r = JwtWsUserExtractor::from_handshake_at(Some(&q), None, "k", NOW);
    assert!(matches!(r, Err(ApiError::AuthenticationExpired)));
    let r = JwtWsUserExtractor::from_handshake_at(Some(&q), None, "other", NOW + VALIDITY_SECONDS);
    assert!(matches!(r, Err(ApiError::AuthenticationExpired)));
}

#[test]
fn handshake_with_valid_cookie_authenticates() {
    let token = issued("alice", "k");
    let cookie = format!("theme=dark; token={}", token);
    let r = JwtWsUserExtractor::from_handshake_at(None, Some(&cookie), "k", NOW + 1).ok().unwrap();
    assert_eq!(r.0.uid, "alice");
    assert_eq!(r.0.exp, NOW + VALIDITY_SECONDS);
}

#[test]
fn bearer_variant_outcomes() {
    assert!(matches!(
        JwtUserExtractor::from_bearer_at(None, "k", NOW),
        Err(ApiError::AuthenticationRequired)
    ));
    assert!(matches!(
        JwtUserExtractor::from_bearer_at(Some("junk"), "k", NOW),
        Err(ApiError::AuthenticationExpired)
    ));
    let token = issued("bob", "k");
    let r = JwtUserExtractor::from_bearer_at(Some(&token), "k", NOW).ok().unwrap();
    assert_eq!(r.0.uid, "bob");
    assert!(matches!(JwtUserExtractor::from_bearer(None, "k"), Err(ApiError::AuthenticationRequired)));
}

#[test]
fn issue_from_clock_gives_a_usable_token() {
    let r = AuthResponse::issue(User { id: "carol".to_string() }, "k").ok().unwrap();
    let back = JwtUserExtractor::from_bearer(Some(&r.auth_token), "k").ok().unwrap();
    assert_eq!(back.0.uid, "carol");
}

#[test]
fn error_status_codes() {
    assert_eq!(ApiError::AuthenticationRequired.status_code(), 401);
    assert_eq!(ApiError::AuthenticationExpired.status_code(), 401);
    assert_eq!(ApiError::Unauthorized.status_code(), 403);
    assert_eq!(ApiError::TokenGenerationError.status_code(), 500);
}
