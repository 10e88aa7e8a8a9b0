use mesa_api::auth::{authenticate, bearer_token, validate_claims, AuthError};
use mesa_api::discord::{session_claims, session_claims_at, DiscordOAuthResponse};
use mesa_api::error::ApiError;
use mesa_api::jwt::{claims_at, create_claims};
use mesa_api::model::Id;

const ISSUED: i64 = 1_700_000_000;

#[test]
fn issue_then_validate_within_window() {
    let c = claims_at("123", "tokA", "refA", 3600, ISSUED).unwrap();
    assert_eq!(c.exp, ISSUED + 3600);
    let u = validate_claims(c, ISSUED + 3599).unwrap();
    assert_eq!(u.user_id, Id(123));
    assert_eq!(u.discord_token, "tokA");
    assert_eq!(u.discord_refresh, "refA");
}

#[test]
fn issue_then_validate_after_window() {
    let c = claims_at("123", "tokA", "refA", 3600, ISSUED).unwrap();
    assert!(matches!(validate_claims(c, ISSUED + 3601), Err(AuthError::Expired)));
    let c = claims_at("123", "tokA", "refA", 3600, ISSUED).unwrap();
    assert!(matches!(validate_claims(c, ISSUED + 3600), Err(AuthError::Expired)));
}

#[test]
fn expiry_that_does_not_fit_is_refused() {
    assert!(claims_at("1", "a", "b", u64::MAX, 0).is_none());
    assert!(claims_at("1", "a", "b", 1, i64::MAX).is_none());
    assert_eq!(claims_at("1", "a", "b", 0, i64::MAX).unwrap().exp, i64::MAX);
}

#[test]
fn subject_must_be_an_id() {
    let c = claims_at("12x", "a", "b", 60, ISSUED).unwrap();
    assert!(matches!(validate_claims(c, ISSUED), Err(AuthError::MalformedCredential)));
}

#[test]
fn fresh_claims_use_current_time() {
    let c = create_claims("5", "a", "b", 3600).unwrap();
    assert!(c.exp > ISSUED);
    assert_eq!(c.sub, "5");
    let u = authenticate(c).unwrap();
    assert_eq!(u.user_id, Id(5));
}

#[test]
fn stale_claims_are_refused_now() {
    let c = claims_at("5", "a", "b", 10, ISSUED - 1000).unwrap();
    assert!(matches!(authenticate(c), Err(AuthError::Expired)));
}

#[test]
fn bearer_header_forms() {
    assert!(matches!(bearer_token(None), Err(AuthError::MissingCredential)));
    assert!(matches!(bearer_token(Some("Basic abc")), Err(AuthError::MalformedCredential)));
    assert!(matches!(bearer_token(Some("Bearer")), Err(AuthError::MalformedCredential)));
    assert_eq!(bearer_token(Some("Bearer abc.def")).unwrap(), "abc.def");
    assert_eq!(bearer_token(Some("Bearer Bearer abc")).unwrap(), "abc");
    assert_eq!(bearer_token(Some("Bearer ")).unwrap(), "");
}

#[test]
fn refusals_look_alike() {
    for e in [
        AuthError::MissingCredential,
        AuthError::MalformedCredential,
        AuthError::InvalidSignature,
        AuthError::Expired,
    ] {
        assert!(matches!(e.to_api_error(), ApiError::Auth));
        assert_eq!(e.to_api_error().status_code(), 401);
    }
}

fn oauth() -> DiscordOAuthResponse {
    DiscordOAuthResponse {
        access_token: "acc".to_string(),
        token_type: "Bearer".to_string(),
        expires_in: 604800,
        refresh_token: "ref".to_string(),
        scope: "identify".to_string(),
    }
}

#[test]
fn session_from_oauth_answer() {
    let c = session_claims_at(&oauth(), Some("77"), ISSUED).unwrap();
    assert_eq!(c.sub, "77");
    assert_eq!(c.discord_token, "acc");
    assert_eq!(c.discord_refresh, "ref");
    assert_eq!(c.exp, ISSUED + 604800);
    let c = session_claims(&oauth(), Some("77")).unwrap();
    assert!(c.exp > ISSUED + 604800);
}

#[test]
fn session_needs_user_id() {
    assert!(matches!(session_claims_at(&oauth(), None, ISSUED), Err(ApiError::Internal)));
    assert!(matches!(session_claims(&oauth(), None), Err(ApiError::Internal)));
}
