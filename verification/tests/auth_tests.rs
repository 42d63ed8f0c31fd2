use blog_api::auth::bearer_token;
use blog_api::auth::login_password_ok;
use blog_api::auth::logout_endpoint;
use blog_api::auth::password_grant_endpoint;
use blog_api::auth::user_info_from_claims;
use blog_api::auth::verify_internal_api_key;
use blog_api::auth::AuthError;
use blog_api::auth::InternalAuthError;
use blog_api::auth::SupabaseClaims;
use blog_api::magic_link::magic_link_url;
use blog_api::magic_link::session_expiry;
use blog_api::magic_link::token_expiry;
use blog_api::magic_link::verify_token_decision;
use blog_api::magic_link::TokenDecision;

#[test]
fn bearer_token_extracts_the_token() {
    assert_eq!(bearer_token(Some("Bearer abc123")), Ok("abc123".to_string()));
    assert_eq!(bearer_token(Some("  Bearer  abc  ")), Ok("abc".to_string()));
}

#[test]
fn bearer_token_rejects_bad_headers() {
    assert_eq!(bearer_token(None), Err(AuthError::MissingAuthorization));
    assert_eq!(bearer_token(Some("bearer abc")), Err(AuthError::InvalidAuthorization));
    assert_eq!(bearer_token(Some("Bearer ")), Err(AuthError::InvalidAuthorization));
    assert_eq!(bearer_token(Some("Bearer")), Err(AuthError::InvalidAuthorization));
    assert_eq!(bearer_token(Some("Token abc")), Err(AuthError::InvalidAuthorization));
    assert_eq!(bearer_token(Some("")), Err(AuthError::InvalidAuthorization));
}

#[test]
fn auth_error_messages_are_exact() {
    assert_eq!(AuthError::MissingAuthorization.message(), "missing Authorization header");
    assert_eq!(AuthError::InvalidAuthorization.message(), "invalid Authorization header");
    assert_eq!(AuthError::MissingJwtSecret.message(), "missing SUPABASE_JWT_SECRET");
    assert_eq!(AuthError::InvalidToken.message(), "invalid token");
}

#[test]
fn internal_key_check_compares_exactly() {
    assert_eq!(verify_internal_api_key(Some("k"), Some("k")), Ok(()));
    assert_eq!(
        verify_internal_api_key(Some("wrong"), Some("k")),
        Err(InternalAuthError::InvalidKey)
    );
    assert_eq!(verify_internal_api_key(None, Some("k")), Err(InternalAuthError::MissingKey));
    assert_eq!(verify_internal_api_key(Some("k"), None), Err(InternalAuthError::MissingConfig));
    assert_eq!(InternalAuthError::MissingConfig.message(), "missing INTERNAL_API_KEY");
    assert_eq!(InternalAuthError::MissingKey.message(), "missing internal api key");
    assert_eq!(InternalAuthError::InvalidKey.message(), "invalid internal api key");
}

#[test]
fn user_info_defaults_missing_claims() {
    let info = user_info_from_claims(SupabaseClaims {
        sub: "uid-1".to_string(),
        email: None,
        role: None,
        exp: 0,
        iat: None,
    });
    assert_eq!(info.id, "uid-1");
    assert_eq!(info.email, "");
    assert_eq!(info.role, "USER");
    assert_eq!(info.name, None);

    let info = user_info_from_claims(SupabaseClaims {
        sub: "uid-2".to_string(),
        email: Some("a@b.c".to_string()),
        role: Some("ADMIN".to_string()),
        exp: 99,
        iat: Some(1),
    });
    assert_eq!(info.email, "a@b.c");
    assert_eq!(info.role, "ADMIN");
}

#[test]
fn login_needs_a_nonblank_password() {
    assert!(login_password_ok(&Some("secret".to_string())));
    assert!(!login_password_ok(&Some("   ".to_string())));
    assert!(!login_password_ok(&None));
}

#[test]
fn identity_provider_endpoints_are_exact() {
    assert_eq!(
        password_grant_endpoint("https://x.supabase.co/"),
        "https://x.supabase.co/auth/v1/token?grant_type=password"
    );
    assert_eq!(logout_endpoint("https://x.supabase.co"), "https://x.supabase.co/auth/v1/logout");
}

#[test]
fn token_lifetimes_are_exact() {
    assert_eq!(token_expiry(1_000), 1_000 + 86_400);
    assert_eq!(session_expiry(1_000), 1_000 + 2_592_000);
}

#[test]
fn magic_link_url_encodes_the_address() {
    assert_eq!(
        magic_link_url("http://localhost:3000/", "tok", "a+b@c.com"),
        "http://localhost:3000/api/auth/callback/email?token=tok&email=a%2Bb%40c.com"
    );
}

#[test]
fn token_verification_decides_by_record_and_time() {
    assert!(matches!(verify_token_decision(None, 100), TokenDecision::Invalid));
    assert!(matches!(
        verify_token_decision(Some(("a@b.c".to_string(), 99)), 100),
        TokenDecision::Expired
    ));
    match verify_token_decision(Some(("a@b.c".to_string(), 100)), 100) {
        TokenDecision::Valid { email } => assert_eq!(email, "a@b.c"),
        _ => panic!("expected valid"),
    }
}
