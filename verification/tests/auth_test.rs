use cinema_booking::auth::single_token::FixedTokenVerifier as SingleTokenVerifier;
use cinema_booking::auth::test_utils::FixedTokenVerifier;
use cinema_booking::auth::{AccessTokenVerifier, AuthError, Principal, Role};
use cinema_booking::middlewares::auth::{
    authenticate_request, extract_optional_principal_from_headers, jwt_from_request,
    parse_bearer_token, session_jwt_from_cookie_header, verified_outcome,
};
use cinema_booking::middlewares::movie_admin::require_movie_admin;

fn principal(sub: &str, is_admin: bool) -> Principal {
    Principal {
        sub: sub.to_string(),
        email: format!("{sub}@example.com"),
        is_admin,
        mfa: false,
        csrf_token: String::new(),
    }
}

#[test]
fn role_follows_admin_flag() {
    assert_eq!(principal("a", true).role(), Role::Admin);
    assert_eq!(principal("u", false).role(), Role::User);
}

#[test]
fn single_token_verifier_accepts_only_its_token() {
    let v = SingleTokenVerifier::new("test-bearer-token", principal("test-sub", false));
    assert_eq!(v.verify_bearer_token("test-bearer-token").unwrap(), principal("test-sub", false));
    assert_eq!(v.verify_bearer_token("other").unwrap_err(), AuthError::InvalidToken);
}

#[test]
fn token_map_verifier_new_and_pairs() {
    let v = FixedTokenVerifier::new("t", principal("x", false));
    assert_eq!(v.verify_bearer_token("t").unwrap().sub, "x");
    assert_eq!(v.verify_bearer_token("").unwrap_err(), AuthError::InvalidToken);

    let v = FixedTokenVerifier::from_pairs(vec![
        ("user".to_string(), principal("u", false)),
        ("admin".to_string(), principal("a", true)),
        ("user".to_string(), principal("u2", false)),
    ]);
    assert_eq!(v.verify_bearer_token("admin").unwrap().role(), Role::Admin);
    assert_eq!(v.verify_bearer_token("user").unwrap().sub, "u2");
    assert_eq!(v.verify_bearer_token("nobody").unwrap_err(), AuthError::InvalidToken);
}

#[test]
fn bearer_token_parsing() {
    assert_eq!(parse_bearer_token("Bearer abc").as_deref(), Some("abc"));
    assert_eq!(parse_bearer_token("Bearer   abc \t").as_deref(), Some("abc"));
    assert_eq!(parse_bearer_token("Bearerabc").as_deref(), Some("abc"));
    assert_eq!(parse_bearer_token("Bearer    "), None);
    assert_eq!(parse_bearer_token("bearer abc"), None);
    assert_eq!(parse_bearer_token("Basic abc"), None);
    assert_eq!(parse_bearer_token(""), None);
}

#[test]
fn session_cookie_parsing() {
    assert_eq!(session_jwt_from_cookie_header(None), None);
    assert_eq!(
        session_jwt_from_cookie_header(Some("a=1; tb_access_token= tok ; b=2")).as_deref(),
        Some("tok")
    );
    assert_eq!(session_jwt_from_cookie_header(Some("tb_access_token=")), None);
    assert_eq!(
        session_jwt_from_cookie_header(Some("tb_access_token=; tb_access_token=second")).as_deref(),
        Some("second")
    );
    assert_eq!(session_jwt_from_cookie_header(Some("junk; tb_access_token=tok")), None);
    assert_eq!(session_jwt_from_cookie_header(Some("x=1;tb_access_token=a=b")).as_deref(), Some("a=b"));
}

#[test]
fn jwt_from_request_prefers_authorization_header() {
    assert_eq!(jwt_from_request(Some("Bearer h"), Some("tb_access_token=c")).unwrap(), "h");
    assert_eq!(
        jwt_from_request(Some("Token h"), Some("tb_access_token=c")).unwrap_err(),
        "Malformed bearer token"
    );
    assert_eq!(jwt_from_request(None, Some("tb_access_token=c")).unwrap(), "c");
    assert_eq!(
        jwt_from_request(None, None).unwrap_err(),
        "Missing authorization header or session cookie"
    );
}

#[test]
fn request_authentication_decisions() {
    let v = SingleTokenVerifier::new("good", principal("s", false));
    assert_eq!(authenticate_request(Some("Bearer good"), None, &v).unwrap().sub, "s");
    assert_eq!(authenticate_request(Some("Bearer bad"), None, &v).unwrap_err(), "Invalid or expired token");
    assert_eq!(authenticate_request(Some("Bearer"), None, &v).unwrap_err(), "Malformed bearer token");
    assert_eq!(extract_optional_principal_from_headers(None, Some("tb_access_token=good"), &v).unwrap().sub, "s");
    assert!(extract_optional_principal_from_headers(None, Some("tb_access_token=bad"), &v).is_none());
    assert!(extract_optional_principal_from_headers(None, None, &v).is_none());
}

#[test]
fn movie_admin_gate() {
    assert_eq!(require_movie_admin(None), Err(401));
    assert_eq!(require_movie_admin(Some(&principal("u", false))), Err(403));
    assert_eq!(require_movie_admin(Some(&principal("a", true))), Ok(()));
}

#[test]
fn verifier_answer_decides_request() {
    assert_eq!(verified_outcome(Ok(principal("u1", false))), Ok(principal("u1", false)));
    assert_eq!(verified_outcome(Err(AuthError::InvalidToken)), Err("Invalid or expired token"));
    assert_eq!(verified_outcome(Err(AuthError::WrongTokenType)), Err("Invalid or expired token"));
}
