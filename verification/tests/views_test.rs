use cinema_booking::db;
use cinema_booking::db::entities::movies::Movie;
use cinema_booking::error::Error;
use cinema_booking::views::{
    default_seat_map_interval_ms, hello_world_frames, login_error_display, login_page,
    login_response, login_success_display, movie_load_error_html, redirect_login_error,
    redirect_signup_error, register_url, seat_map_html, seat_map_slug, signup_error_display,
    signup_page, signup_precheck, signup_redirect, user_label, HelloSignals, LoginAttempt,
    LoginQuery, LoginResponse, SeatMapSignals, SignupForm, SignupPrecheck, SignupQuery,
    TRAILBASE_NOT_CONFIGURED,
};

#[test]
fn stream_settings() {
    assert_eq!(default_seat_map_interval_ms(), 2000);
    let s = SeatMapSignals { movie_slug: "m".into(), viewer: None, interval_ms: 10, max_ticks: None };
    let p = s.stream_plan();
    assert_eq!((p.interval_ms, p.frames), (50, 150));
    let s = SeatMapSignals { movie_slug: "m".into(), viewer: Some("v".into()), interval_ms: 2000, max_ticks: Some(0) };
    let p = s.stream_plan();
    assert_eq!((p.interval_ms, p.frames), (2000, 1));
    assert_eq!(s.viewer_or_empty(), "v");
    assert_eq!(HelloSignals { delay: 0 }.delay_ms(), 1);
    assert_eq!(HelloSignals { delay: 30 }.delay_ms(), 30);
}

#[test]
fn hello_frames_grow_one_character_at_a_time() {
    let f = hello_world_frames();
    assert_eq!(f.len(), 13);
    assert_eq!(f[0], "<div id=\"message\">H</div>");
    assert_eq!(f[12], "<div id=\"message\">Hello, world!</div>");
}

#[test]
fn banners() {
    assert!(login_success_display(Some("1")).unwrap().starts_with("Registration accepted"));
    assert_eq!(login_success_display(Some("2")), None);
    assert_eq!(login_success_display(None), None);
    assert_eq!(login_error_display(Some("invalid")), Some("Invalid email or password."));
    assert_eq!(login_error_display(Some("failed")), Some("Sign-in failed. Try again later."));
    assert!(login_error_display(Some("mfa")).unwrap().contains("MFA"));
    assert_eq!(login_error_display(Some("other")), None);
    assert_eq!(signup_error_display(Some("mismatch")), Some("Passwords do not match."));
    assert!(signup_error_display(Some("email")).unwrap().contains("verification email"));
    assert_eq!(signup_error_display(Some("policy")), Some("Password or email did not meet Trailbase requirements."));
    assert_eq!(signup_error_display(Some("failed")), Some("Registration failed. Try again later."));
    assert_eq!(signup_error_display(None), None);
    let page = login_page(&LoginQuery { e: Some("invalid".into()), r: Some("1".into()) });
    assert_eq!(page.error_message, Some("Invalid email or password."));
    assert!(page.success_message.is_some());
    assert_eq!(signup_page(&SignupQuery { e: Some("x".into()) }).error_message, None);
}

#[test]
fn login_decisions() {
    assert!(matches!(login_response(false, LoginAttempt::MfaRequired), LoginResponse::ServiceUnavailable(m) if m == TRAILBASE_NOT_CONFIGURED));
    assert!(matches!(login_response(true, LoginAttempt::LoggedIn(Some("tok".into()))), LoginResponse::SetSessionCookie(t) if t == "tok"));
    assert!(matches!(login_response(true, LoginAttempt::LoggedIn(None)), LoginResponse::Redirect(l) if l == "/login?e=failed"));
    assert!(matches!(login_response(true, LoginAttempt::MfaRequired), LoginResponse::Redirect(l) if l == "/login?e=mfa"));
    assert!(matches!(login_response(true, LoginAttempt::HttpStatus(401)), LoginResponse::Redirect(l) if l == "/login?e=invalid"));
    assert!(matches!(login_response(true, LoginAttempt::HttpStatus(500)), LoginResponse::Redirect(l) if l == "/login?e=failed"));
    assert!(matches!(login_response(true, LoginAttempt::ClientUnavailable), LoginResponse::Redirect(l) if l == "/login?e=failed"));
    assert_eq!(redirect_login_error("x"), "/login?e=x");
    assert_eq!(redirect_signup_error("y"), "/signup?e=y");
}

#[test]
fn signup_decisions() {
    let form = |p: &str, q: &str| SignupForm { email: " a@b.c ".into(), password: p.into(), password_repeat: q.into() };
    assert!(matches!(signup_precheck(&form("a", "b"), Some("http://x")), SignupPrecheck::Redirect(l) if l == "/signup?e=mismatch"));
    assert!(matches!(signup_precheck(&form("a", "a"), None), SignupPrecheck::ServiceUnavailable(_)));
    assert!(matches!(signup_precheck(&form("a", "a"), Some("http://x:4000//")), SignupPrecheck::Register(u) if u == "http://x:4000/api/auth/v1/register"));
    assert_eq!(register_url("http://h"), "http://h/api/auth/v1/register");
    assert_eq!(signup_redirect(200), "/login?r=1");
    assert_eq!(signup_redirect(303), "/login?r=1");
    assert_eq!(signup_redirect(424), "/signup?e=email");
    assert_eq!(signup_redirect(400), "/signup?e=policy");
    assert_eq!(signup_redirect(401), "/signup?e=policy");
    assert_eq!(signup_redirect(422), "/signup?e=policy");
    assert_eq!(signup_redirect(500), "/signup?e=failed");
    assert_eq!(signup_redirect(302), "/signup?e=failed");
}

#[test]
fn labels_and_seat_map_steps() {
    assert_eq!(user_label("0123456789abcdef"), "user: 0123456789ab");
    assert_eq!(user_label("abc"), "user: abc");
    assert!(seat_map_slug("   ").unwrap_err().contains("Pick a film from the list."));
    assert_eq!(seat_map_slug(" film-1 ").unwrap(), "film-1");
    assert!(movie_load_error_html(&db::Error::NoRecordFound).contains("Film not found."));
    assert!(movie_load_error_html(&db::Error::DbError("x".into())).contains("Could not load film."));
    let m = Movie { id: 1, slug: "f-1".into(), title: "F".into(), movie_time: "t".into(), row_count: 1, seats_per_row: 2 };
    assert!(seat_map_html(&m, "", Err(Error::Other("down".into()))).contains("Could not load seat map."));
    let html = seat_map_html(&m, "", Ok((vec![], vec![])));
    assert_eq!(html.matches("data-state=\"available\"").count(), 2);
}
