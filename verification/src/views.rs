//! Decisions behind the server-rendered pages and streams: banners, redirects,
//! stream settings and the seat-map fragment.

use vstd::prelude::*;
use crate::db;
use crate::db::entities::bookings::Booking;
use crate::db::entities::movies::Movie;
use crate::error::Error;
use crate::middlewares::auth::opt_view;
use crate::seat_layout::{layout_dim, layout_total};
use crate::seat_states::{
    SeatStateDto, is_merged_seat, merge_movie_seats, seat_grid_element_html, seat_grid_error_html,
    spec_seat_grid_element_html, spec_seat_grid_error_html,
};
use crate::store_port::SeatReservationSession;
use crate::templates::{LoginPage, SignupPage};
use crate::text::{push_chars, push_str, str_eq, to_chars, trim, trimmed};

verus! {

/// Text of the hello-world stream.
pub const HELLO_MESSAGE: &'static str = "Hello, world!";

/// Frames of a seat-map stream when the client gives no limit.
pub const DEFAULT_SEAT_MAP_MAX_TICKS: u64 = 150;

/// Message answered with 503 when no Trailbase base URL is configured.
pub const TRAILBASE_NOT_CONFIGURED: &'static str = "Trailbase base URL is not configured (set trailbase.base_url).";

/// Default interval between seat-map frames, in milliseconds.
pub fn default_seat_map_interval_ms() -> (r: u64)
    ensures
        r == 2000,
{
    2000
}

/// Signals of the seat-map stream.
#[derive(Debug)]
pub struct SeatMapSignals {
    pub movie_slug: String,
    pub viewer: Option<String>,
    pub interval_ms: u64,
    pub max_ticks: Option<u64>,
}

/// How a seat-map stream runs: the pause between frames and the number of frames.
#[derive(Debug, Clone, Copy, PartialEq, Eq)]
pub struct SeatMapStreamPlan {
    pub interval_ms: u64,
    pub frames: u64,
}

impl SeatMapSignals {
    /// The stream plan: at least 50 ms between frames; `max_ticks` frames (150 when
    /// omitted), and always at least one.
    pub fn stream_plan(&self) -> (r: SeatMapStreamPlan)
        ensures
            r.interval_ms == (if self.interval_ms < 50 { 50 } else { self.interval_ms }),
            r.frames == ({
                let t = match self.max_ticks {
                    Some(t) => t,
                    None => DEFAULT_SEAT_MAP_MAX_TICKS,
                };
                if t < 1 { 1 } else { t }
            }),
    {
        let interval_ms = if self.interval_ms < 50 { 50 } else { self.interval_ms };
        let t = match self.max_ticks {
            Some(t) => t,
            None => DEFAULT_SEAT_MAP_MAX_TICKS,
        };
        SeatMapStreamPlan { interval_ms, frames: if t < 1 { 1 } else { t } }
    }

    /// The viewer id, or the empty text when none was given.
    pub fn viewer_or_empty(&self) -> (r: String)
        ensures
            self.viewer matches Some(v) ==> r@ == v@,
            self.viewer is None ==> r@ == Seq::<char>::empty(),
    {
        match &self.viewer {
            Some(v) => v.clone(),
            None => String::new(),
        }
    }
}

/// Signals of the hello-world stream.
#[derive(Debug)]
pub struct HelloSignals {
    pub delay: u64,
}

impl HelloSignals {
    /// Pause between frames: the requested delay, at least 1 ms.
    pub fn delay_ms(&self) -> (r: u64)
        ensures
            r == (if self.delay < 1 { 1 } else { self.delay }),
    {
        if self.delay < 1 { 1 } else { self.delay }
    }
}

/// Frame `i` of the hello-world stream: the first `i + 1` characters of the message.
pub open spec fn hello_frame(i: int) -> Seq<char> {
    "<div id=\"message\">"@ + HELLO_MESSAGE@.take(i + 1) + "</div>"@
}

/// The frames of the hello-world stream, one per character of the message.
pub fn hello_world_frames() -> (r: Vec<String>)
    ensures
        r@.len() == HELLO_MESSAGE@.len(),
        forall|i: int| 0 <= i < r@.len() ==> (#[trigger] r@[i])@ == hello_frame(i),
{
    let msg = to_chars(HELLO_MESSAGE);
    let mut frames: Vec<String> = Vec::new();
    let mut i: usize = 0;
    while i < msg.len()
        invariant
            i <= msg@.len(),
            msg@ == HELLO_MESSAGE@,
            frames@.len() == i,
            forall|k: int| 0 <= k < i ==> (#[trigger] frames@[k])@ == hello_frame(k),
        decreases msg@.len() - i,
    {
        let mut f = String::new();
        push_str(&mut f, "<div id=\"message\">");
        push_chars(&mut f, &msg, 0, i + 1);
        push_str(&mut f, "</div>");
        assert(msg@.subrange(0, i + 1) =~= HELLO_MESSAGE@.take(i + 1));
        assert(f@ =~= hello_frame(i as int));
        frames.push(f);
        i = i + 1;
    }
    frames
}

/// Query of `GET /login`: error code `e`, registration result `r`.
#[derive(Debug)]
pub struct LoginQuery {
    pub e: Option<String>,
    pub r: Option<String>,
}

/// Login form.
#[derive(Debug)]
pub struct LoginForm {
    pub email: String,
    pub password: String,
}

/// Query of `GET /signup`: error code `e`.
#[derive(Debug)]
pub struct SignupQuery {
    pub e: Option<String>,
}

/// Registration form.
#[derive(Debug)]
pub struct SignupForm {
    pub email: String,
    pub password: String,
    pub password_repeat: String,
}

/// Banner of the login page after a registration.
pub open spec fn spec_login_success_display(code: Option<Seq<char>>) -> Option<Seq<char>> {
    if code == Some("1"@) {
        Some("Registration accepted. Sign in when your account is ready (check email if verification is enabled)."@)
    } else {
        None
    }
}

/// The text of an optional static message.
pub open spec fn msg_view(m: Option<&'static str>) -> Option<Seq<char>> {
    match m {
        Some(x) => Some(x@),
        None => None,
    }
}

/// Banner of the login page after a registration (`r=1`).
pub fn login_success_display(code: Option<&str>) -> (r: Option<&'static str>)
    ensures
        msg_view(r) == spec_login_success_display(opt_view(code)),
{
    match code {
        Some(c) => {
            if str_eq(c, "1") {
                Some("Registration accepted. Sign in when your account is ready (check email if verification is enabled).")
            } else {
                None
            }
        },
        None => None,
    }
}

/// Error banner of the login page for an error code.
pub open spec fn spec_login_error_display(code: Option<Seq<char>>) -> Option<Seq<char>> {
    if code == Some("invalid"@) {
        Some("Invalid email or password."@)
    } else if code == Some("mfa"@) {
        Some("This account uses MFA. Use a non-MFA user or obtain a token via Trailbase or Hurl."@)
    } else if code == Some("failed"@) {
        Some("Sign-in failed. Try again later."@)
    } else {
        None
    }
}

/// Error banner of the login page for an error code.
pub fn login_error_display(code: Option<&str>) -> (r: Option<&'static str>)
    ensures
        msg_view(r) == spec_login_error_display(opt_view(code)),
{
    match code {
        Some(c) => {
            if str_eq(c, "invalid") {
                Some("Invalid email or password.")
            } else if str_eq(c, "mfa") {
                Some("This account uses MFA. Use a non-MFA user or obtain a token via Trailbase or Hurl.")
            } else if str_eq(c, "failed") {
                Some("Sign-in failed. Try again later.")
            } else {
                None
            }
        },
        None => None,
    }
}

/// Error banner of the signup page for an error code.
pub open spec fn spec_signup_error_display(code: Option<Seq<char>>) -> Option<Seq<char>> {
    if code == Some("mismatch"@) {
        Some("Passwords do not match."@)
    } else if code == Some("email"@) {
        Some("Could not send verification email. Check Trailbase mail settings or try again later."@)
    } else if code == Some("policy"@) {
        Some("Password or email did not meet Trailbase requirements."@)
    } else if code == Some("failed"@) {
        Some("Registration failed. Try again later."@)
    } else {
        None
    }
}

/// Error banner of the signup page for an error code.
pub fn signup_error_display(code: Option<&str>) -> (r: Option<&'static str>)
    ensures
        msg_view(r) == spec_signup_error_display(opt_view(code)),
{
    match code {
        Some(c) => {
            if str_eq(c, "mismatch") {
                Some("Passwords do not match.")
            } else if str_eq(c, "email") {
                Some("Could not send verification email. Check Trailbase mail settings or try again later.")
            } else if str_eq(c, "policy") {
                Some("Password or email did not meet Trailbase requirements.")
            } else if str_eq(c, "failed") {
                Some("Registration failed. Try again later.")
            } else {
                None
            }
        },
        None => None,
    }
}

/// The text of an optional string.
pub open spec fn opt_string_view(s: Option<String>) -> Option<Seq<char>> {
    match s {
        Some(x) => Some(x@),
        None => None,
    }
}

/// The login page for a query: its error and success banners.
pub fn login_page(q: &LoginQuery) -> (r: LoginPage)
    ensures
        msg_view(r.error_message) == spec_login_error_display(opt_string_view(q.e)),
        msg_view(r.success_message) == spec_login_success_display(opt_string_view(q.r)),
{
    let e = match &q.e {
        Some(s) => Some(s.as_str()),
        None => None,
    };
    let ok = match &q.r {
        Some(s) => Some(s.as_str()),
        None => None,
    };
    LoginPage { error_message: login_error_display(e), success_message: login_success_display(ok) }
}

/// The signup page for a query: its error banner.
pub fn signup_page(q: &SignupQuery) -> (r: SignupPage)
    ensures
        msg_view(r.error_message) == spec_signup_error_display(opt_string_view(q.e)),
{
    let e = match &q.e {
        Some(s) => Some(s.as_str()),
        None => None,
    };
    SignupPage { error_message: signup_error_display(e) }
}

/// Location of the login page with an error code.
pub fn redirect_login_error(code: &str) -> (r: String)
    ensures
        r@ == "/login?e="@ + code@,
{
    let mut r = String::new();
    push_str(&mut r, "/login?e=");
    push_str(&mut r, code);
    r
}

/// Location of the signup page with an error code.
pub fn redirect_signup_error(code: &str) -> (r: String)
    ensures
        r@ == "/signup?e="@ + code@,
{
    let mut r = String::new();
    push_str(&mut r, "/signup?e=");
    push_str(&mut r, code);
    r
}

/// What the Trailbase login call produced.
#[derive(Debug)]
pub enum LoginAttempt {
    /// The HTTP client could not be built.
    ClientUnavailable,
    /// Login succeeded; the client's auth token, if it holds one.
    LoggedIn(Option<String>),
    /// The account needs a second factor.
    MfaRequired,
    /// The server answered with this HTTP error status.
    HttpStatus(u16),
    /// Any other failure.
    Failed,
}

/// How `POST /login` answers.
#[derive(Debug)]
pub enum LoginResponse {
    /// 503 with this message.
    ServiceUnavailable(&'static str),
    /// Set the session cookie to this token and redirect to `/`.
    SetSessionCookie(String),
    /// Redirect to this location.
    Redirect(String),
}

/// Decides `POST /login`: without a configured Trailbase base URL, 503; a token
/// becomes the session cookie; MFA accounts, wrong credentials (401) and other
/// failures redirect back to the login page with `mfa`, `invalid` or `failed`.
pub fn login_response(base_url_configured: bool, attempt: LoginAttempt) -> (r: LoginResponse)
    ensures
        !base_url_configured ==> (r matches LoginResponse::ServiceUnavailable(m) && m@ == TRAILBASE_NOT_CONFIGURED@),
        base_url_configured ==> match attempt {
            LoginAttempt::LoggedIn(Some(t)) => r matches LoginResponse::SetSessionCookie(c) && c == t,
            LoginAttempt::MfaRequired => r matches LoginResponse::Redirect(l) && l@ == "/login?e=mfa"@,
            LoginAttempt::HttpStatus(s) => r matches LoginResponse::Redirect(l) && l@ == (if s == 401 {
                "/login?e=invalid"@
            } else {
                "/login?e=failed"@
            }),
            _ => r matches LoginResponse::Redirect(l) && l@ == "/login?e=failed"@,
        },
{
    proof {
        reveal_strlit("/login?e=");
        reveal_strlit("mfa");
        reveal_strlit("invalid");
        reveal_strlit("failed");
        reveal_strlit("/login?e=mfa");
        reveal_strlit("/login?e=invalid");
        reveal_strlit("/login?e=failed");
    }
    if !base_url_configured {
        return LoginResponse::ServiceUnavailable(TRAILBASE_NOT_CONFIGURED);
    }
    match attempt {
        LoginAttempt::LoggedIn(Some(t)) => LoginResponse::SetSessionCookie(t),
        LoginAttempt::MfaRequired => LoginResponse::Redirect(redirect_login_error("mfa")),
        LoginAttempt::HttpStatus(s) => {
            if s == 401 {
                LoginResponse::Redirect(redirect_login_error("invalid"))
            } else {
                LoginResponse::Redirect(redirect_login_error("failed"))
            }
        },
        _ => LoginResponse::Redirect(redirect_login_error("failed")),
    }
}

/// `s` without its trailing `/` characters.
pub open spec fn strip_trailing_slashes(s: Seq<char>) -> Seq<char>
    decreases s.len(),
{
    if s.len() > 0 && s.last() == '/' {
        strip_trailing_slashes(s.drop_last())
    } else {
        s
    }
}

/// Trailbase registration endpoint under a base URL.
pub open spec fn spec_register_url(base_url: Seq<char>) -> Seq<char> {
    strip_trailing_slashes(base_url) + "/api/auth/v1/register"@
}

/// Trailbase registration endpoint under a base URL (trailing slashes of the base
/// are dropped).
pub fn register_url(base_url: &str) -> (r: String)
    ensures
        r@ == spec_register_url(base_url@),
{
    let v = to_chars(base_url);
    let mut n: usize = v.len();
    assert(v@.take(n as int) =~= v@);
    while n > 0 && v[n - 1] == '/'
        invariant
            n <= v@.len(),
            v@ == base_url@,
            strip_trailing_slashes(v@.take(n as int)) == strip_trailing_slashes(base_url@),
        decreases n,
    {
        assert(v@.take(n - 1) =~= v@.take(n as int).drop_last());
        n = n - 1;
    }
    let mut r = String::new();
    push_chars(&mut r, &v, 0, n);
    push_str(&mut r, "/api/auth/v1/register");
    proof {
        if n > 0 {
            assert(v@.take(n as int).last() != '/');
        }
        assert(strip_trailing_slashes(v@.take(n as int)) == v@.take(n as int));
        assert(v@.subrange(0, n as int) =~= v@.take(n as int));
    }
    assert(r@ =~= spec_register_url(base_url@));
    r
}

/// How `POST /signup` answers before the registration request is sent.
#[derive(Debug)]
pub enum SignupPrecheck {
    /// Send the registration to this URL.
    Register(String),
    /// 503 with this message.
    ServiceUnavailable(&'static str),
    /// Redirect to this location.
    Redirect(String),
}

/// Decides `POST /signup` before contacting Trailbase: differing passwords redirect
/// with `mismatch`; without a base URL, 503; else register at the base URL.
pub fn signup_precheck(form: &SignupForm, base_url: Option<&str>) -> (r: SignupPrecheck)
    ensures
        form.password@ != form.password_repeat@ ==> (r matches SignupPrecheck::Redirect(l) && l@ == "/signup?e=mismatch"@),
        form.password@ == form.password_repeat@ && base_url is None ==> (r matches SignupPrecheck::ServiceUnavailable(m) && m@ == TRAILBASE_NOT_CONFIGURED@),
        form.password@ == form.password_repeat@ ==> (base_url matches Some(b) ==> (r matches SignupPrecheck::Register(u) && u@ == spec_register_url(b@))),
{
    proof {
        reveal_strlit("/signup?e=");
        reveal_strlit("mismatch");
        reveal_strlit("/signup?e=mismatch");
    }
    if !str_eq(form.password.as_str(), form.password_repeat.as_str()) {
        return SignupPrecheck::Redirect(redirect_signup_error("mismatch"));
    }
    match base_url {
        None => SignupPrecheck::ServiceUnavailable(TRAILBASE_NOT_CONFIGURED),
        Some(b) => SignupPrecheck::Register(register_url(b)),
    }
}

/// Where a registration answer with HTTP status `status` redirects.
pub open spec fn spec_signup_redirect(status: u16) -> Seq<char> {
    if (200 <= status && status < 300) || status == 303 {
        "/login?r=1"@
    } else if status == 424 {
        "/signup?e=email"@
    } else if status == 401 || status == 422 || status == 400 {
        "/signup?e=policy"@
    } else {
        "/signup?e=failed"@
    }
}

/// Decides `POST /signup` from Trailbase's answer: success (2xx or 303) goes to the
/// login page with `r=1`; 424 means the verification email failed; 400, 401 and 422
/// mean a policy refusal; anything else failed.
pub fn signup_redirect(status: u16) -> (r: String)
    ensures
        r@ == spec_signup_redirect(status),
{
    proof {
        reveal_strlit("/signup?e=");
        reveal_strlit("email");
        reveal_strlit("policy");
        reveal_strlit("failed");
        reveal_strlit("/signup?e=email");
        reveal_strlit("/signup?e=policy");
        reveal_strlit("/signup?e=failed");
    }
    if (200 <= status && status < 300) || status == 303 {
        let mut r = String::new();
        push_str(&mut r, "/login?r=1");
        r
    } else if status == 424 {
        redirect_signup_error("email")
    } else if status == 401 || status == 422 || status == 400 {
        redirect_signup_error("policy")
    } else {
        redirect_signup_error("failed")
    }
}

/// Header label of the cinema page: `user: ` and the first 12 characters of the
/// compact viewer id.
pub fn user_label(compact_id: &str) -> (r: String)
    ensures
        r@ == "user: "@ + compact_id@.take(if compact_id@.len() < 12 { compact_id@.len() as int } else { 12 }),
{
    let v = to_chars(compact_id);
    let n: usize = if v.len() < 12 { v.len() } else { 12 };
    let mut r = String::new();
    push_str(&mut r, "user: ");
    push_chars(&mut r, &v, 0, n);
    assert(v@.subrange(0, n as int) =~= compact_id@.take(n as int));
    r
}

/// First step of the seat-map fragment: the trimmed slug, or the prompt to pick a
/// film when it is blank.
pub fn seat_map_slug(movie_slug: &str) -> (r: Result<String, String>)
    ensures
        trim(movie_slug@).len() == 0 ==> (r matches Err(h) && h@ == spec_seat_grid_error_html("Pick a film from the list."@)),
        trim(movie_slug@).len() > 0 ==> (r matches Ok(s) && s@ == trim(movie_slug@)),
{
    let s = trimmed(movie_slug);
    if s.as_str().unicode_len() == 0 {
        Err(seat_grid_error_html("Pick a film from the list."))
    } else {
        Ok(s)
    }
}

/// The fragment shown when the movie could not be loaded: not found, or any other
/// failure.
pub fn movie_load_error_html(e: &db::Error) -> (r: String)
    ensures
        e is NoRecordFound ==> r@ == spec_seat_grid_error_html("Film not found."@),
        !(e is NoRecordFound) ==> r@ == spec_seat_grid_error_html("Could not load film."@),
{
    match e {
        db::Error::NoRecordFound => seat_grid_error_html("Film not found."),
        _ => seat_grid_error_html("Could not load film."),
    }
}

/// The seat-map fragment of a loaded movie from its bookings and held sessions, or the
/// feedback fragment when they could not be loaded.
pub fn seat_map_html(movie: &Movie, viewer: &str, seat_data: Result<(Vec<Booking>, Vec<SeatReservationSession>), Error>) -> (r: String)
    ensures
        seat_data is Err ==> r@ == spec_seat_grid_error_html("Could not load seat map."@),
        seat_data matches Ok((bookings, sessions)) ==> exists|seats: Seq<SeatStateDto>| {
            &&& seats.len() == layout_total(movie.row_count, movie.seats_per_row)
            &&& forall|k: int| 0 <= k < seats.len() ==> is_merged_seat(#[trigger] seats[k], k, layout_dim(movie.seats_per_row), bookings@, sessions@, viewer@)
            &&& r@ == spec_seat_grid_element_html(*movie, seats)
        },
{
    match seat_data {
        Err(_) => seat_grid_error_html("Could not load seat map."),
        Ok((bookings, sessions)) => {
            let merged = merge_movie_seats(movie, viewer, &bookings, &sessions);
            let sl = merged.seats.as_slice();
            let r = seat_grid_element_html(movie, sl);
            assert(sl@ == merged.seats@);
            r
        },
    }
}

} // verus!
