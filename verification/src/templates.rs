//! Page models for HTML responses.

use vstd::prelude::*;
use crate::db::entities::movies::Movie;

verus! {

/// Cinema shell page.
#[derive(Debug)]
pub struct CinemaIndex {
    /// Short label shown in the header (for example a generated user id).
    pub user_label: String,
    /// Full viewer id for seat map signals / `viewer` query param.
    pub viewer_uuid: String,
    /// Films available for booking.
    pub movies: Vec<Movie>,
}

/// Password login form (`GET /login`).
#[derive(Debug)]
pub struct LoginPage {
    pub error_message: Option<&'static str>,
    pub success_message: Option<&'static str>,
}

/// Email/password registration form (`GET /signup`).
#[derive(Debug)]
pub struct SignupPage {
    pub error_message: Option<&'static str>,
}

} // verus!
