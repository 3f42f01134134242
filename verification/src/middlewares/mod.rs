//! Request authentication and authorization decisions.

pub mod auth;
pub mod movie_admin;
