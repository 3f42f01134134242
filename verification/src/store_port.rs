//! Booking and seat-hold store vocabulary: errors, reservation sessions and the
//! hold changeset with its rules.

use vstd::prelude::*;
use crate::db;
use crate::text::{is_blank, owned, trim};

verus! {

/// Errors returned by booking persistence and seat hold store implementations.
#[derive(Debug)]
pub enum BookingStoreError {
    Validation(String),
    NotFound,
    Conflict(String),
    SeatUnavailable,
    SessionNotFound,
    SessionOwnershipMismatch,
    Serialization(String),
    Internal(String),
}

/// `r` is a validation error whose message is `text`.
pub open spec fn is_validation_error<T>(r: Result<T, BookingStoreError>, text: Seq<char>) -> bool {
    r matches Err(BookingStoreError::Validation(m)) && m@ == text
}

impl BookingStoreError {
    /// Converts a data-layer error: validation failures keep their message, a missing
    /// record becomes `NotFound`, a database failure becomes `Internal`.
    pub fn from(value: db::Error) -> (r: Self)
        ensures
            value matches db::Error::ValidationError(e) ==> r matches BookingStoreError::Validation(m)
                && m@ == "invalid fields: "@ + db::join_names(e.field_names()),
            value is NoRecordFound ==> r is NotFound,
            value matches db::Error::DbError(d) ==> r matches BookingStoreError::Internal(m) && m@
                == d@,
    {
        match value {
            db::Error::ValidationError(e) => BookingStoreError::Validation(e.message()),
            db::Error::NoRecordFound => BookingStoreError::NotFound,
            db::Error::DbError(d) => BookingStoreError::Internal(d),
        }
    }
}

/// State of a seat reservation session in hold/confirm flows.
#[derive(Debug, Clone, Copy, PartialEq, Eq, Structural)]
pub enum SeatReservationStatus {
    Held,
    Confirmed,
}

/// A seat reservation session: who holds which seat of which movie, and until when.
#[derive(Debug)]
pub struct SeatReservationSession {
    pub session_uuid: String,
    pub movie_slug: String,
    pub seat_uuid: String,
    pub user_uuid: String,
    pub status: SeatReservationStatus,
    /// Wall-clock time (Unix milliseconds) when the hold is intended to expire.
    pub expires_at: i64,
}

impl Clone for SeatReservationSession {
    fn clone(&self) -> (r: Self)
        ensures
            r == *self,
    {
        SeatReservationSession {
            session_uuid: self.session_uuid.clone(),
            movie_slug: self.movie_slug.clone(),
            seat_uuid: self.seat_uuid.clone(),
            user_uuid: self.user_uuid.clone(),
            status: self.status,
            expires_at: self.expires_at,
        }
    }
}

/// Input for acquiring a seat hold session.
#[derive(Debug)]
pub struct SeatHoldChangeset {
    pub movie_slug: String,
    pub seat_uuid: String,
    pub user_uuid: String,
}

impl Clone for SeatHoldChangeset {
    fn clone(&self) -> (r: Self)
        ensures
            r == *self,
    {
        SeatHoldChangeset {
            movie_slug: self.movie_slug.clone(),
            seat_uuid: self.seat_uuid.clone(),
            user_uuid: self.user_uuid.clone(),
        }
    }
}

/// Text that is empty after trimming whitespace.
pub open spec fn blank(s: Seq<char>) -> bool {
    trim(s).len() == 0
}

/// Movie slug, seat id and user id are all non-blank.
pub open spec fn hold_inputs_ok(movie_slug: Seq<char>, seat_uuid: Seq<char>, user_uuid: Seq<char>) -> bool {
    !blank(movie_slug) && !blank(seat_uuid) && !blank(user_uuid)
}

/// The error for inputs that break the hold rules: the first blank one, in the order
/// movie, seat, user, names it.
pub open spec fn hold_inputs_error<T>(movie_slug: Seq<char>, seat_uuid: Seq<char>, user_uuid: Seq<char>, r: Result<T, BookingStoreError>) -> bool {
    if blank(movie_slug) {
        is_validation_error(r, "movie_slug must not be empty"@)
    } else if blank(seat_uuid) {
        is_validation_error(r, "seat_uuid must not be empty"@)
    } else {
        is_validation_error(r, "user_uuid must not be empty"@)
    }
}

/// Outcome of the hold-input rules on three texts.
pub open spec fn hold_inputs_result(movie_slug: Seq<char>, seat_uuid: Seq<char>, user_uuid: Seq<char>, r: Result<(), BookingStoreError>) -> bool {
    if hold_inputs_ok(movie_slug, seat_uuid, user_uuid) {
        r is Ok
    } else {
        hold_inputs_error(movie_slug, seat_uuid, user_uuid, r)
    }
}

/// Checks that movie slug, seat id and user id are each non-blank, in that order.
pub fn validate_hold_inputs(movie_slug: &str, seat_uuid: &str, user_uuid: &str) -> (r: Result<(), BookingStoreError>)
    ensures
        hold_inputs_result(movie_slug@, seat_uuid@, user_uuid@, r),
{
    if is_blank(movie_slug) {
        return Err(BookingStoreError::Validation(owned("movie_slug must not be empty")));
    }
    if is_blank(seat_uuid) {
        return Err(BookingStoreError::Validation(owned("seat_uuid must not be empty")));
    }
    if is_blank(user_uuid) {
        return Err(BookingStoreError::Validation(owned("user_uuid must not be empty")));
    }
    Ok(())
}

impl SeatHoldChangeset {
    /// Checks that movie slug, seat id and user id are each non-blank.
    pub fn validate(&self) -> (r: Result<(), BookingStoreError>)
        ensures
            hold_inputs_result(self.movie_slug@, self.seat_uuid@, self.user_uuid@, r),
    {
        validate_hold_inputs(self.movie_slug.as_str(), self.seat_uuid.as_str(), self.user_uuid.as_str())
    }
}

} // verus!
