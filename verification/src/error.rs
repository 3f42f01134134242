//! The application error and the HTTP response each error is answered with.

use vstd::prelude::*;
use crate::db;
use crate::store_port::BookingStoreError;

verus! {

/// Anything that can go wrong while handling a request.
#[derive(Debug)]
pub enum Error {
    /// Authenticated caller is not allowed to perform this action.
    Forbidden,
    /// Errors that can occur as a result of a data layer operation.
    Database(db::Error),
    /// Template rendering failed; holds the renderer's message.
    Template(String),
    /// Seat hold / booking store failures.
    BookingStore(BookingStoreError),
    /// Any other error; holds its message.
    Other(String),
}

/// Status code and optional plain-text body of an error response.
#[derive(Debug)]
pub struct ErrorResponse {
    pub status: u16,
    pub body: Option<String>,
}

/// Status code an error is answered with.
pub open spec fn spec_error_status(e: Error) -> u16 {
    match e {
        Error::Forbidden => 403,
        Error::Database(d) => match d {
            db::Error::NoRecordFound => 404,
            db::Error::ValidationError(_) => 422,
            db::Error::DbError(_) => 500,
        },
        Error::BookingStore(b) => match b {
            BookingStoreError::Validation(_) => 422,
            BookingStoreError::NotFound => 404,
            BookingStoreError::SessionNotFound => 404,
            BookingStoreError::SessionOwnershipMismatch => 403,
            BookingStoreError::Conflict(_) => 409,
            BookingStoreError::SeatUnavailable => 409,
            BookingStoreError::Serialization(_) => 500,
            BookingStoreError::Internal(_) => 500,
        },
        Error::Template(_) => 500,
        Error::Other(_) => 500,
    }
}

/// Body an error is answered with: validation failures carry their message, every
/// other error has no body (internal details are not leaked).
pub open spec fn spec_error_body(e: Error) -> Option<Seq<char>> {
    match e {
        Error::Database(db::Error::ValidationError(v)) => Some("invalid fields: "@ + db::join_names(v.field_names())),
        Error::BookingStore(BookingStoreError::Validation(m)) => Some(m@),
        _ => None,
    }
}

impl Error {
    /// The HTTP response for this error.
    pub fn into_response(self) -> (r: ErrorResponse)
        ensures
            r.status == spec_error_status(self),
            r.body is None <==> spec_error_body(self) is None,
            r.body matches Some(b) ==> spec_error_body(self) == Some(b@),
    {
        match self {
            Error::Forbidden => ErrorResponse { status: 403, body: None },
            Error::Database(d) => match d {
                db::Error::NoRecordFound => ErrorResponse { status: 404, body: None },
                db::Error::ValidationError(v) => ErrorResponse { status: 422, body: Some(v.message()) },
                db::Error::DbError(_) => ErrorResponse { status: 500, body: None },
            },
            Error::BookingStore(b) => match b {
                BookingStoreError::Validation(m) => ErrorResponse { status: 422, body: Some(m) },
                BookingStoreError::NotFound => ErrorResponse { status: 404, body: None },
                BookingStoreError::SessionNotFound => ErrorResponse { status: 404, body: None },
                BookingStoreError::SessionOwnershipMismatch => ErrorResponse { status: 403, body: None },
                BookingStoreError::Conflict(_) => ErrorResponse { status: 409, body: None },
                BookingStoreError::SeatUnavailable => ErrorResponse { status: 409, body: None },
                BookingStoreError::Serialization(_) => ErrorResponse { status: 500, body: None },
                BookingStoreError::Internal(_) => ErrorResponse { status: 500, body: None },
            },
            Error::Template(_) => ErrorResponse { status: 500, body: None },
            Error::Other(_) => ErrorResponse { status: 500, body: None },
        }
    }
}

/// Every error is answered with a client or server error status, and only a
/// validation failure carries a body.
pub proof fn lemma_error_status_range(e: Error)
    ensures
        400 <= spec_error_status(e) < 600,
        spec_error_body(e) is Some ==> spec_error_status(e) == 422,
{
}

} // verus!
