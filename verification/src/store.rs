//! Error vocabulary of the durable booking store.

use vstd::prelude::*;
use crate::db;

verus! {

/// Errors returned by booking store implementations.
#[derive(Debug)]
pub enum BookingStoreError {
    Validation(String),
    NotFound,
    Conflict(String),
    Internal(String),
}

impl BookingStoreError {
    /// Converts a data-layer error: validation failures keep their message, a missing
    /// record becomes `NotFound`, a database failure becomes `Internal`.
    pub fn from(value: db::Error) -> (r: Self)
        ensures
            value matches db::Error::ValidationError(e) ==> r matches BookingStoreError::Validation(m)
                && m@ == "invalid fields: "@ + db::join_names(e.field_names()),
            value is NoRecordFound ==> r is NotFound,
            value matches db::Error::DbError(d) ==> r matches BookingStoreError::Internal(m) && m@
                == d@,
    {
        match value {
            db::Error::ValidationError(e) => BookingStoreError::Validation(e.message()),
            db::Error::NoRecordFound => BookingStoreError::NotFound,
            db::Error::DbError(d) => BookingStoreError::Internal(d),
        }
    }
}

} // verus!
