//! Users.

use vstd::prelude::*;

verus! {

/// A user record.
#[derive(Debug, Clone)]
pub struct User {
    /// The internal id of the record (aliases rowid for speed).
    pub id: i64,
    /// The external UUID for URLs/APIs.
    pub uuid: String,
    /// The user's name.
    pub name: String,
}

} // verus!
