//! Seat bookings.

use vstd::prelude::*;
use crate::db::{ValidationErrors, note_invalid};

verus! {

/// Lifecycle state of a booking.
#[derive(Debug, Clone, Copy, PartialEq, Eq, Hash, Structural)]
pub enum BookingStatus {
    Pending,
    Confirmed,
    Cancelled,
}

/// A seat booking for a movie, owned by a user.
#[derive(Debug)]
pub struct Booking {
    /// The internal id of the record (aliases rowid for speed).
    pub id: i64,
    /// The external UUID for URLs/APIs.
    pub uuid: String,
    pub movie_uuid: String,
    pub seat_uuid: String,
    pub user_uuid: String,
    pub status: BookingStatus,
}

impl Clone for Booking {
    fn clone(&self) -> (r: Self)
        ensures
            r == *self,
    {
        Booking {
            id: self.id,
            uuid: self.uuid.clone(),
            movie_uuid: self.movie_uuid.clone(),
            seat_uuid: self.seat_uuid.clone(),
            user_uuid: self.user_uuid.clone(),
            status: self.status,
        }
    }
}

/// Data for creating or updating a [`Booking`].
#[derive(Debug)]
pub struct BookingChangeset {
    pub movie_uuid: String,
    pub seat_uuid: String,
    pub user_uuid: String,
    pub status: BookingStatus,
}

impl Clone for BookingChangeset {
    fn clone(&self) -> (r: Self)
        ensures
            r == *self,
    {
        BookingChangeset {
            movie_uuid: self.movie_uuid.clone(),
            seat_uuid: self.seat_uuid.clone(),
            user_uuid: self.user_uuid.clone(),
            status: self.status,
        }
    }
}

impl BookingChangeset {
    /// Names of the fields that break the changeset's rules (each text field needs at
    /// least one character).
    pub open spec fn invalid_fields(&self) -> Seq<Seq<char>> {
        let a: Seq<Seq<char>> = if self.movie_uuid@.len() < 1 {
            seq!["movie_uuid"@]
        } else {
            Seq::empty()
        };
        let b: Seq<Seq<char>> = if self.seat_uuid@.len() < 1 {
            a.push("seat_uuid"@)
        } else {
            a
        };
        if self.user_uuid@.len() < 1 {
            b.push("user_uuid"@)
        } else {
            b
        }
    }

    /// Checks the changeset's rules: `movie_uuid`, `seat_uuid` and `user_uuid` each have
    /// at least one character.
    pub fn validate(&self) -> (r: Result<(), ValidationErrors>)
        ensures
            r is Ok <==> self.invalid_fields().len() == 0,
            r matches Err(e) ==> e.field_names() == self.invalid_fields(),
    {
        let mut fields: Vec<String> = Vec::new();
        assert(fields@.map_values(|f: String| f@) =~= Seq::<Seq<char>>::empty());
        note_invalid(&mut fields, self.movie_uuid.as_str().unicode_len() < 1, "movie_uuid");
        note_invalid(&mut fields, self.seat_uuid.as_str().unicode_len() < 1, "seat_uuid");
        note_invalid(&mut fields, self.user_uuid.as_str().unicode_len() < 1, "user_uuid");
        if fields.len() == 0 {
            Ok(())
        } else {
            let e = ValidationErrors { fields };
            assert(e.field_names() =~= self.invalid_fields());
            Err(e)
        }
    }
}

} // verus!
