//! Entity definitions.

pub mod bookings;
pub mod movies;
pub mod tasks;
pub mod users;
