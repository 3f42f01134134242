//! Request payloads of the JSON API and the changesets they become.

use vstd::prelude::*;
use crate::auth::Principal;
use crate::db::entities::bookings::{BookingChangeset, BookingStatus};
use crate::store_port::{SeatHoldChangeset, SeatReservationSession};
use crate::text::owned;

verus! {

/// Body of the hold and checkout requests.
#[derive(Debug)]
pub struct SeatActionPayload {
    pub movie_slug: String,
    pub seat_uuid: String,
    /// The user the action is for; the authenticated subject when omitted.
    pub user_uuid: Option<String>,
}

/// The user a seat action is for: the payload's user when given, else the
/// authenticated subject.
pub open spec fn acting_user(payload: SeatActionPayload, principal: Principal) -> String {
    match payload.user_uuid {
        Some(u) => u,
        None => principal.sub,
    }
}

/// The user a checkout confirms for (see [`acting_user`]).
pub fn action_user(payload: &SeatActionPayload, principal: &Principal) -> (r: String)
    ensures
        r == acting_user(*payload, *principal),
{
    match &payload.user_uuid {
        Some(u) => u.clone(),
        None => principal.sub.clone(),
    }
}

/// Query of the seat-map read: the viewer whose holds show as their own.
#[derive(Debug)]
pub struct SeatsQuery {
    /// When empty or omitted, every hold is shown as another viewer's.
    pub viewer: Option<String>,
}

impl SeatsQuery {
    /// The viewer id, or the empty text when none was given.
    pub fn viewer_or_empty(&self) -> (r: String)
        ensures
            self.viewer matches Some(v) ==> r@ == v@,
            self.viewer is None ==> r@ == Seq::<char>::empty(),
    {
        match &self.viewer {
            Some(v) => v.clone(),
            None => String::new(),
        }
    }
}

/// The hold a seat action asks for: the payload's movie and seat, held by the
/// payload's user when given, else by the authenticated subject.
pub fn hold_changeset(payload: SeatActionPayload, principal: Principal) -> (r: SeatHoldChangeset)
    ensures
        r.movie_slug == payload.movie_slug,
        r.seat_uuid == payload.seat_uuid,
        r.user_uuid == acting_user(payload, principal),
{
    let user_uuid = match payload.user_uuid {
        Some(u) => u,
        None => principal.sub,
    };
    SeatHoldChangeset { movie_slug: payload.movie_slug, seat_uuid: payload.seat_uuid, user_uuid }
}

/// The durable booking a confirmed hold becomes: same movie, seat and user, status
/// `Confirmed`.
pub fn checkout_changeset(session: SeatReservationSession) -> (r: BookingChangeset)
    ensures
        r.movie_uuid == session.movie_slug,
        r.seat_uuid == session.seat_uuid,
        r.user_uuid == session.user_uuid,
        r.status == BookingStatus::Confirmed,
{
    BookingChangeset {
        movie_uuid: session.movie_slug,
        seat_uuid: session.seat_uuid,
        user_uuid: session.user_uuid,
        status: BookingStatus::Confirmed,
    }
}

} // verus!
