//! In-memory booking storage with seat hold sessions, for tests and local tooling.

use vstd::prelude::*;
use crate::db::entities::bookings::{Booking, BookingChangeset, BookingStatus};
use crate::db::join_names;
use crate::store_memory::{
    active_seat_taken, active_seat_taken_spec, bookings_for_movie, bookings_wf,
    booking_from, filter_bookings_by_movie,
};
use crate::store_port::{
    BookingStoreError, SeatHoldChangeset, SeatReservationSession, SeatReservationStatus,
    hold_inputs_ok, hold_inputs_error,
};
use crate::text::{owned, str_eq};
use crate::uuids::{is_uuid_v4_text, new_uuid_v4};

verus! {

/// Abstract state of the store.
pub struct StoreState {
    pub next_id: int,
    pub bookings: Seq<Booking>,
    pub reservations: Seq<SeatReservationSession>,
}

/// Thread-agnostic in-memory store of bookings and seat reservations.
pub struct InMemoryBookingStore {
    next_id: i64,
    bookings: Vec<Booking>,
    reservations: Vec<SeatReservationSession>,
}

impl View for InMemoryBookingStore {
    type V = StoreState;

    closed spec fn view(&self) -> StoreState {
        StoreState { next_id: self.next_id as int, bookings: self.bookings@, reservations: self.reservations@ }
    }
}

/// A reservation for `seat` of `movie`.
pub open spec fn reservation_for(r: SeatReservationSession, movie: Seq<char>, seat: Seq<char>) -> bool {
    r.movie_slug@ == movie && r.seat_uuid@ == seat
}

/// Some reservation exists for `seat` of `movie`.
pub open spec fn active_reservation_taken_spec(reservations: Seq<SeatReservationSession>, movie: Seq<char>, seat: Seq<char>) -> bool {
    exists|i: int| 0 <= i < reservations.len() && reservation_for(#[trigger] reservations[i], movie, seat)
}

/// `i` is the position of the first reservation for `seat` of `movie`.
pub open spec fn is_first_reservation(reservations: Seq<SeatReservationSession>, movie: Seq<char>, seat: Seq<char>, i: int) -> bool {
    &&& 0 <= i < reservations.len()
    &&& reservation_for(reservations[i], movie, seat)
    &&& forall|j: int| 0 <= j < i ==> !reservation_for(#[trigger] reservations[j], movie, seat)
}

/// A reservation held by `user` for `movie`.
pub open spec fn user_hold_for(r: SeatReservationSession, movie: Seq<char>, user: Seq<char>) -> bool {
    r.movie_slug@ == movie && r.user_uuid@ == user
}

/// `user` has a reservation for some seat of `movie`.
pub open spec fn user_has_hold(reservations: Seq<SeatReservationSession>, movie: Seq<char>, user: Seq<char>) -> bool {
    exists|i: int| 0 <= i < reservations.len() && user_hold_for(#[trigger] reservations[i], movie, user)
}

/// The reservations without `user`'s reservation for `movie`, if there is one.
pub open spec fn release_user_hold(reservations: Seq<SeatReservationSession>, movie: Seq<char>, user: Seq<char>) -> Seq<SeatReservationSession> {
    if user_has_hold(reservations, movie, user) {
        reservations.remove(choose|i: int| 0 <= i < reservations.len() && user_hold_for(#[trigger] reservations[i], movie, user))
    } else {
        reservations
    }
}

/// At most one reservation per seat of a movie, and at most one per user and movie.
pub open spec fn reservations_wf(res: Seq<SeatReservationSession>) -> bool {
    forall|i: int, j: int| #![trigger res[i], res[j]] 0 <= i < j < res.len() ==> {
        &&& !reservation_for(res[i], res[j].movie_slug@, res[j].seat_uuid@)
        &&& !user_hold_for(res[i], res[j].movie_slug@, res[j].user_uuid@)
    }
}

/// Store invariant: booking ids as in the durable store; at most one reservation per
/// seat of a movie, and at most one per user and movie.
pub open spec fn store_wf(s: StoreState) -> bool {
    &&& bookings_wf(s.next_id, s.bookings)
    &&& reservations_wf(s.reservations)
}

/// One `book` step (see the durable in-memory store).
pub open spec fn book_step(pre: StoreState, cs: BookingChangeset, uuid: Seq<char>, post: StoreState, r: Result<Booking, BookingStoreError>) -> bool {
    if cs.invalid_fields().len() > 0 {
        &&& r matches Err(BookingStoreError::Validation(m)) && m@ == "invalid fields: "@ + join_names(cs.invalid_fields())
        &&& post == pre
    } else if active_seat_taken_spec(pre.bookings, cs.movie_uuid@, cs.seat_uuid@) {
        &&& r matches Err(BookingStoreError::Conflict(m)) && m@ == "seat already booked for this movie"@
        &&& post == pre
    } else {
        &&& r matches Ok(b) && booking_from(cs, pre.next_id, uuid, b)
            && post == (StoreState { next_id: pre.next_id + 1, bookings: pre.bookings.push(b), reservations: pre.reservations })
    }
}

/// One `hold` step: the hold inputs are checked, a seat that already has a reservation
/// is refused, else the user's earlier reservation for the movie (if any) is released
/// and a held session with the given id is stored.
pub open spec fn hold_step(pre: StoreState, ch: SeatHoldChangeset, session_uuid: Seq<char>, post: StoreState, r: Result<SeatReservationSession, BookingStoreError>) -> bool {
    if !hold_inputs_ok(ch.movie_slug@, ch.seat_uuid@, ch.user_uuid@) {
        hold_inputs_error(ch.movie_slug@, ch.seat_uuid@, ch.user_uuid@, r) && post == pre
    } else if active_reservation_taken_spec(pre.reservations, ch.movie_slug@, ch.seat_uuid@) {
        r is Err && r->Err_0 is SeatUnavailable && post == pre
    } else {
        r matches Ok(s) && {
            &&& s.session_uuid@ == session_uuid
            &&& s.movie_slug == ch.movie_slug
            &&& s.seat_uuid == ch.seat_uuid
            &&& s.user_uuid == ch.user_uuid
            &&& s.status == SeatReservationStatus::Held
            &&& s.expires_at == i64::MAX
            &&& post == (StoreState {
                reservations: release_user_hold(pre.reservations, ch.movie_slug@, ch.user_uuid@).push(s),
                ..pre
            })
        }
    }
}

/// One `confirm` step: the first reservation of the seat is looked up; a missing one
/// or one owned by another user is refused, else it is consumed (removed) and
/// answered marked confirmed.
pub open spec fn confirm_step(pre: StoreState, movie: Seq<char>, seat: Seq<char>, user: Seq<char>, post: StoreState, r: Result<SeatReservationSession, BookingStoreError>) -> bool {
    if !active_reservation_taken_spec(pre.reservations, movie, seat) {
        r is Err && r->Err_0 is SessionNotFound && post == pre
    } else {
        let i = choose|i: int| is_first_reservation(pre.reservations, movie, seat, i);
        if pre.reservations[i].user_uuid@ != user {
            r is Err && r->Err_0 is SessionOwnershipMismatch && post == pre
        } else {
            r matches Ok(s) && s == (SeatReservationSession { status: SeatReservationStatus::Confirmed, ..pre.reservations[i] })
                && post == (StoreState { reservations: pre.reservations.remove(i), ..pre })
        }
    }
}

/// Removing a reservation keeps the others, in order, and keeps the invariant.
proof fn lemma_remove_reservation(res: Seq<SeatReservationSession>, i: int)
    requires
        0 <= i < res.len(),
    ensures
        res.remove(i).len() == res.len() - 1,
        forall|k: int| 0 <= k < i ==> #[trigger] res.remove(i)[k] == res[k],
        forall|k: int| i <= k < res.len() - 1 ==> #[trigger] res.remove(i)[k] == res[k + 1],
        reservations_wf(res) ==> reservations_wf(res.remove(i)),
{
    res.remove_ensures(i);
    let r = res.remove(i);
    if reservations_wf(res) {
        assert forall|a: int, b: int| #![trigger r[a], r[b]] 0 <= a < b < r.len() implies {
            &&& !reservation_for(r[a], r[b].movie_slug@, r[b].seat_uuid@)
            &&& !user_hold_for(r[a], r[b].movie_slug@, r[b].user_uuid@)
        } by {
            let a2 = if a < i { a } else { a + 1 };
            let b2 = if b < i { b } else { b + 1 };
            assert(r[a] == res[a2]);
            assert(r[b] == res[b2]);
            assert(res[a2] == res[a2] && res[b2] == res[b2]);
        }
    }
}

/// Releasing the user's hold frees no seat that was free and keeps the invariant, and
/// when the store keeps the invariant the user has no reservation for the movie left.
proof fn lemma_release_user_hold(res: Seq<SeatReservationSession>, movie: Seq<char>, user: Seq<char>)
    ensures
        forall|m: Seq<char>, seat: Seq<char>| #[trigger] active_reservation_taken_spec(release_user_hold(res, movie, user), m, seat)
            ==> active_reservation_taken_spec(res, m, seat),
        reservations_wf(res) ==> reservations_wf(release_user_hold(res, movie, user)),
        reservations_wf(res) ==> !user_has_hold(release_user_hold(res, movie, user), movie, user),
{
    let rel = release_user_hold(res, movie, user);
    if user_has_hold(res, movie, user) {
        let c = choose|i: int| 0 <= i < res.len() && user_hold_for(#[trigger] res[i], movie, user);
        lemma_remove_reservation(res, c);
        assert forall|m: Seq<char>, seat: Seq<char>| #[trigger] active_reservation_taken_spec(rel, m, seat)
            implies active_reservation_taken_spec(res, m, seat) by {
            let k = choose|k: int| 0 <= k < rel.len() && reservation_for(#[trigger] rel[k], m, seat);
            if k < c {
                assert(rel[k] == res[k]);
                assert(reservation_for(res[k], m, seat));
            } else {
                assert(rel[k] == res[k + 1]);
                assert(reservation_for(res[k + 1], m, seat));
            }
        }
        if reservations_wf(res) {
            assert forall|k: int| 0 <= k < rel.len() implies !user_hold_for(#[trigger] rel[k], movie, user) by {
                if k < c {
                    assert(rel[k] == res[k]);
                    assert(res[k] == res[k] && res[c] == res[c]);
                } else {
                    assert(rel[k] == res[k + 1]);
                    assert(res[c] == res[c] && res[k + 1] == res[k + 1]);
                }
            }
        }
    } else {
        assert(rel == res);
    }
}

/// Every `hold` step keeps the store invariant.
pub proof fn lemma_hold_keeps_wf(pre: StoreState, ch: SeatHoldChangeset, u: Seq<char>, post: StoreState, r: Result<SeatReservationSession, BookingStoreError>)
    requires
        store_wf(pre),
        hold_step(pre, ch, u, post, r),
    ensures
        store_wf(post),
{
    if hold_inputs_ok(ch.movie_slug@, ch.seat_uuid@, ch.user_uuid@)
        && !active_reservation_taken_spec(pre.reservations, ch.movie_slug@, ch.seat_uuid@) {
        let s = r->Ok_0;
        let rel = release_user_hold(pre.reservations, ch.movie_slug@, ch.user_uuid@);
        lemma_release_user_hold(pre.reservations, ch.movie_slug@, ch.user_uuid@);
        let res = rel.push(s);
        assert(res == post.reservations);
        assert forall|a: int, b: int| #![trigger res[a], res[b]] 0 <= a < b < res.len() implies {
            &&& !reservation_for(res[a], res[b].movie_slug@, res[b].seat_uuid@)
            &&& !user_hold_for(res[a], res[b].movie_slug@, res[b].user_uuid@)
        } by {
            assert(res[a] == rel[a]);
            if b == rel.len() {
                assert(res[b] == s);
                assert(!active_reservation_taken_spec(rel, ch.movie_slug@, ch.seat_uuid@));
                assert(!reservation_for(rel[a], ch.movie_slug@, ch.seat_uuid@));
                assert(!user_hold_for(rel[a], ch.movie_slug@, ch.user_uuid@));
            } else {
                assert(res[b] == rel[b]);
                assert(rel[a] == rel[a] && rel[b] == rel[b]);
            }
        }
    }
}

/// Every `confirm` step keeps the store invariant.
pub proof fn lemma_confirm_keeps_wf(pre: StoreState, movie: Seq<char>, seat: Seq<char>, user: Seq<char>, post: StoreState, r: Result<SeatReservationSession, BookingStoreError>)
    requires
        store_wf(pre),
        confirm_step(pre, movie, seat, user, post, r),
    ensures
        store_wf(post),
{
    if active_reservation_taken_spec(pre.reservations, movie, seat) {
        let k = choose|k: int| 0 <= k < pre.reservations.len() && reservation_for(#[trigger] pre.reservations[k], movie, seat);
        lemma_first_reservation_exists(pre.reservations, movie, seat, k);
        let i = choose|i: int| is_first_reservation(pre.reservations, movie, seat, i);
        lemma_remove_reservation(pre.reservations, i);
    }
}

fn active_reservation_taken(reservations: &Vec<SeatReservationSession>, movie_slug: &str, seat_uuid: &str) -> (r: bool)
    ensures
        r == active_reservation_taken_spec(reservations@, movie_slug@, seat_uuid@),
{
    let mut i: usize = 0;
    while i < reservations.len()
        invariant
            i <= reservations@.len(),
            forall|k: int| 0 <= k < i ==> !reservation_for(#[trigger] reservations@[k], movie_slug@, seat_uuid@),
        decreases reservations@.len() - i,
    {
        let s = &reservations[i];
        if str_eq(s.movie_slug.as_str(), movie_slug) && str_eq(s.seat_uuid.as_str(), seat_uuid) {
            assert(reservation_for(reservations@[i as int], movie_slug@, seat_uuid@));
            return true;
        }
        i = i + 1;
    }
    false
}

/// Position of `user`'s reservation for `movie`, if any.
fn user_hold_index(reservations: &Vec<SeatReservationSession>, movie_slug: &str, user_uuid: &str) -> (r: Option<usize>)
    ensures
        r matches Some(j) ==> j < reservations@.len() && user_hold_for(reservations@[j as int], movie_slug@, user_uuid@),
        r is None ==> !user_has_hold(reservations@, movie_slug@, user_uuid@),
{
    let mut i: usize = 0;
    while i < reservations.len()
        invariant
            i <= reservations@.len(),
            forall|k: int| 0 <= k < i ==> !user_hold_for(#[trigger] reservations@[k], movie_slug@, user_uuid@),
        decreases reservations@.len() - i,
    {
        if str_eq(reservations[i].movie_slug.as_str(), movie_slug) && str_eq(reservations[i].user_uuid.as_str(), user_uuid) {
            return Some(i);
        }
        i = i + 1;
    }
    None
}

impl InMemoryBookingStore {
    /// Store invariant.
    pub open spec fn wf(&self) -> bool {
        store_wf(self@)
    }

    /// An empty store whose first booking id is 1.
    pub fn new() -> (s: Self)
        ensures
            s.wf(),
            s@.next_id == 1,
            s@.bookings.len() == 0,
            s@.reservations.len() == 0,
    {
        InMemoryBookingStore { next_id: 1, bookings: Vec::new(), reservations: Vec::new() }
    }

    /// Creates a booking with the given UUID (see [`Self::book`]).
    pub fn book_with_uuid(&mut self, changeset: BookingChangeset, uuid: String) -> (r: Result<Booking, BookingStoreError>)
        requires
            old(self).wf(),
            old(self)@.next_id < i64::MAX,
        ensures
            final(self).wf(),
            book_step(old(self)@, changeset, uuid@, final(self)@, r),
    {
        match changeset.validate() {
            Err(e) => {
                return Err(BookingStoreError::Validation(e.message()));
            },
            Ok(()) => {},
        }
        if active_seat_taken(&self.bookings, changeset.movie_uuid.as_str(), changeset.seat_uuid.as_str()) {
            return Err(BookingStoreError::Conflict(owned("seat already booked for this movie")));
        }
        let id = self.next_id;
        self.next_id = self.next_id + 1;
        let booking = Booking {
            id,
            uuid,
            movie_uuid: changeset.movie_uuid,
            seat_uuid: changeset.seat_uuid,
            user_uuid: changeset.user_uuid,
            status: changeset.status,
        };
        self.bookings.push(booking.clone());
        Ok(booking)
    }

    /// Creates a booking from a valid changeset with a fresh random UUID; refuses a seat
    /// that an active booking of the same movie already holds.
    pub fn book(&mut self, changeset: BookingChangeset) -> (r: Result<Booking, BookingStoreError>)
        requires
            old(self).wf(),
            old(self)@.next_id < i64::MAX,
        ensures
            final(self).wf(),
            exists|uuid: Seq<char>| is_uuid_v4_text(uuid) && book_step(old(self)@, changeset, uuid, final(self)@, r),
    {
        let uuid = new_uuid_v4();
        let ghost u = uuid@;
        let r = self.book_with_uuid(changeset, uuid);
        assert(is_uuid_v4_text(u) && book_step(old(self)@, changeset, u, self@, r));
        r
    }

    /// All bookings for the given movie, in storage order.
    pub fn list_bookings_by_movie(&self, movie_uuid: &str) -> (r: Result<Vec<Booking>, BookingStoreError>)
        ensures
            r matches Ok(v) && v@ == bookings_for_movie(self@.bookings, movie_uuid@),
    {
        Ok(filter_bookings_by_movie(&self.bookings, movie_uuid))
    }

    /// Holds a seat under the given session id (see [`Self::hold`]).
    pub fn hold_with_session_uuid(&mut self, changeset: SeatHoldChangeset, session_uuid: String) -> (r: Result<SeatReservationSession, BookingStoreError>)
        requires
            old(self).wf(),
        ensures
            final(self).wf(),
            hold_step(old(self)@, changeset, session_uuid@, final(self)@, r),
    {
        match changeset.validate() {
            Err(e) => {
                return Err(e);
            },
            Ok(()) => {},
        }
        if active_reservation_taken(&self.reservations, changeset.movie_slug.as_str(), changeset.seat_uuid.as_str()) {
            return Err(BookingStoreError::SeatUnavailable);
        }
        let ghost pre = self@;
        let ghost ch = changeset;
        proof {
            lemma_release_user_hold(pre.reservations, changeset.movie_slug@, changeset.user_uuid@);
        }
        match user_hold_index(&self.reservations, changeset.movie_slug.as_str(), changeset.user_uuid.as_str()) {
            Some(j) => {
                proof {
                    let c = choose|i: int| 0 <= i < pre.reservations.len() && user_hold_for(#[trigger] pre.reservations[i], changeset.movie_slug@, changeset.user_uuid@);
                    if c != j {
                        let (a, b) = if c < j { (c, j as int) } else { (j as int, c) };
                        assert(pre.reservations[a] == pre.reservations[a] && pre.reservations[b] == pre.reservations[b]);
                    }
                }
                self.reservations.remove(j);
            },
            None => {},
        }
        let session = SeatReservationSession {
            session_uuid,
            movie_slug: changeset.movie_slug,
            seat_uuid: changeset.seat_uuid,
            user_uuid: changeset.user_uuid,
            status: SeatReservationStatus::Held,
            expires_at: i64::MAX,
        };
        self.reservations.push(session.clone());
        proof {
            lemma_hold_keeps_wf(pre, ch, session.session_uuid@, self@, Ok(session));
        }
        Ok(session)
    }

    /// Acquires a hold on a seat with a fresh random session id. In-memory holds do
    /// not expire: the session's `expires_at` is `i64::MAX`. A seat that already has a
    /// reservation is refused; otherwise the user's earlier hold for the movie, if
    /// any, is released, so a user holds at most one seat per movie.
    pub fn hold(&mut self, changeset: SeatHoldChangeset) -> (r: Result<SeatReservationSession, BookingStoreError>)
        requires
            old(self).wf(),
        ensures
            final(self).wf(),
            exists|u: Seq<char>| is_uuid_v4_text(u) && hold_step(old(self)@, changeset, u, final(self)@, r),
    {
        let uuid = new_uuid_v4();
        let ghost u = uuid@;
        let r = self.hold_with_session_uuid(changeset, uuid);
        assert(is_uuid_v4_text(u) && hold_step(old(self)@, changeset, u, self@, r));
        r
    }

    /// Confirms the reservation of a seat for its owner, consuming it: the answer is
    /// the session marked confirmed, and the seat has no reservation afterwards.
    pub fn confirm(&mut self, movie_slug: &str, seat_uuid: &str, user_uuid: &str) -> (r: Result<SeatReservationSession, BookingStoreError>)
        requires
            old(self).wf(),
        ensures
            final(self).wf(),
            confirm_step(old(self)@, movie_slug@, seat_uuid@, user_uuid@, final(self)@, r),
    {
        let mut i: usize = 0;
        while i < self.reservations.len()
            invariant
                i <= self.reservations@.len(),
                self@ == old(self)@,
                store_wf(self@),
                forall|k: int| 0 <= k < i ==> !reservation_for(#[trigger] self.reservations@[k], movie_slug@, seat_uuid@),
            decreases self.reservations@.len() - i,
        {
            if str_eq(self.reservations[i].movie_slug.as_str(), movie_slug) && str_eq(self.reservations[i].seat_uuid.as_str(), seat_uuid) {
                let ghost pre = self@;
                proof {
                    assert(is_first_reservation(pre.reservations, movie_slug@, seat_uuid@, i as int));
                    assert(active_reservation_taken_spec(pre.reservations, movie_slug@, seat_uuid@));
                    let c = choose|c: int| is_first_reservation(pre.reservations, movie_slug@, seat_uuid@, c);
                    if c < i {
                        assert(!reservation_for(pre.reservations[c], movie_slug@, seat_uuid@));
                    }
                    if c > i {
                        assert(!reservation_for(pre.reservations[i as int], movie_slug@, seat_uuid@));
                    }
                    assert(c == i);
                }
                if !str_eq(self.reservations[i].user_uuid.as_str(), user_uuid) {
                    return Err(BookingStoreError::SessionOwnershipMismatch);
                }
                let mut result = self.reservations.remove(i);
                result.status = SeatReservationStatus::Confirmed;
                proof {
                    lemma_confirm_keeps_wf(pre, movie_slug@, seat_uuid@, user_uuid@, self@, Ok(result));
                }
                return Ok(result);
            }
            i = i + 1;
        }
        Err(BookingStoreError::SessionNotFound)
    }
}

impl Default for InMemoryBookingStore {
    fn default() -> (s: Self)
        ensures
            s.wf(),
            s@.next_id == 1,
            s@.bookings.len() == 0,
            s@.reservations.len() == 0,
    {
        Self::new()
    }
}

/// Only an active booking of the same seat of the same movie blocks a booking: a valid
/// changeset is refused exactly when some stored booking has its movie, its seat and a
/// status other than cancelled, and then with a conflict. Bookings of other movies,
/// of other seats, or cancelled ones never block it; holds play no part.
pub proof fn lemma_booking_conflict_only_same_movie_and_seat(pre: StoreState, cs: BookingChangeset, u: Seq<char>, post: StoreState, r: Result<Booking, BookingStoreError>)
    requires
        cs.invalid_fields().len() == 0,
        book_step(pre, cs, u, post, r),
    ensures
        r is Err <==> exists|i: int| 0 <= i < pre.bookings.len() && {
            let b = #[trigger] pre.bookings[i];
            &&& b.movie_uuid@ == cs.movie_uuid@
            &&& b.seat_uuid@ == cs.seat_uuid@
            &&& b.status != BookingStatus::Cancelled
        },
        r is Err ==> r matches Err(BookingStoreError::Conflict(_)),
        r matches Ok(b) ==> b.movie_uuid == cs.movie_uuid && b.seat_uuid == cs.seat_uuid,
{
}

/// Only one hold can be acquired on a seat: once a hold succeeds, another hold of the
/// same seat of the same movie is refused as unavailable, whoever asks.
pub proof fn lemma_hold_single_winner(s0: StoreState, ch: SeatHoldChangeset, u: Seq<char>, s1: StoreState, h: SeatReservationSession, ch2: SeatHoldChangeset, u2: Seq<char>, s2: StoreState, r2: Result<SeatReservationSession, BookingStoreError>)
    requires
        hold_step(s0, ch, u, s1, Ok(h)),
        hold_inputs_ok(ch2.movie_slug@, ch2.seat_uuid@, ch2.user_uuid@),
        ch2.movie_slug@ == ch.movie_slug@,
        ch2.seat_uuid@ == ch.seat_uuid@,
        hold_step(s1, ch2, u2, s2, r2),
    ensures
        r2 matches Err(BookingStoreError::SeatUnavailable),
        s2 == s1,
{
    let k = s1.reservations.len() - 1;
    assert(reservation_for(s1.reservations[k], ch2.movie_slug@, ch2.seat_uuid@));
}

/// After a successful hold, the session is the seat's only reservation.
proof fn lemma_hold_is_first(s0: StoreState, ch: SeatHoldChangeset, u: Seq<char>, s1: StoreState, h: SeatReservationSession)
    requires
        hold_step(s0, ch, u, s1, Ok(h)),
    ensures
        s1.reservations.len() > 0,
        s1.reservations.last() == h,
        is_first_reservation(s1.reservations, ch.movie_slug@, ch.seat_uuid@, s1.reservations.len() - 1),
        active_reservation_taken_spec(s1.reservations, ch.movie_slug@, ch.seat_uuid@),
        (choose|i: int| is_first_reservation(s1.reservations, ch.movie_slug@, ch.seat_uuid@, i)) == s1.reservations.len() - 1,
        s1.reservations.drop_last() == release_user_hold(s0.reservations, ch.movie_slug@, ch.user_uuid@),
        !active_reservation_taken_spec(s1.reservations.drop_last(), ch.movie_slug@, ch.seat_uuid@),
{
    let rel = release_user_hold(s0.reservations, ch.movie_slug@, ch.user_uuid@);
    lemma_release_user_hold(s0.reservations, ch.movie_slug@, ch.user_uuid@);
    let k = s1.reservations.len() - 1;
    assert(s1.reservations.drop_last() =~= rel);
    assert(!active_reservation_taken_spec(rel, ch.movie_slug@, ch.seat_uuid@));
    assert forall|j: int| 0 <= j < k implies !reservation_for(#[trigger] s1.reservations[j], ch.movie_slug@, ch.seat_uuid@) by {
        assert(s1.reservations[j] == rel[j]);
    }
    assert(is_first_reservation(s1.reservations, ch.movie_slug@, ch.seat_uuid@, k));
    let c = choose|c: int| is_first_reservation(s1.reservations, ch.movie_slug@, ch.seat_uuid@, c);
    if c < k {
        assert(s1.reservations[c] == rel[c]);
    }
}

/// After a successful hold, the holder can confirm it: the answer is the hold with
/// status `Confirmed`, and the hold is consumed, so the seat has no reservation left.
/// Any other user is refused as not the owner, and the store is unchanged.
pub proof fn lemma_hold_then_confirm(s0: StoreState, ch: SeatHoldChangeset, u: Seq<char>, s1: StoreState, h: SeatReservationSession, user: Seq<char>, s2: StoreState, r2: Result<SeatReservationSession, BookingStoreError>)
    requires
        hold_step(s0, ch, u, s1, Ok(h)),
        confirm_step(s1, ch.movie_slug@, ch.seat_uuid@, user, s2, r2),
    ensures
        user == ch.user_uuid@ ==> (r2 matches Ok(c) && c == (SeatReservationSession { status: SeatReservationStatus::Confirmed, ..h })),
        user == ch.user_uuid@ ==> !active_reservation_taken_spec(s2.reservations, ch.movie_slug@, ch.seat_uuid@),
        user != ch.user_uuid@ ==> (r2 matches Err(BookingStoreError::SessionOwnershipMismatch) && s2 == s1),
{
    lemma_hold_is_first(s0, ch, u, s1, h);
    let k = s1.reservations.len() - 1;
    assert(s1.reservations.remove(k) =~= s1.reservations.drop_last());
}

/// A confirm consumes the hold: once it succeeds, the seat has no reservation, and a
/// repeated confirm of the seat, by anyone, answers that no session exists.
pub proof fn lemma_confirm_consumes_hold(s1: StoreState, movie: Seq<char>, seat: Seq<char>, user: Seq<char>, s2: StoreState, c: SeatReservationSession, user2: Seq<char>, s3: StoreState, r3: Result<SeatReservationSession, BookingStoreError>)
    requires
        store_wf(s1),
        confirm_step(s1, movie, seat, user, s2, Ok(c)),
        confirm_step(s2, movie, seat, user2, s3, r3),
    ensures
        !active_reservation_taken_spec(s2.reservations, movie, seat),
        r3 matches Err(BookingStoreError::SessionNotFound),
        s3 == s2,
{
    let k = choose|k: int| 0 <= k < s1.reservations.len() && reservation_for(#[trigger] s1.reservations[k], movie, seat);
    lemma_first_reservation_exists(s1.reservations, movie, seat, k);
    let i = choose|i: int| is_first_reservation(s1.reservations, movie, seat, i);
    lemma_remove_reservation(s1.reservations, i);
    let res = s1.reservations;
    let rem = s2.reservations;
    assert forall|j: int| 0 <= j < rem.len() implies !reservation_for(#[trigger] rem[j], movie, seat) by {
        if j < i {
            assert(rem[j] == res[j]);
        } else {
            assert(rem[j] == res[j + 1]);
            assert(res[i] == res[i] && res[j + 1] == res[j + 1]);
        }
    }
}

/// Holding another seat of a movie replaces the user's earlier hold for it: after a
/// hold of one seat and a hold of a different seat of the same movie by the same
/// user, the first seat has no reservation left, and the user holds exactly the new
/// seat of that movie.
pub proof fn lemma_hold_replaces_previous(s0: StoreState, ch1: SeatHoldChangeset, u1: Seq<char>, s1: StoreState, h1: SeatReservationSession, ch2: SeatHoldChangeset, u2: Seq<char>, s2: StoreState, h2: SeatReservationSession)
    requires
        store_wf(s0),
        hold_step(s0, ch1, u1, s1, Ok(h1)),
        ch2.movie_slug@ == ch1.movie_slug@,
        ch2.user_uuid@ == ch1.user_uuid@,
        ch2.seat_uuid@ != ch1.seat_uuid@,
        hold_step(s1, ch2, u2, s2, Ok(h2)),
    ensures
        !active_reservation_taken_spec(s2.reservations, ch1.movie_slug@, ch1.seat_uuid@),
        forall|j: int| 0 <= j < s2.reservations.len() && user_hold_for(#[trigger] s2.reservations[j], ch1.movie_slug@, ch1.user_uuid@)
            ==> s2.reservations[j] == h2,
{
    lemma_hold_keeps_wf(s0, ch1, u1, s1, Ok(h1));
    lemma_hold_keeps_wf(s1, ch2, u2, s2, Ok(h2));
    lemma_hold_is_first(s0, ch1, u1, s1, h1);
    lemma_hold_is_first(s1, ch2, u2, s2, h2);
    let res = s1.reservations;
    let k = res.len() - 1;
    assert(user_hold_for(res[k], ch2.movie_slug@, ch2.user_uuid@));
    let c = choose|i: int| 0 <= i < res.len() && user_hold_for(#[trigger] res[i], ch2.movie_slug@, ch2.user_uuid@);
    if c != k {
        assert(res[c] == res[c] && res[k] == res[k]);
    }
    let rel = release_user_hold(res, ch2.movie_slug@, ch2.user_uuid@);
    assert(rel =~= res.drop_last());
    let r2 = s2.reservations;
    assert forall|j: int| 0 <= j < r2.len() implies !reservation_for(#[trigger] r2[j], ch1.movie_slug@, ch1.seat_uuid@) by {
        if j < r2.len() - 1 {
            assert(r2[j] == res.drop_last()[j]);
        }
    }
    assert forall|j: int| 0 <= j < r2.len() && user_hold_for(#[trigger] r2[j], ch1.movie_slug@, ch1.user_uuid@) implies r2[j] == h2 by {
        let last = r2.len() - 1;
        if j != last {
            assert(r2[last] == h2);
            assert(r2[j] == r2[j] && r2[last] == r2[last]);
        }
    }
}

/// A seat that has some reservation has a first one.
proof fn lemma_first_reservation_exists(res: Seq<SeatReservationSession>, movie: Seq<char>, seat: Seq<char>, k: int)
    requires
        0 <= k < res.len(),
        reservation_for(res[k], movie, seat),
    ensures
        exists|i: int| is_first_reservation(res, movie, seat, i),
    decreases k,
{
    if exists|j: int| 0 <= j < k && reservation_for(#[trigger] res[j], movie, seat) {
        let j = choose|j: int| 0 <= j < k && reservation_for(#[trigger] res[j], movie, seat);
        lemma_first_reservation_exists(res, movie, seat, j);
    } else {
        assert(is_first_reservation(res, movie, seat, k));
    }
}

} // verus!
