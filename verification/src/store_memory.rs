//! In-memory durable booking storage for tests and local tooling.

use vstd::prelude::*;
use crate::db::entities::bookings::{Booking, BookingChangeset, BookingStatus};
use crate::db::join_names;
use crate::store::BookingStoreError;
use crate::text::{owned, str_eq};
use crate::uuids::{is_uuid_v4_text, new_uuid_v4};

verus! {

/// A booking that holds `seat` of `movie` and is not cancelled.
pub open spec fn is_active_booking_of(b: Booking, movie: Seq<char>, seat: Seq<char>) -> bool {
    b.movie_uuid@ == movie && b.seat_uuid@ == seat && b.status != BookingStatus::Cancelled
}

/// Some booking in `bookings` holds `seat` of `movie` and is not cancelled.
pub open spec fn active_seat_taken_spec(bookings: Seq<Booking>, movie: Seq<char>, seat: Seq<char>) -> bool {
    exists|i: int| 0 <= i < bookings.len() && is_active_booking_of(#[trigger] bookings[i], movie, seat)
}

/// The bookings of `movie`, in storage order.
pub open spec fn bookings_for_movie(bookings: Seq<Booking>, movie: Seq<char>) -> Seq<Booking>
    decreases bookings.len(),
{
    if bookings.len() == 0 {
        Seq::empty()
    } else {
        let rest = bookings_for_movie(bookings.drop_last(), movie);
        if bookings.last().movie_uuid@ == movie {
            rest.push(bookings.last())
        } else {
            rest
        }
    }
}

/// Whether an active booking already holds `seat_uuid` of `movie_uuid`.
pub(crate) fn active_seat_taken(bookings: &Vec<Booking>, movie_uuid: &str, seat_uuid: &str) -> (r: bool)
    ensures
        r == active_seat_taken_spec(bookings@, movie_uuid@, seat_uuid@),
{
    let mut i: usize = 0;
    while i < bookings.len()
        invariant
            i <= bookings@.len(),
            forall|k: int| 0 <= k < i ==> !is_active_booking_of(#[trigger] bookings@[k], movie_uuid@, seat_uuid@),
        decreases bookings@.len() - i,
    {
        let b = &bookings[i];
        if str_eq(b.movie_uuid.as_str(), movie_uuid) && str_eq(b.seat_uuid.as_str(), seat_uuid) && b.status != BookingStatus::Cancelled {
            assert(is_active_booking_of(bookings@[i as int], movie_uuid@, seat_uuid@));
            return true;
        }
        i = i + 1;
    }
    false
}

/// The bookings of `movie_uuid`, in storage order.
pub(crate) fn filter_bookings_by_movie(bookings: &Vec<Booking>, movie_uuid: &str) -> (r: Vec<Booking>)
    ensures
        r@ == bookings_for_movie(bookings@, movie_uuid@),
{
    let mut out: Vec<Booking> = Vec::new();
    let mut i: usize = 0;
    while i < bookings.len()
        invariant
            i <= bookings@.len(),
            out@ == bookings_for_movie(bookings@.take(i as int), movie_uuid@),
        decreases bookings@.len() - i,
    {
        proof {
            assert(bookings@.take(i + 1).drop_last() =~= bookings@.take(i as int));
        }
        if str_eq(bookings[i].movie_uuid.as_str(), movie_uuid) {
            out.push(bookings[i].clone());
        }
        i = i + 1;
    }
    assert(bookings@.take(i as int) =~= bookings@);
    out
}

/// Every booking in a movie's list belongs to that movie, and each booking of the movie
/// in storage appears in the list.
pub proof fn lemma_bookings_for_movie(bookings: Seq<Booking>, movie: Seq<char>)
    ensures
        forall|i: int| 0 <= i < bookings_for_movie(bookings, movie).len()
            ==> (#[trigger] bookings_for_movie(bookings, movie)[i]).movie_uuid@ == movie,
        forall|i: int| 0 <= i < bookings.len() && (#[trigger] bookings[i]).movie_uuid@ == movie
            ==> bookings_for_movie(bookings, movie).contains(bookings[i]),
        bookings_for_movie(bookings, movie).len() <= bookings.len(),
    decreases bookings.len(),
{
    if bookings.len() > 0 {
        let init = bookings.drop_last();
        lemma_bookings_for_movie(init, movie);
        let rest = bookings_for_movie(init, movie);
        assert forall|i: int| 0 <= i < bookings.len() && (#[trigger] bookings[i]).movie_uuid@ == movie
            implies bookings_for_movie(bookings, movie).contains(bookings[i]) by {
            if i < bookings.len() - 1 {
                assert(init[i] == bookings[i]);
                assert(rest.contains(bookings[i]));
                if bookings.last().movie_uuid@ == movie {
                    let k = choose|k: int| 0 <= k < rest.len() && rest[k] == bookings[i];
                    assert(rest.push(bookings.last())[k] == bookings[i]);
                }
            } else {
                assert(rest.push(bookings.last())[rest.len() as int] == bookings[i]);
            }
        }
        assert forall|i: int| 0 <= i < bookings_for_movie(bookings, movie).len()
            implies (#[trigger] bookings_for_movie(bookings, movie)[i]).movie_uuid@ == movie by {
            if i < rest.len() {
                if bookings.last().movie_uuid@ == movie {
                    assert(rest.push(bookings.last())[i] == rest[i]);
                }
            }
        }
    }
}

/// Abstract state of the store.
pub struct BookingsState {
    pub next_id: int,
    pub bookings: Seq<Booking>,
}

/// Thread-agnostic in-memory booking storage.
pub struct InMemoryBookingStore {
    next_id: i64,
    bookings: Vec<Booking>,
}

impl View for InMemoryBookingStore {
    type V = BookingsState;

    closed spec fn view(&self) -> BookingsState {
        BookingsState { next_id: self.next_id as int, bookings: self.bookings@ }
    }
}

/// Store invariant: ids are positive, strictly increasing in storage order and below
/// the next id to hand out.
pub open spec fn bookings_wf(next_id: int, bookings: Seq<Booking>) -> bool {
    &&& 1 <= next_id
    &&& forall|i: int| 0 <= i < bookings.len() ==> 1 <= #[trigger] bookings[i].id < next_id
    &&& forall|i: int, j: int| 0 <= i < j < bookings.len() ==> #[trigger] bookings[i].id < #[trigger] bookings[j].id
}

/// The booking built from a changeset with the given id and UUID.
pub open spec fn booking_from(cs: BookingChangeset, id: int, uuid: Seq<char>, b: Booking) -> bool {
    &&& b.id == id
    &&& b.uuid@ == uuid
    &&& b.movie_uuid == cs.movie_uuid
    &&& b.seat_uuid == cs.seat_uuid
    &&& b.user_uuid == cs.user_uuid
    &&& b.status == cs.status
}

/// One `book` step: the changeset's rules are checked, then a conflicting active
/// booking of the same seat is refused, else the booking is stored with the next id.
pub open spec fn book_step(pre: BookingsState, cs: BookingChangeset, uuid: Seq<char>, post: BookingsState, r: Result<Booking, BookingStoreError>) -> bool {
    if cs.invalid_fields().len() > 0 {
        &&& r matches Err(BookingStoreError::Validation(m)) && m@ == "invalid fields: "@ + join_names(cs.invalid_fields())
        &&& post == pre
    } else if active_seat_taken_spec(pre.bookings, cs.movie_uuid@, cs.seat_uuid@) {
        &&& r matches Err(BookingStoreError::Conflict(m)) && m@ == "seat already booked for this movie"@
        &&& post == pre
    } else {
        &&& r matches Ok(b) && booking_from(cs, pre.next_id, uuid, b)
            && post == (BookingsState { next_id: pre.next_id + 1, bookings: pre.bookings.push(b) })
    }
}

impl InMemoryBookingStore {
    /// Store invariant.
    pub open spec fn wf(&self) -> bool {
        bookings_wf(self@.next_id, self@.bookings)
    }

    /// An empty store whose first id is 1.
    pub fn new() -> (s: Self)
        ensures
            s.wf(),
            s@.next_id == 1,
            s@.bookings.len() == 0,
    {
        InMemoryBookingStore { next_id: 1, bookings: Vec::new() }
    }

    /// Creates a booking with the given UUID (see [`Self::book`]).
    pub fn book_with_uuid(&mut self, changeset: BookingChangeset, uuid: String) -> (r: Result<Booking, BookingStoreError>)
        requires
            old(self).wf(),
            old(self)@.next_id < i64::MAX,
        ensures
            final(self).wf(),
            book_step(old(self)@, changeset, uuid@, final(self)@, r),
    {
        match changeset.validate() {
            Err(e) => {
                return Err(BookingStoreError::Validation(e.message()));
            },
            Ok(()) => {},
        }
        if active_seat_taken(&self.bookings, changeset.movie_uuid.as_str(), changeset.seat_uuid.as_str()) {
            return Err(BookingStoreError::Conflict(owned("seat already booked for this movie")));
        }
        let id = self.next_id;
        self.next_id = self.next_id + 1;
        let booking = Booking {
            id,
            uuid,
            movie_uuid: changeset.movie_uuid,
            seat_uuid: changeset.seat_uuid,
            user_uuid: changeset.user_uuid,
            status: changeset.status,
        };
        self.bookings.push(booking.clone());
        Ok(booking)
    }

    /// Creates a booking from a valid changeset with a fresh random UUID; refuses a seat
    /// that an active booking of the same movie already holds.
    pub fn book(&mut self, changeset: BookingChangeset) -> (r: Result<Booking, BookingStoreError>)
        requires
            old(self).wf(),
            old(self)@.next_id < i64::MAX,
        ensures
            final(self).wf(),
            exists|uuid: Seq<char>| is_uuid_v4_text(uuid) && book_step(old(self)@, changeset, uuid, final(self)@, r),
    {
        let uuid = new_uuid_v4();
        let ghost u = uuid@;
        let r = self.book_with_uuid(changeset, uuid);
        assert(is_uuid_v4_text(u) && book_step(old(self)@, changeset, u, self@, r));
        r
    }

    /// All bookings for the given movie, in storage order.
    pub fn list_bookings_by_movie(&self, movie_uuid: &str) -> (r: Result<Vec<Booking>, BookingStoreError>)
        ensures
            r matches Ok(v) && v@ == bookings_for_movie(self@.bookings, movie_uuid@),
    {
        Ok(filter_bookings_by_movie(&self.bookings, movie_uuid))
    }
}

impl Default for InMemoryBookingStore {
    fn default() -> (s: Self)
        ensures
            s.wf(),
            s@.next_id == 1,
            s@.bookings.len() == 0,
    {
        Self::new()
    }
}

/// Only an active booking of the same seat of the same movie blocks a booking: a valid
/// changeset is refused exactly when some stored booking has its movie, its seat and a
/// status other than cancelled, and then with a conflict. Bookings of other movies,
/// of other seats, or cancelled ones never block it, and an unblocked booking is
/// stored with the changeset's movie and seat.
pub proof fn lemma_only_same_movie_and_seat_conflict(pre: BookingsState, cs: BookingChangeset, u: Seq<char>, post: BookingsState, r: Result<Booking, BookingStoreError>)
    requires
        cs.invalid_fields().len() == 0,
        book_step(pre, cs, u, post, r),
    ensures
        r is Err <==> exists|i: int| 0 <= i < pre.bookings.len() && {
            let b = #[trigger] pre.bookings[i];
            &&& b.movie_uuid@ == cs.movie_uuid@
            &&& b.seat_uuid@ == cs.seat_uuid@
            &&& b.status != BookingStatus::Cancelled
        },
        r is Err ==> r matches Err(BookingStoreError::Conflict(_)),
        r matches Ok(b) ==> b.movie_uuid == cs.movie_uuid && b.seat_uuid == cs.seat_uuid,
{
}

/// Once a booking that is not cancelled holds a seat, booking the same seat of the
/// same movie again is refused with a conflict.
pub proof fn lemma_book_single_winner(s0: BookingsState, cs: BookingChangeset, u: Seq<char>, s1: BookingsState, b: Booking, cs2: BookingChangeset, u2: Seq<char>, s2: BookingsState, r2: Result<Booking, BookingStoreError>)
    requires
        book_step(s0, cs, u, s1, Ok(b)),
        cs.status != BookingStatus::Cancelled,
        cs2.invalid_fields().len() == 0,
        cs2.movie_uuid@ == cs.movie_uuid@,
        cs2.seat_uuid@ == cs.seat_uuid@,
        book_step(s1, cs2, u2, s2, r2),
    ensures
        r2 matches Err(BookingStoreError::Conflict(_)),
        s2 == s1,
{
    let k = s1.bookings.len() - 1;
    assert(s1.bookings[k] == b);
    assert(is_active_booking_of(s1.bookings[k], cs2.movie_uuid@, cs2.seat_uuid@));
}

/// A stored booking is listed for its movie.
pub proof fn lemma_booked_is_listed(s0: BookingsState, cs: BookingChangeset, u: Seq<char>, s1: BookingsState, b: Booking)
    requires
        book_step(s0, cs, u, s1, Ok(b)),
    ensures
        bookings_for_movie(s1.bookings, cs.movie_uuid@).contains(b),
        bookings_for_movie(s1.bookings, cs.movie_uuid@).last() == b,
{
    assert(s1.bookings.drop_last() =~= s0.bookings);
    let rest = bookings_for_movie(s0.bookings, cs.movie_uuid@);
    assert(bookings_for_movie(s1.bookings, cs.movie_uuid@) == rest.push(b));
    assert(rest.push(b)[rest.len() as int] == b);
}

} // verus!
