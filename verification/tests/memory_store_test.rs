use cinema_booking::db::entities::bookings::{BookingChangeset, BookingStatus};
use cinema_booking::store::BookingStoreError as StoreError;
use cinema_booking::store_adapter_memory::InMemoryBookingStore as HoldingStore;
use cinema_booking::store_memory::InMemoryBookingStore;
use cinema_booking::store_port::{BookingStoreError, SeatHoldChangeset, SeatReservationStatus};

fn sample_changeset(movie: &str, seat: &str, user: &str) -> BookingChangeset {
    BookingChangeset {
        movie_uuid: movie.into(),
        seat_uuid: seat.into(),
        user_uuid: user.into(),
        status: BookingStatus::Pending,
    }
}

#[test]
fn memory_book_list_and_conflict() {
    let mut store = InMemoryBookingStore::new();
    let cs = sample_changeset("m1", "s1", "u1");

    let created = store.book(cs.clone()).unwrap();
    assert_eq!(created.movie_uuid, "m1");

    let listed = store.list_bookings_by_movie("m1").unwrap();
    assert_eq!(listed.len(), 1);
    assert_eq!(listed[0].uuid, created.uuid);

    let err = store.book(cs).unwrap_err();
    assert!(matches!(err, StoreError::Conflict(_)));
}

#[test]
fn hold_confirm_and_conflict() {
    let mut store = HoldingStore::new();
    let hold = SeatHoldChangeset {
        movie_slug: "m1".into(),
        seat_uuid: "s1".into(),
        user_uuid: "u1".into(),
    };

    let created = store.hold(hold.clone()).unwrap();
    assert_eq!(created.status, SeatReservationStatus::Held);

    let err = store.hold(hold).unwrap_err();
    assert!(matches!(err, BookingStoreError::SeatUnavailable));

    let confirmed = store.confirm("m1", "s1", "u1").unwrap();
    assert_eq!(confirmed.status, SeatReservationStatus::Confirmed);
}

#[test]
fn booking_ids_increase_and_uuids_are_v4() {
    let mut store = InMemoryBookingStore::new();
    let a = store.book(sample_changeset("m", "s1", "u")).unwrap();
    let b = store.book(sample_changeset("m", "s2", "u")).unwrap();
    assert_eq!(a.id, 1);
    assert_eq!(b.id, 2);
    assert_eq!(a.uuid.len(), 36);
    assert_eq!(a.uuid.chars().nth(14), Some('4'));
    assert_ne!(a.uuid, b.uuid);
}

#[test]
fn cancelled_booking_frees_the_seat() {
    let mut store = InMemoryBookingStore::new();
    let mut cs = sample_changeset("m", "s1", "u");
    cs.status = BookingStatus::Cancelled;
    store.book(cs).unwrap();
    assert!(store.book(sample_changeset("m", "s1", "u2")).is_ok());
    assert!(matches!(store.book(sample_changeset("m", "s1", "u3")), Err(StoreError::Conflict(_))));
}

#[test]
fn invalid_changeset_is_refused() {
    let mut store = InMemoryBookingStore::new();
    let err = store.book(sample_changeset("", "s1", "")).unwrap_err();
    match err {
        StoreError::Validation(m) => assert_eq!(m, "invalid fields: movie_uuid, user_uuid"),
        other => panic!("unexpected {other:?}"),
    }
    assert!(store.list_bookings_by_movie("").unwrap().is_empty());
}

#[test]
fn list_filters_by_movie_in_order() {
    let mut store = InMemoryBookingStore::new();
    store.book(sample_changeset("a", "1", "u")).unwrap();
    store.book(sample_changeset("b", "9", "u")).unwrap();
    store.book(sample_changeset("a", "2", "u")).unwrap();
    let seats: Vec<String> = store
        .list_bookings_by_movie("a")
        .unwrap()
        .into_iter()
        .map(|b| b.seat_uuid)
        .collect();
    assert_eq!(seats, vec!["1", "2"]);
}

#[test]
fn confirm_checks_presence_and_ownership() {
    let mut store = HoldingStore::new();
    assert!(matches!(store.confirm("m", "s", "u"), Err(BookingStoreError::SessionNotFound)));
    store
        .hold(SeatHoldChangeset { movie_slug: "m".into(), seat_uuid: "s".into(), user_uuid: "owner".into() })
        .unwrap();
    assert!(matches!(
        store.confirm("m", "s", "intruder"),
        Err(BookingStoreError::SessionOwnershipMismatch)
    ));
    let c = store.confirm("m", "s", "owner").unwrap();
    assert_eq!(c.user_uuid, "owner");
    assert_eq!(c.expires_at, i64::MAX);
    // The confirm consumed the hold: confirming again finds no session, and the
    // seat can be held anew.
    assert!(matches!(store.confirm("m", "s", "owner"), Err(BookingStoreError::SessionNotFound)));
    let again = store.hold(SeatHoldChangeset { movie_slug: "m".into(), seat_uuid: "s".into(), user_uuid: "x".into() });
    assert_eq!(again.unwrap().user_uuid, "x");
}

#[test]
fn holding_another_seat_replaces_the_users_hold() {
    let mut store = HoldingStore::new();
    let first = SeatHoldChangeset { movie_slug: "m".into(), seat_uuid: "a".into(), user_uuid: "u".into() };
    let second = SeatHoldChangeset { movie_slug: "m".into(), seat_uuid: "b".into(), user_uuid: "u".into() };
    store.hold(first.clone()).unwrap();
    // Another movie's hold of the same user is kept.
    store.hold(SeatHoldChangeset { movie_slug: "n".into(), seat_uuid: "a".into(), user_uuid: "u".into() }).unwrap();
    let s = store.hold(second).unwrap();
    assert_eq!(s.seat_uuid, "b");
    assert!(matches!(store.confirm("m", "a", "u"), Err(BookingStoreError::SessionNotFound)));
    // Seat a is free again, for anyone.
    assert_eq!(store.hold(SeatHoldChangeset { user_uuid: "v".into(), ..first }).unwrap().user_uuid, "v");
    assert_eq!(store.confirm("n", "a", "u").unwrap().status, SeatReservationStatus::Confirmed);
    assert_eq!(store.confirm("m", "b", "u").unwrap().seat_uuid, "b");
}

#[test]
fn blank_hold_inputs_are_refused_in_order() {
    let mut store = HoldingStore::new();
    let err = store
        .hold(SeatHoldChangeset { movie_slug: " \t".into(), seat_uuid: "".into(), user_uuid: "u".into() })
        .unwrap_err();
    match err {
        BookingStoreError::Validation(m) => assert_eq!(m, "movie_slug must not be empty"),
        other => panic!("unexpected {other:?}"),
    }
    let err = store
        .hold(SeatHoldChangeset { movie_slug: "m".into(), seat_uuid: "s".into(), user_uuid: "\u{3000}".into() })
        .unwrap_err();
    match err {
        BookingStoreError::Validation(m) => assert_eq!(m, "user_uuid must not be empty"),
        other => panic!("unexpected {other:?}"),
    }
}
