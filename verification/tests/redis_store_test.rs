//! The Redis adapter's decisions, driven with the replies a Redis server gives.

use cinema_booking::store_adapter_redis::{
    confirm_script_outcome, held_sessions_for_movie, hold_outcome, validate_confirm_inputs,
    validate_list_input, RedisSeatHoldStore, RedisSeatHoldStoreConfig, MAX_EXPIRY_UNIX_MS,
};
use cinema_booking::store_port::{BookingStoreError, SeatHoldChangeset, SeatReservationSession, SeatReservationStatus};

fn store(prefix: &str, ttl: u64) -> RedisSeatHoldStore {
    RedisSeatHoldStore::new(RedisSeatHoldStoreConfig {
        key_prefix: prefix.to_string(),
        hold_ttl_seconds: ttl,
        ..RedisSeatHoldStoreConfig::default()
    })
    .unwrap()
}

fn now_ms() -> i64 {
    std::time::SystemTime::now()
        .duration_since(std::time::UNIX_EPOCH)
        .unwrap()
        .as_millis() as i64
}

#[test]
fn config_defaults() {
    let c = RedisSeatHoldStoreConfig::default();
    assert_eq!(c.url, "redis://127.0.0.1:6379/");
    assert_eq!(c.key_prefix, "");
    assert_eq!(c.hold_ttl_seconds, 120);
}

#[test]
fn new_refuses_zero_ttl_and_bad_url() {
    let r = RedisSeatHoldStore::new(RedisSeatHoldStoreConfig { hold_ttl_seconds: 0, ..RedisSeatHoldStoreConfig::default() });
    assert!(matches!(r, Err(BookingStoreError::Validation(m)) if m == "hold_ttl_seconds must be greater than 0"));
    let r = RedisSeatHoldStore::new(RedisSeatHoldStoreConfig { url: "not a url".into(), ..RedisSeatHoldStoreConfig::default() });
    assert!(matches!(r, Err(BookingStoreError::Internal(m)) if m.starts_with("redis client init failed: ")));
}

#[test]
fn keys_and_patterns() {
    let s = store("", 120);
    assert_eq!(s.seat_key("m1", "s1"), "seat:m1:s1");
    assert_eq!(s.seat_keys_pattern("m1"), "seat:m1:*");
    let s = store("  ::app:: ", 120);
    assert_eq!(s.seat_key("m1", "s1"), "app:seat:m1:s1");
    assert_eq!(s.seat_keys_pattern("m1"), "app:seat:m1:*");
    let s = store(":::", 120);
    assert_eq!(s.seat_key("m", "s"), "seat:m:s");
}

#[test]
fn hold_conflict_confirm_and_consume() {
    let store = store("redis-adapter-test", 120);
    let hold = SeatHoldChangeset { movie_slug: "m1".to_string(), seat_uuid: "s1".to_string(), user_uuid: "u1".to_string() };
    let before = now_ms();
    let prepared = store.prepare_hold(hold.clone(), before).unwrap();
    assert_eq!(prepared.key, "redis-adapter-test:seat:m1:s1");
    assert_eq!(prepared.ttl_seconds, 120);
    // SET NX answers OK for a free key.
    let first = hold_outcome(Some("OK".to_string()), prepared.session).unwrap();
    assert_eq!(first.status, SeatReservationStatus::Held);
    let now = now_ms();
    assert!(first.expires_at > now);
    assert!(first.expires_at < now + 125_000);

    // SET NX answers nil when the key is taken.
    let again = store.prepare_hold(hold.clone(), now_ms()).unwrap();
    let second = hold_outcome(None, again.session).unwrap_err();
    assert!(matches!(second, BookingStoreError::SeatUnavailable));

    // The confirm script answers 2 with the stored session, now confirmed.
    validate_confirm_inputs(&hold.movie_slug, &hold.seat_uuid, &hold.user_uuid).unwrap();
    assert!(confirm_script_outcome(2).is_ok());
}

#[test]
fn confirm_requires_ownership() {
    validate_confirm_inputs("m2", "s2", "intruder").unwrap();
    let err = confirm_script_outcome(1).unwrap_err();
    assert!(matches!(err, BookingStoreError::SessionOwnershipMismatch));
}

#[test]
fn confirm_after_expiry_not_found() {
    let err = confirm_script_outcome(0).unwrap_err();
    assert!(matches!(err, BookingStoreError::SessionNotFound));
    assert!(matches!(confirm_script_outcome(7), Err(BookingStoreError::Internal(m)) if m == "redis confirm returned unknown status"));
}

fn session(movie: &str, seat: &str, status: SeatReservationStatus) -> SeatReservationSession {
    SeatReservationSession {
        session_uuid: "x".into(),
        movie_slug: movie.into(),
        seat_uuid: seat.into(),
        user_uuid: "u".into(),
        status,
        expires_at: 0,
    }
}

#[test]
fn list_held_sessions_for_movie_lists_held_and_drops_after_confirm() {
    let movie = "list-held-movie";
    validate_list_input(movie).unwrap();
    let list = held_sessions_for_movie(
        movie,
        vec![Some(session(movie, "s1", SeatReservationStatus::Held)), Some(session(movie, "s2", SeatReservationStatus::Held))],
    );
    assert_eq!(list.len(), 2);
    assert_eq!(list[0].seat_uuid, "s1");
    assert_eq!(list[1].seat_uuid, "s2");
    // After confirming s1 its key is gone.
    let after = held_sessions_for_movie(movie, vec![None, Some(session(movie, "s2", SeatReservationStatus::Held))]);
    assert_eq!(after.len(), 1);
    assert_eq!(after[0].seat_uuid, "s2");
}

#[test]
fn listing_skips_confirmed_and_foreign_sessions() {
    let list = held_sessions_for_movie(
        "m",
        vec![
            Some(session("m", "a", SeatReservationStatus::Confirmed)),
            Some(session("other", "b", SeatReservationStatus::Held)),
            Some(session("m", "c", SeatReservationStatus::Held)),
        ],
    );
    assert_eq!(list.len(), 1);
    assert_eq!(list[0].seat_uuid, "c");
    assert!(matches!(validate_list_input(" "), Err(BookingStoreError::Validation(m)) if m == "movie_slug must not be empty"));
}

#[test]
fn hold_input_and_ttl_rules() {
    let s = store("", 120);
    let blank = SeatHoldChangeset { movie_slug: "m".into(), seat_uuid: " ".into(), user_uuid: "u".into() };
    assert!(matches!(s.prepare_hold(blank, 0), Err(BookingStoreError::Validation(m)) if m == "seat_uuid must not be empty"));
    let ok = SeatHoldChangeset { movie_slug: "m".into(), seat_uuid: "s".into(), user_uuid: "u".into() };
    let big = store("", u64::MAX);
    assert!(matches!(big.prepare_hold(ok.clone(), 0), Err(BookingStoreError::Validation(m)) if m == "hold_ttl_seconds is too large"));
    let range = store("", (i64::MAX / 1000 + 1) as u64);
    assert!(matches!(range.prepare_hold(ok.clone(), 0), Err(BookingStoreError::Validation(m)) if m == "hold_ttl_seconds is out of range"));
    let p = s.prepare_hold(ok, 1_000).unwrap();
    assert_eq!(p.session.expires_at, 121_000);
    assert_eq!(p.session.session_uuid.len(), 36);
}

#[test]
fn latest_expiry_is_the_last_utc_instant() {
    assert_eq!(chrono::DateTime::<chrono::Utc>::MAX_UTC.timestamp_millis(), MAX_EXPIRY_UNIX_MS);
    let s = store("", 1);
    let ok = SeatHoldChangeset { movie_slug: "m".into(), seat_uuid: "s".into(), user_uuid: "u".into() };
    let p = s.prepare_hold(ok, MAX_EXPIRY_UNIX_MS - 1000).unwrap();
    assert_eq!(p.session.expires_at, MAX_EXPIRY_UNIX_MS);
}

#[test]
fn a_new_hold_releases_the_users_other_seats_of_the_movie() {
    let s = store("cine", 120);
    let kept = session("m", "b", SeatReservationStatus::Held);
    let mut other_user = session("m", "c", SeatReservationStatus::Held);
    other_user.user_uuid = "v".into();
    let held = vec![
        session("m", "a", SeatReservationStatus::Held),
        kept.clone(),
        other_user,
        session("m", "d", SeatReservationStatus::Confirmed),
        session("n", "a", SeatReservationStatus::Held),
        session("m", "e", SeatReservationStatus::Held),
    ];
    assert_eq!(s.superseded_hold_keys(&kept, &held), vec!["cine:seat:m:a".to_string(), "cine:seat:m:e".to_string()]);
    assert!(s.superseded_hold_keys(&kept, &vec![kept.clone()]).is_empty());
}
