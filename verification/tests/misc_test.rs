use cinema_booking::auth::{AuthError, Principal};
use cinema_booking::controllers::{action_user, checkout_changeset, hold_changeset, SeatActionPayload, SeatsQuery};
use cinema_booking::db::entities::bookings::{BookingChangeset, BookingStatus};
use cinema_booking::db::entities::tasks::TaskChangeset;
use cinema_booking::store_port::{SeatHoldChangeset, SeatReservationSession, SeatReservationStatus};
use cinema_booking::trailbase::{principal_from_claims, principal_from_decoded, AuthTokenJwtClaims};

fn claims(token_type: u8) -> AuthTokenJwtClaims {
    AuthTokenJwtClaims {
        sub: "sub".into(),
        iat: 1,
        exp: 2,
        token_type,
        admin: true,
        mfa: false,
        email: "e@x".into(),
        csrf_token: "c".into(),
    }
}

#[test]
fn claims_to_principal() {
    let p = principal_from_claims(claims(1)).unwrap();
    assert_eq!(p, Principal { sub: "sub".into(), email: "e@x".into(), is_admin: true, mfa: false, csrf_token: "c".into() });
    assert_eq!(principal_from_claims(claims(2)).unwrap_err(), AuthError::WrongTokenType);
    assert_eq!(principal_from_decoded(None).unwrap_err(), AuthError::InvalidToken);
    assert!(principal_from_decoded(Some(claims(1))).is_ok());
}

#[test]
fn controller_changesets() {
    let principal = Principal { sub: "me".into(), email: "m@x".into(), is_admin: false, mfa: false, csrf_token: String::new() };
    let own = SeatActionPayload { movie_slug: "f-1".into(), seat_uuid: "s3".into(), user_uuid: None };
    assert_eq!(action_user(&own, &principal), "me");
    let ch = hold_changeset(own, principal.clone());
    assert_eq!((ch.movie_slug.as_str(), ch.seat_uuid.as_str(), ch.user_uuid.as_str()), ("f-1", "s3", "me"));
    let for_u = SeatActionPayload { movie_slug: "f-1".into(), seat_uuid: "s1".into(), user_uuid: Some("u-9".into()) };
    assert_eq!(action_user(&for_u, &principal), "u-9");
    let ch = hold_changeset(for_u, principal);
    assert_eq!((ch.movie_slug.as_str(), ch.seat_uuid.as_str(), ch.user_uuid.as_str()), ("f-1", "s1", "u-9"));
    let b = checkout_changeset(SeatReservationSession {
        session_uuid: "x".into(),
        movie_slug: "f-1".into(),
        seat_uuid: "s3".into(),
        user_uuid: "me".into(),
        status: SeatReservationStatus::Confirmed,
        expires_at: 5,
    });
    assert_eq!(b.status, BookingStatus::Confirmed);
    assert_eq!(b.movie_uuid, "f-1");
    assert_eq!(SeatsQuery { viewer: None }.viewer_or_empty(), "");
    assert_eq!(SeatsQuery { viewer: Some("v".into()) }.viewer_or_empty(), "v");
}

#[test]
fn changeset_rules() {
    assert!(TaskChangeset { description: "x".into() }.validate().is_ok());
    assert_eq!(TaskChangeset { description: String::new() }.validate().unwrap_err().fields, vec!["description"]);
    let b = BookingChangeset { movie_uuid: "m".into(), seat_uuid: String::new(), user_uuid: "u".into(), status: BookingStatus::Pending };
    assert_eq!(b.validate().unwrap_err().fields, vec!["seat_uuid"]);
    let ok = SeatHoldChangeset { movie_slug: "m".into(), seat_uuid: "s".into(), user_uuid: "u".into() };
    assert!(ok.validate().is_ok());
}
