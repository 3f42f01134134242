use cinema_booking::db::{self, ValidationErrors};
use cinema_booking::error::Error;
use cinema_booking::store::BookingStoreError as StoreError;
use cinema_booking::store_port::BookingStoreError;

fn status(e: Error) -> (u16, Option<String>) {
    let r = e.into_response();
    (r.status, r.body)
}

#[test]
fn error_responses() {
    assert_eq!(status(Error::Forbidden), (403, None));
    assert_eq!(status(Error::Database(db::Error::NoRecordFound)), (404, None));
    assert_eq!(status(Error::Database(db::Error::DbError("boom".into()))), (500, None));
    assert_eq!(
        status(Error::Database(db::Error::ValidationError(ValidationErrors { fields: vec!["title".into()] }))),
        (422, Some("invalid fields: title".to_string()))
    );
    assert_eq!(status(Error::BookingStore(BookingStoreError::Validation("bad".into()))), (422, Some("bad".to_string())));
    assert_eq!(status(Error::BookingStore(BookingStoreError::NotFound)), (404, None));
    assert_eq!(status(Error::BookingStore(BookingStoreError::SessionNotFound)), (404, None));
    assert_eq!(status(Error::BookingStore(BookingStoreError::SessionOwnershipMismatch)), (403, None));
    assert_eq!(status(Error::BookingStore(BookingStoreError::Conflict("c".into()))), (409, None));
    assert_eq!(status(Error::BookingStore(BookingStoreError::SeatUnavailable)), (409, None));
    assert_eq!(status(Error::BookingStore(BookingStoreError::Serialization("s".into()))), (500, None));
    assert_eq!(status(Error::BookingStore(BookingStoreError::Internal("i".into()))), (500, None));
    assert_eq!(status(Error::Template("t".into())), (500, None));
    assert_eq!(status(Error::Other("o".into())), (500, None));
}

#[test]
fn data_layer_errors_convert() {
    assert!(matches!(BookingStoreError::from(db::Error::NoRecordFound), BookingStoreError::NotFound));
    assert!(matches!(BookingStoreError::from(db::Error::DbError("x".into())), BookingStoreError::Internal(m) if m == "x"));
    assert!(matches!(
        BookingStoreError::from(db::Error::ValidationError(ValidationErrors { fields: vec!["a".into(), "b".into()] })),
        BookingStoreError::Validation(m) if m == "invalid fields: a, b"
    ));
    assert!(matches!(StoreError::from(db::Error::NoRecordFound), StoreError::NotFound));
    assert!(matches!(StoreError::from(db::Error::DbError("y".into())), StoreError::Internal(m) if m == "y"));
}
