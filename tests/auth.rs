use consum::auth::{Claims, TOKEN_LIFETIME_SECS};
use consum::errors::{DBRecordNotFound, DbError};

#[test]
fn claims_expire_three_weeks_after_issue() {
    let c = Claims::new("1", 1_000_000);
    assert_eq!(c.user_id(), "1");
    assert_eq!(c.expiration(), 1_000_000 + 1_814_400);
    assert_eq!(TOKEN_LIFETIME_SECS, 21 * 24 * 3600);
}

#[test]
fn with_expiration_keeps_subject() {
    let c = Claims::new("user", 0).with_expiration(1_893_459_661);
    assert_eq!(c.user_id(), "user");
    assert_eq!(c.expiration(), 1_893_459_661);
    let d = Claims::from_parts("x".to_string(), 5);
    assert_eq!(d.user_id(), "x");
    assert_eq!(d.expiration(), 5);
}

#[test]
fn only_missing_records_map_to_not_found() {
    assert_eq!(DbError::RecordNotFound.http_status(), 404);
    assert_eq!(DbError::PoolExhausted.http_status(), 500);
    assert_eq!(DbError::MissingRequiredField.http_status(), 500);
    assert_eq!(DbError::Statement("x".to_string()).http_status(), 500);
    assert_eq!(DbError::from(DBRecordNotFound), DbError::RecordNotFound);
    assert_eq!(DBRecordNotFound.message(), "Record not found in database");
}
