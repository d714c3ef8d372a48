use diem_backend::error::AppError;
use diem_backend::health::health;
use diem_backend::time::{Timestamp, MAX_SECS, MIN_SECS};
use diem_backend::users::{me, UserProfile};

#[test]
fn timestamp_range_is_one_day_inside_chrono() {
    assert!(Timestamp::new(MIN_SECS, 0).is_some());
    assert!(Timestamp::new(MAX_SECS, 999_999_999).is_some());
    assert!(Timestamp::new(MIN_SECS - 1, 0).is_none());
    assert!(Timestamp::new(MAX_SECS + 1, 0).is_none());
    assert_eq!(chrono::DateTime::<chrono::Utc>::MIN_UTC.timestamp() + 86_400, MIN_SECS);
    assert_eq!(chrono::DateTime::<chrono::Utc>::MAX_UTC.timestamp() - 86_400, MAX_SECS);
}

#[test]
fn timestamp_leap_seconds_only_at_the_end_of_a_minute() {
    assert!(Timestamp::new(59, 1_000_000_000).is_some());
    assert!(Timestamp::new(59, 1_999_999_999).is_some());
    assert!(Timestamp::new(59, 2_000_000_000).is_none());
    assert!(Timestamp::new(58, 1_000_000_000).is_none());
    assert!(Timestamp::new(-1, 1_500_000_000).is_some());
    assert!(Timestamp::new(-2, 1_500_000_000).is_none());
    assert!(Timestamp::new(MAX_SECS, 1_000_000_000).is_none());
    assert!(chrono::DateTime::from_timestamp(59, 1_500_000_000).is_some());
    assert!(chrono::DateTime::from_timestamp(58, 1_500_000_000).is_none());
    assert!(chrono::DateTime::from_timestamp(-1, 1_500_000_000).is_some());
}

#[test]
fn timestamp_rejects_leap_nanos() {
    assert!(Timestamp::new(0, 1_000_000_000).is_none());
    let t = Timestamp::new(-5, 7).unwrap();
    assert_eq!(t.secs(), -5);
    assert_eq!(t.nanos(), 7);
}

#[test]
fn timestamp_order_and_earliest() {
    let a = Timestamp::new(10, 5).unwrap();
    let b = Timestamp::new(10, 6).unwrap();
    let c = Timestamp::new(9, 999_999_999).unwrap();
    assert!(a.is_before(&b));
    assert!(!b.is_before(&a));
    assert!(c.is_before(&a));
    assert!(!a.is_before(&a));
    assert_eq!(Timestamp::earliest(a, b), a);
    assert_eq!(Timestamp::earliest(b, c), c);
}

#[test]
fn error_statuses_and_client_messages() {
    let cases = vec![
        (AppError::Validation("bad".to_string()), 400, "bad"),
        (AppError::EmailTaken, 409, "Email already taken"),
        (AppError::InvalidCredentials, 401, "Invalid credentials"),
        (AppError::NotFound, 404, "Not found"),
        (AppError::Internal("db down".to_string()), 500, "Internal server error"),
    ];
    for (e, status, msg) in cases {
        assert_eq!(e.http_status(), status);
        assert_eq!(e.client_message(), msg);
    }
}

#[test]
fn health_reports_success_and_time() {
    let now = Timestamp::new(1_700_000_000, 12).unwrap();
    let (status, body) = health(now);
    assert_eq!(status, 200);
    assert!(body.success());
    assert_eq!(body.timestamp(), now);
}

#[test]
fn me_returns_profile_or_not_found() {
    let created = Timestamp::new(1_600_000_000, 0).unwrap();
    let p = UserProfile {
        id: 42,
        email: "me@test.com".to_string(),
        display_name: "Me".to_string(),
        timezone: "UTC".to_string(),
        created_at: created,
    };
    match me(Some(p)) {
        Ok(q) => {
            assert_eq!(q.id, 42);
            assert_eq!(q.email, "me@test.com");
            assert_eq!(q.created_at, created);
        },
        Err(_) => panic!("expected the profile"),
    }
    match me(None) {
        Err(e) => {
            assert!(matches!(e, AppError::NotFound));
            assert_eq!(e.http_status(), 404);
        },
        Ok(_) => panic!("expected not found"),
    }
}

/// The instant the database would keep, computed the way sqlx encodes it:
/// whole microseconds since 2000-01-01 UTC.
fn stored_by_encoding(secs: i64, nanos: u32) -> (i64, u32) {
    let epoch = chrono::NaiveDate::from_ymd_opt(2000, 1, 1).unwrap().and_hms_opt(0, 0, 0).unwrap();
    let dt = chrono::DateTime::from_timestamp(secs, nanos).unwrap().naive_utc();
    let micros = (dt - epoch).num_microseconds().unwrap();
    let back = (epoch + chrono::Duration::microseconds(micros)).and_utc();
    (back.timestamp(), back.timestamp_subsec_nanos())
}

#[test]
fn stored_precision_matches_the_database_encoding() {
    let cases: Vec<(i64, u32)> = vec![
        (1_700_000_000, 123_456_789),
        (946_684_799, 999_999_999),
        (900_000_000, 500),
        (946_684_800, 999),
        (-1_000_000, 1_999),
        (59, 1_500_000_789),
        (MIN_SECS, 1),
        (MAX_SECS, 999_999_999),
    ];
    for (secs, nanos) in cases {
        let stored = Timestamp::new(secs, nanos).unwrap().at_stored_precision();
        assert_eq!((stored.secs(), stored.nanos()), stored_by_encoding(secs, nanos), "{} {}", secs, nanos);
    }
    let t = Timestamp::new(900_000_000, 500).unwrap().at_stored_precision();
    assert_eq!((t.secs(), t.nanos()), (900_000_000, 1_000));
}
