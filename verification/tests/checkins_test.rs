use chrono::{Datelike, Duration, Utc};
use diem_backend::checkins::{
    check_in, status, CheckInAction, CheckInEvent, CheckInRequest, CheckInState, StatusAction, StatusEvent,
    StatusState,
};
use diem_backend::error::AppError;
use diem_backend::time::{Timestamp, MAX_SECS, MIN_SECS};

fn stamp(dt: chrono::DateTime<Utc>) -> Timestamp {
    Timestamp::new(dt.timestamp(), dt.timestamp_subsec_nanos()).unwrap()
}

/// Runs a whole check-in: the zone name, then the stored instant for the day.
/// Returns the day asked for, the save action's fields, and the final answer.
fn run_check_in(
    now: Timestamp,
    at: Option<Timestamp>,
    zone: &str,
    existing: Option<Timestamp>,
) -> (i32, (i32, Timestamp, bool), (u16, i32, Timestamp, bool)) {
    let (s, a) = check_in(
        CheckInState::Start,
        CheckInEvent::Submitted { now, request: CheckInRequest { checked_in_at: at } },
    );
    assert!(matches!(a, CheckInAction::LoadZone));
    let (s, a) = check_in(s, CheckInEvent::ZoneLoaded { zone: zone.to_string() });
    let day = match a {
        CheckInAction::LoadRecord { day } => day,
        _ => panic!("expected LoadRecord"),
    };
    let (s, a) = check_in(s, CheckInEvent::RecordLoaded { existing });
    let save = match a {
        CheckInAction::Save { day, checked_in_at, new_row } => {
            if let Some(id) = new_row {
                assert_eq!((id >> 76) & 0xf, 4);
                assert_eq!((id >> 62) & 0x3, 2);
            }
            (day, checked_in_at, new_row.is_some())
        },
        _ => panic!("expected Save"),
    };
    let (s, a) = check_in(s, CheckInEvent::Saved);
    assert!(matches!(s, CheckInState::Done));
    let reply = match a {
        CheckInAction::Respond { status, body } => {
            (status, body.check_in_date, body.checked_in_at, body.already_checked_in)
        },
        _ => panic!("expected Respond"),
    };
    (day, save, reply)
}

/// Runs a whole status request for a user in `zone` with the given days.
fn run_status(now: Timestamp, zone: &str, checked_today: bool, days: Option<Vec<i32>>) -> (i32, bool, i64) {
    let (s, a) = status(StatusState::Start, StatusEvent::Requested { now });
    assert!(matches!(a, StatusAction::LoadZone));
    let (s, a) = status(s, StatusEvent::ZoneLoaded { zone: zone.to_string() });
    assert!(matches!(a, StatusAction::CheckDay { .. }));
    let (s, a) = status(s, StatusEvent::TodayChecked { checked_in: checked_today });
    assert!(matches!(a, StatusAction::LoadDays));
    let (_, a) = status(s, StatusEvent::DaysLoaded { days });
    match a {
        StatusAction::Respond { body } => (body.today, body.checked_in_today, body.current_streak),
        _ => panic!("expected Respond"),
    }
}

fn today_utc() -> i32 {
    Utc::now().date_naive().num_days_from_ce()
}

/// calendar date derivation from tz
#[test]
fn checkin_date_respects_user_timezone() {
    let now = Utc::now();
    let ts = now - Duration::minutes(30);
    let tz: chrono_tz::Tz = "Africa/Lagos".parse().unwrap();
    let expected_date = ts.with_timezone(&tz).date_naive().num_days_from_ce();

    let (day, _, (status, date, _, _)) = run_check_in(stamp(now), Some(stamp(ts)), "Africa/Lagos", None);

    assert_eq!(status, 201);
    assert_eq!(day, expected_date);
    assert_eq!(
        date, expected_date,
        "Check-in date should be derived from client timestamp in user's timezone, not UTC"
    );
}

/// ensures that earliest checkin date is selected in case of duplicate
#[test]
fn duplicate_checkin_keeps_earliest_timestamp() {
    let now = Utc::now();
    let early = stamp(now - Duration::hours(2));
    let late = stamp(now - Duration::hours(1));

    let (_, (_, saved1, insert1), (status1, _, _, already1)) = run_check_in(stamp(now), Some(early), "UTC", None);
    assert_eq!(status1, 201);
    assert!(insert1);
    assert_eq!(already1, false);

    let (_, (_, saved2, insert2), (status2, _, kept, already2)) =
        run_check_in(stamp(now), Some(late), "UTC", Some(saved1));
    assert_eq!(status2, 200);
    assert!(!insert2);
    assert_eq!(already2, true);

    assert_eq!(saved2.secs(), early.secs(), "LEAST() should preserve the earlier timestamp");
    assert_eq!(kept, early.at_stored_precision());
    assert_eq!(saved1, early.at_stored_precision());
}

/// Consecutive days produce correct streak count
#[test]
fn streak_counts_consecutive_days() {
    let today = today_utc();
    let days: Vec<i32> = (0..3).map(|ago| today - ago).collect();
    let (_, _, streak) = run_status(stamp(Utc::now()), "UTC", true, Some(days));
    assert_eq!(streak, 3, "3 consecutive days should produce a streak of 3");
}

/// Gap in dates resets streak to count only after the gap
#[test]
fn streak_resets_on_gap() {
    let today = today_utc();
    let days = vec![today, today - 1, today - 3, today - 4];
    let (_, _, streak) = run_status(stamp(Utc::now()), "UTC", true, Some(days));
    assert_eq!(streak, 2, "Streak should be 2 (today + yesterday), not 4 the gap breaks the chain");
}

/// No check-in today means streak is 0, even if there is yesterday
#[test]
fn no_checkin_today_means_zero_streak() {
    let today = today_utc();
    let days: Vec<i32> = (1..3).map(|ago| today - ago).collect();
    let (_, checked, streak) = run_status(stamp(Utc::now()), "UTC", false, Some(days));
    assert!(!checked);
    assert_eq!(streak, 0, "No check-in today should mean streak is 0, regardless of past check-ins");
}

/// User A's check-ins do not affect User B's streak.
#[test]
fn streak_is_isolated_per_user() {
    let today = today_utc();
    let days_a: Vec<i32> = (0..5).map(|ago| today - ago).collect();
    let days_b: Vec<i32> = (0..2).map(|ago| today - ago).collect();
    let now = stamp(Utc::now());
    let (_, _, streak_a) = run_status(now, "UTC", true, Some(days_a));
    let (_, _, streak_b) = run_status(now, "UTC", true, Some(days_b));
    assert_eq!(streak_a, 5);
    assert_eq!(streak_b, 2, "User B's streak must be 2, not polluted by User A's 5");
}

fn at(secs: i64, nanos: u32) -> Timestamp {
    Timestamp::new(secs, nanos).unwrap()
}

fn window_error(now: Timestamp, t: Option<Timestamp>) -> Option<String> {
    let (_, a) = check_in(
        CheckInState::Start,
        CheckInEvent::Submitted { now, request: CheckInRequest { checked_in_at: t } },
    );
    match a {
        CheckInAction::LoadZone => None,
        CheckInAction::Fail(AppError::Validation(m)) => Some(m),
        _ => panic!("unexpected action"),
    }
}

#[test]
fn check_in_without_timestamp_is_accepted() {
    assert_eq!(window_error(at(1_700_000_000, 5), None), None);
}

#[test]
fn check_in_window_future_edge() {
    let now = at(1_700_000_000, 0);
    // Exactly two hours ahead: whole hours -2, refused.
    assert_eq!(
        window_error(now, Some(at(1_700_007_200, 0))),
        Some("Check in timestamp is in the future".to_string())
    );
    // One nanosecond less than two hours ahead: whole hours -1, accepted.
    assert_eq!(window_error(now, Some(at(1_700_007_199, 999_999_999))), None);
    // One hour ahead is accepted.
    assert_eq!(window_error(now, Some(at(1_700_003_600, 0))), None);
}

#[test]
fn check_in_window_past_edge() {
    let now = at(1_700_000_000, 0);
    // Exactly 25 hours old: whole hours 25, refused.
    assert_eq!(
        window_error(now, Some(at(1_700_000_000 - 25 * 3600, 0))),
        Some("Check in timestamp is more than 24 hours old".to_string())
    );
    // Just under 25 hours old: whole hours 24, accepted.
    assert_eq!(window_error(now, Some(at(1_700_000_000 - 25 * 3600, 1))), None);
    // A day old is accepted.
    assert_eq!(window_error(now, Some(at(1_700_000_000 - 24 * 3600, 0))), None);
}

#[test]
fn check_in_day_in_zone_crosses_midnight() {
    // 2024-01-01T23:30:00Z is already 2024-01-02 in Lagos (UTC+1).
    let t = at(1_704_151_800, 0);
    let jan2 = chrono::NaiveDate::from_ymd_opt(2024, 1, 2).unwrap().num_days_from_ce();
    let jan1 = chrono::NaiveDate::from_ymd_opt(2024, 1, 1).unwrap().num_days_from_ce();
    let (lagos, _, _) = run_check_in(t, None, "Africa/Lagos", None);
    let (utc, _, _) = run_check_in(t, None, "UTC", None);
    assert_eq!(lagos, jan2);
    assert_eq!(utc, jan1);
}

#[test]
fn check_in_with_unknown_zone_is_internal_error() {
    let now = at(1_700_000_000, 0);
    let (s, _) = check_in(
        CheckInState::Start,
        CheckInEvent::Submitted { now, request: CheckInRequest { checked_in_at: None } },
    );
    let (s, a) = check_in(s, CheckInEvent::ZoneLoaded { zone: "Mars/Olympus".to_string() });
    assert!(matches!(s, CheckInState::Done));
    match a {
        CheckInAction::Fail(e) => {
            assert_eq!(e.http_status(), 500);
            assert!(matches!(e, AppError::Internal(ref m) if m == "Invalid stored timezone: Mars/Olympus"));
        },
        _ => panic!("expected Fail"),
    }
}

#[test]
fn check_in_out_of_order_event_fails() {
    let (s, a) = check_in(CheckInState::Start, CheckInEvent::Saved);
    assert!(matches!(s, CheckInState::Done));
    assert!(matches!(a, CheckInAction::Fail(AppError::Internal(ref m)) if m == "event out of order"));
}

#[test]
fn repeated_check_in_with_earlier_time_lowers_the_record() {
    let now = at(1_700_000_000, 0);
    let stored = at(1_699_999_000, 0);
    let earlier = at(1_699_998_000, 0);
    let (_, (_, saved, insert), (status, _, kept, already)) = run_check_in(now, Some(earlier), "UTC", Some(stored));
    assert!(!insert);
    assert_eq!(saved, earlier);
    assert_eq!(kept, earlier);
    assert_eq!(status, 200);
    assert!(already);
}

#[test]
fn status_streak_is_zero_when_days_cannot_be_read() {
    let (_, checked, streak) = run_status(stamp(Utc::now()), "UTC", true, None);
    assert!(checked);
    assert_eq!(streak, 0);
}

#[test]
fn status_reports_today_in_zone() {
    let t = at(1_704_151_800, 0);
    let jan2 = chrono::NaiveDate::from_ymd_opt(2024, 1, 2).unwrap().num_days_from_ce();
    let (today, _, streak) = run_status(t, "Africa/Lagos", true, Some(vec![jan2, jan2 - 1, jan2 + 1]));
    assert_eq!(today, jan2);
    assert_eq!(streak, 3);
}

#[test]
fn status_with_unknown_zone_fails() {
    let now = at(1_700_000_000, 0);
    let (s, _) = status(StatusState::Start, StatusEvent::Requested { now });
    let (_, a) = status(s, StatusEvent::ZoneLoaded { zone: "Nowhere".to_string() });
    assert!(matches!(a, StatusAction::Fail(AppError::Internal(ref m)) if m == "Invalid stored timezone: Nowhere"));
}

#[test]
fn zone_days_at_the_ends_of_the_range() {
    let latest = at(MAX_SECS, 999_999_999);
    let earliest = at(MIN_SECS, 0);
    for zone in ["Asia/Tokyo", "Pacific/Kiritimati", "America/Los_Angeles", "Pacific/Pago_Pago", "Asia/Manila", "UTC"] {
        let (late_day, _, _) = run_status(latest, zone, false, None);
        let (early_day, _, _) = run_status(earliest, zone, false, None);
        assert!(late_day > early_day);
    }
}

#[test]
fn check_in_answers_with_microsecond_precision() {
    let now = at(1_700_000_000, 0);
    let t = at(1_699_999_000, 123_456_789);
    let (_, (_, saved, _), (status, _, kept, _)) = run_check_in(now, Some(t), "UTC", None);
    assert_eq!(status, 201);
    assert_eq!(saved, at(1_699_999_000, 123_456_000));
    assert_eq!(kept, at(1_699_999_000, 123_456_000));
}

#[test]
fn leap_second_window_counts_the_inserted_second() {
    // Client: day D, 11:00:59 plus a leap second and a half (11:00:60.5).
    // Now: day D + 1, 12:01:00. chrono counts 25 whole hours between them.
    let d: i64 = 19_000 * 86_400;
    let client = at(d + 39_659, 1_500_000_000);
    let now = at(d + 86_400 + 43_260, 0);
    let c = chrono::DateTime::from_timestamp(d + 39_659, 1_500_000_000).unwrap();
    let n = chrono::DateTime::from_timestamp(d + 86_400 + 43_260, 0).unwrap();
    assert_eq!((n - c).num_hours(), 25);
    assert_eq!(
        window_error(now, Some(client)),
        Some("Check in timestamp is more than 24 hours old".to_string())
    );
}

#[test]
fn leap_second_check_in_is_accepted_and_stored_past_the_second() {
    let d: i64 = 19_000 * 86_400;
    let client = at(d + 43_259, 1_500_000_000);
    let now = at(d + 43_265, 0);
    let (_, (_, saved, _), (status, _, kept, _)) = run_check_in(now, Some(client), "UTC", None);
    assert_eq!(status, 201);
    assert_eq!(saved, at(d + 43_260, 500_000_000));
    assert_eq!(kept, saved);
}
