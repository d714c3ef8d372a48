//! Daily check-ins: the time window a client timestamp must fall in, the
//! calendar day it counts for, how a repeated check-in on one day is merged,
//! and the status report with the current streak.

use vstd::prelude::*;
use crate::error::{AppError, Failure};
use crate::streak::{checked_in, current_streak, streak_days, streak_length, unbroken};
use crate::time::{chrono_nanos_between, div_toward_zero, stored_form, whole_hours_between, Timestamp, NANOS_PER_HOUR};
use crate::zone::{day_in_zone, is_zone_name, zone_day};
use crate::ids::{is_v4_id, random_uuid};

verus! {

/// A check-in as the client sends it: optionally, when it happened.
pub struct CheckInRequest {
    pub checked_in_at: Option<Timestamp>,
}

/// The answer to a check-in.
pub struct CheckInResponse {
    /// The calendar day (counted from January 1 of the year 1, day 1) the
    /// check-in counts for, in the user's time zone.
    pub check_in_date: i32,
    /// The recorded instant: the earliest one given for that day, as the
    /// database keeps it (whole microseconds).
    pub checked_in_at: Timestamp,
    /// Whether the day already had a check-in.
    pub already_checked_in: bool,
}

/// The answer to a status request.
pub struct StatusResponse {
    /// Today, in the user's time zone (counted from January 1 of the year 1, day 1).
    pub today: i32,
    pub checked_in_today: bool,
    pub current_streak: i64,
}

/// Whole hours from `at` to `now`, as chrono measures them, rounded toward
/// zero (negative when `at` lies after `now`).
pub open spec fn drift_hours(now: Timestamp, at: Timestamp) -> int {
    div_toward_zero(chrono_nanos_between(now, at), NANOS_PER_HOUR as int)
}

/// Why a check-in at `at`, received at `now`, is refused, if it is.
pub open spec fn window_problem(now: Timestamp, at: Timestamp) -> Option<Seq<char>> {
    if drift_hours(now, at) < -1 {
        Some("Check in timestamp is in the future"@)
    } else if drift_hours(now, at) > 24 {
        Some("Check in timestamp is more than 24 hours old"@)
    } else {
        None
    }
}

/// The instant a check-in claims: the client's timestamp, or `now` without one.
pub open spec fn claimed_instant(now: Timestamp, request: CheckInRequest) -> Timestamp {
    match request.checked_in_at {
        Some(t) => t,
        None => now,
    }
}

/// The instant kept for a day after a check-in at `incoming`: the earlier of
/// the stored one and the new one.
pub open spec fn merged_instant(existing: Option<Timestamp>, incoming: Timestamp) -> Timestamp {
    match existing {
        None => incoming,
        Some(e) => if incoming.instant() < e.instant() {
            incoming
        } else {
            e
        },
    }
}

/// The message of a time zone that no longer parses.
pub open spec fn bad_zone_message(zone: Seq<char>) -> Seq<char> {
    "Invalid stored timezone: "@ + zone
}

/// Checks the client's timestamp against the time window: refused when it
/// lies two hours or more in the future or 25 hours or more in the past (as
/// chrono's whole hours, rounded toward zero: below -1 or above 24). Gives
/// the instant the check-in claims.
pub fn check_time_window(now: Timestamp, requested: Option<Timestamp>) -> (r: Result<Timestamp, AppError>)
    ensures
        ({
            let at = claimed_instant(now, CheckInRequest { checked_in_at: requested });
            match window_problem(now, at) {
                Some(m) => r matches Err(e) && e@ == Failure::Validation(m),
                None => r == Ok::<Timestamp, AppError>(at),
            }
        }),
{
    let at = match requested {
        Some(t) => t,
        None => now,
    };
    let drift = whole_hours_between(&now, &at);
    if drift < -1 {
        Err(AppError::Validation(String::from_str("Check in timestamp is in the future")))
    } else if drift > 24 {
        Err(AppError::Validation(String::from_str("Check in timestamp is more than 24 hours old")))
    } else {
        Ok(at)
    }
}

/// The instant kept for a day: the earlier of the stored instant and the new one.
pub fn merge_check_in(existing: Option<Timestamp>, incoming: Timestamp) -> (r: Timestamp)
    ensures
        r == merged_instant(existing, incoming),
{
    match existing {
        None => incoming,
        Some(e) => Timestamp::earliest(e, incoming),
    }
}

/// Where a check-in request stands.
pub enum CheckInState {
    Start,
    /// The instant passed the window check; the user's zone is needed.
    AwaitingZone { at: Timestamp },
    /// The day is known; the record stored for it, if any, is needed.
    AwaitingRecord { day: i32, at: Timestamp },
    /// The merged record is being written; `reply` answers once it is.
    AwaitingSave { reply: CheckInResponse },
    Done,
}

/// What the caller reports back.
pub enum CheckInEvent {
    /// The request arrived at `now`.
    Submitted { now: Timestamp, request: CheckInRequest },
    /// The user's stored time zone name.
    ZoneLoaded { zone: String },
    /// The instant stored for the day, if the day has a check-in.
    RecordLoaded { existing: Option<Timestamp> },
    /// The record was written.
    Saved,
}

/// What the caller is to do next.
pub enum CheckInAction {
    /// Read the user's time zone name.
    LoadZone,
    /// Read the user's check-in for `day`, if any.
    LoadRecord { day: i32 },
    /// Write the user's check-in for `day`: insert a new row with id
    /// `new_row` when there is one, else set the stored row's instant.
    Save { day: i32, checked_in_at: Timestamp, new_row: Option<u128> },
    /// Answer with this HTTP status and body.
    Respond { status: u16, body: CheckInResponse },
    /// Answer with this error.
    Fail(AppError),
}

/// The message for an event that the current state does not expect.
pub open spec fn out_of_order() -> Seq<char> {
    "event out of order"@
}

/// `act` fails the request with `f`.
pub open spec fn check_in_fails(act: CheckInAction, f: Failure) -> bool {
    act matches CheckInAction::Fail(e) && e@ == f
}

/// One step of a check-in: the state after `e` in state `s`, and the action that follows.
pub open spec fn check_in_step(s: CheckInState, e: CheckInEvent, next: CheckInState, act: CheckInAction) -> bool {
    match (s, e) {
        (CheckInState::Start, CheckInEvent::Submitted { now, request }) => {
            let at = claimed_instant(now, request);
            match window_problem(now, at) {
                Some(m) => next == CheckInState::Done && check_in_fails(act, Failure::Validation(m)),
                None => next == (CheckInState::AwaitingZone { at }) && act == CheckInAction::LoadZone,
            }
        },
        (CheckInState::AwaitingZone { at }, CheckInEvent::ZoneLoaded { zone }) => {
            if is_zone_name(zone@) {
                let day = zone_day(zone@, at.seconds(), at.subsec_nanos());
                &&& next == (CheckInState::AwaitingRecord { day: day as i32, at })
                &&& act == (CheckInAction::LoadRecord { day: day as i32 })
                &&& i32::MIN <= day <= i32::MAX
            } else {
                next == CheckInState::Done && check_in_fails(act, Failure::Internal(bad_zone_message(zone@)))
            }
        },
        (CheckInState::AwaitingRecord { day, at }, CheckInEvent::RecordLoaded { existing }) => {
            let kept = merged_instant(existing, stored_form(at));
            &&& next == (CheckInState::AwaitingSave {
                reply: CheckInResponse { check_in_date: day, checked_in_at: kept, already_checked_in: existing is Some },
            })
            &&& act matches CheckInAction::Save { day: d, checked_in_at: k, new_row }
            &&& d == day && k == kept
            &&& (new_row is Some <==> existing is None)
            &&& (new_row matches Some(id) ==> is_v4_id(id))
        },
        (CheckInState::AwaitingSave { reply }, CheckInEvent::Saved) => {
            &&& next == CheckInState::Done
            &&& act == (CheckInAction::Respond { status: if reply.already_checked_in { 200 } else { 201 }, body: reply })
        },
        _ => next == CheckInState::Done && check_in_fails(act, Failure::Internal(out_of_order())),
    }
}

/// Advances a check-in by one event. A new day's check-in is answered 201
/// and a repeated one 200, with the earliest instant given for the day kept
/// at the database's precision of whole microseconds.
pub fn check_in(s: CheckInState, e: CheckInEvent) -> (r: (CheckInState, CheckInAction))
    ensures
        check_in_step(s, e, r.0, r.1),
{
    match (s, e) {
        (CheckInState::Start, CheckInEvent::Submitted { now, request }) => {
            match check_time_window(now, request.checked_in_at) {
                Ok(at) => (CheckInState::AwaitingZone { at }, CheckInAction::LoadZone),
                Err(err) => (CheckInState::Done, CheckInAction::Fail(err)),
            }
        },
        (CheckInState::AwaitingZone { at }, CheckInEvent::ZoneLoaded { zone }) => {
            match day_in_zone(zone.as_str(), &at) {
                Some(day) => (CheckInState::AwaitingRecord { day, at }, CheckInAction::LoadRecord { day }),
                None => {
                    let mut m = String::from_str("Invalid stored timezone: ");
                    m.append(zone.as_str());
                    (CheckInState::Done, CheckInAction::Fail(AppError::Internal(m)))
                },
            }
        },
        (CheckInState::AwaitingRecord { day, at }, CheckInEvent::RecordLoaded { existing }) => {
            let kept = merge_check_in(existing, at.at_stored_precision());
            let new_row = match existing {
                None => Some(random_uuid()),
                Some(_) => None,
            };
            let already = existing.is_some();
            (
                CheckInState::AwaitingSave {
                    reply: CheckInResponse { check_in_date: day, checked_in_at: kept, already_checked_in: already },
                },
                CheckInAction::Save { day, checked_in_at: kept, new_row },
            )
        },
        (CheckInState::AwaitingSave { reply }, CheckInEvent::Saved) => {
            let status: u16 = if reply.already_checked_in { 200 } else { 201 };
            (CheckInState::Done, CheckInAction::Respond { status, body: reply })
        },
        _ => (CheckInState::Done, CheckInAction::Fail(AppError::Internal(String::from_str("event out of order")))),
    }
}

/// Where a status request stands.
pub enum StatusState {
    Start,
    /// The request arrived at `now`; the user's zone is needed.
    AwaitingZone { now: Timestamp },
    /// Today is known; whether it has a check-in is needed.
    AwaitingToday { today: i32 },
    /// The user's checked-in days are needed for the streak.
    AwaitingDays { today: i32, checked_in_today: bool },
    Done,
}

/// What the caller reports back.
pub enum StatusEvent {
    /// The request arrived at `now`.
    Requested { now: Timestamp },
    /// The user's stored time zone name.
    ZoneLoaded { zone: String },
    /// Whether the user has a check-in on the day asked about.
    TodayChecked { checked_in: bool },
    /// The user's checked-in days, or `None` when they could not be read
    /// (the streak is then reported as 0).
    DaysLoaded { days: Option<Vec<i32>> },
}

/// What the caller is to do next.
pub enum StatusAction {
    LoadZone,
    /// Tell whether the user has a check-in on `day`.
    CheckDay { day: i32 },
    /// Read all the user's checked-in days.
    LoadDays,
    Respond { body: StatusResponse },
    Fail(AppError),
}

/// `act` fails the request with `f`.
pub open spec fn status_fails(act: StatusAction, f: Failure) -> bool {
    act matches StatusAction::Fail(e) && e@ == f
}

/// One step of a status request.
pub open spec fn status_step(s: StatusState, e: StatusEvent, next: StatusState, act: StatusAction) -> bool {
    match (s, e) {
        (StatusState::Start, StatusEvent::Requested { now }) => {
            next == (StatusState::AwaitingZone { now }) && act == StatusAction::LoadZone
        },
        (StatusState::AwaitingZone { now }, StatusEvent::ZoneLoaded { zone }) => {
            if is_zone_name(zone@) {
                let day = zone_day(zone@, now.seconds(), now.subsec_nanos());
                &&& next == (StatusState::AwaitingToday { today: day as i32 })
                &&& act == (StatusAction::CheckDay { day: day as i32 })
                &&& i32::MIN <= day <= i32::MAX
            } else {
                next == StatusState::Done && status_fails(act, Failure::Internal(bad_zone_message(zone@)))
            }
        },
        (StatusState::AwaitingToday { today }, StatusEvent::TodayChecked { checked_in }) => {
            next == (StatusState::AwaitingDays { today, checked_in_today: checked_in }) && act == StatusAction::LoadDays
        },
        (StatusState::AwaitingDays { today, checked_in_today }, StatusEvent::DaysLoaded { days }) => {
            &&& next == StatusState::Done
            &&& act == (StatusAction::Respond {
                body: StatusResponse {
                    today,
                    checked_in_today,
                    current_streak: match days {
                        Some(d) => streak_length(d@, today as int) as i64,
                        None => 0,
                    },
                },
            })
        },
        _ => next == StatusState::Done && status_fails(act, Failure::Internal(out_of_order())),
    }
}

/// Advances a status request by one event.
pub fn status(s: StatusState, e: StatusEvent) -> (r: (StatusState, StatusAction))
    ensures
        status_step(s, e, r.0, r.1),
{
    match (s, e) {
        (StatusState::Start, StatusEvent::Requested { now }) => {
            (StatusState::AwaitingZone { now }, StatusAction::LoadZone)
        },
        (StatusState::AwaitingZone { now }, StatusEvent::ZoneLoaded { zone }) => {
            match day_in_zone(zone.as_str(), &now) {
                Some(day) => (StatusState::AwaitingToday { today: day }, StatusAction::CheckDay { day }),
                None => {
                    let mut m = String::from_str("Invalid stored timezone: ");
                    m.append(zone.as_str());
                    (StatusState::Done, StatusAction::Fail(AppError::Internal(m)))
                },
            }
        },
        (StatusState::AwaitingToday { today }, StatusEvent::TodayChecked { checked_in }) => {
            (StatusState::AwaitingDays { today, checked_in_today: checked_in }, StatusAction::LoadDays)
        },
        (StatusState::AwaitingDays { today, checked_in_today }, StatusEvent::DaysLoaded { days }) => {
            let streak: i64 = match &days {
                Some(d) => current_streak(d, today),
                None => 0,
            };
            (
                StatusState::Done,
                StatusAction::Respond { body: StatusResponse { today, checked_in_today, current_streak: streak } },
            )
        },
        _ => (StatusState::Done, StatusAction::Fail(AppError::Internal(String::from_str("event out of order")))),
    }
}

/// The time window in nanoseconds: a check-in is accepted exactly when its
/// instant lies less than two hours after `now` and less than 25 hours
/// before it, as chrono measures the time between them.
pub proof fn law_window_in_nanoseconds(now: Timestamp, at: Timestamp)
    ensures
        window_problem(now, at) is None <==> (-2 * NANOS_PER_HOUR < chrono_nanos_between(now, at) < 25
            * NANOS_PER_HOUR),
{
    let x = chrono_nanos_between(now, at);
    let h = NANOS_PER_HOUR as int;
    if x >= 0 {
        assert(x / h <= 24 <==> x < 25 * h) by (nonlinear_arith)
            requires
                x >= 0,
                h == NANOS_PER_HOUR,
        ;
    } else {
        assert(-((-x) / h) >= -1 <==> x > -2 * h) by (nonlinear_arith)
            requires
                x < 0,
                h == NANOS_PER_HOUR,
        ;
    }
}

/// A check-in that gives no timestamp is never refused for its time.
pub proof fn law_check_in_without_timestamp_passes_window(now: Timestamp)
    ensures
        window_problem(now, claimed_instant(now, CheckInRequest { checked_in_at: None })) is None,
{
}

/// The instant kept for a day is the earliest of those given for it.
pub proof fn law_merge_keeps_earliest(existing: Option<Timestamp>, at: Timestamp)
    ensures
        merged_instant(existing, at).instant() == match existing {
            None => at.instant(),
            Some(e) => if e.instant() <= at.instant() {
                e.instant()
            } else {
                at.instant()
            },
        },
        merged_instant(existing, at).instant() <= at.instant(),
        existing matches Some(e) ==> merged_instant(existing, at).instant() <= e.instant(),
{
}

/// The order of two check-ins on one day does not change the instant kept.
pub proof fn law_merge_order_irrelevant(existing: Option<Timestamp>, a: Timestamp, b: Timestamp)
    ensures
        merged_instant(Some(merged_instant(existing, a)), b).instant() == merged_instant(
            Some(merged_instant(existing, b)),
            a,
        ).instant(),
{
}

/// A day's first check-in is answered 201, not marked as already checked
/// in, and records its own instant at the database's precision.
pub proof fn law_first_check_in_created(
    day: i32,
    at: Timestamp,
    saving: CheckInState,
    save: CheckInAction,
    done: CheckInState,
    reply: CheckInAction,
)
    requires
        check_in_step(CheckInState::AwaitingRecord { day, at }, CheckInEvent::RecordLoaded { existing: None }, saving, save),
        check_in_step(saving, CheckInEvent::Saved, done, reply),
    ensures
        save matches CheckInAction::Save { day: d, checked_in_at: k, new_row } && d == day && k
            == stored_form(at) && new_row is Some,
        reply == (CheckInAction::Respond {
            status: 201,
            body: CheckInResponse { check_in_date: day, checked_in_at: stored_form(at), already_checked_in: false },
        }),
{
}

/// A repeated check-in on a day is answered 200, marked as already checked
/// in, and keeps the earlier of the stored instant and the new one (at the
/// database's precision).
pub proof fn law_repeat_check_in_keeps_earliest(
    day: i32,
    at: Timestamp,
    stored: Timestamp,
    saving: CheckInState,
    save: CheckInAction,
    done: CheckInState,
    reply: CheckInAction,
)
    requires
        check_in_step(
            CheckInState::AwaitingRecord { day, at },
            CheckInEvent::RecordLoaded { existing: Some(stored) },
            saving,
            save,
        ),
        check_in_step(saving, CheckInEvent::Saved, done, reply),
    ensures
        save matches CheckInAction::Save { new_row, .. } && new_row is None,
        reply matches CheckInAction::Respond { status, body } && status == 200 && body.already_checked_in
            && body.check_in_date == day && body.checked_in_at.instant() == if stored.instant()
            <= stored_form(at).instant() {
            stored.instant()
        } else {
            stored_form(at).instant()
        },
{
}

/// The status report counts a streak only when today has a check-in among
/// the days it was given.
pub proof fn law_status_streak_needs_today(
    today: i32,
    checked_in_today: bool,
    days: Vec<i32>,
    next: StatusState,
    act: StatusAction,
)
    requires
        status_step(
            StatusState::AwaitingDays { today, checked_in_today },
            StatusEvent::DaysLoaded { days: Some(days) },
            next,
            act,
        ),
    ensures
        act matches StatusAction::Respond { body } && (body.current_streak > 0 <==> checked_in(
            days@,
            today as int,
        )),
{
    crate::streak::law_streak_positive_iff_checked_in_today(days@, today as int);
    crate::streak::lemma_streak_days_finite(days@, today as int);
}

/// A stored check-in: whose it is, the day, and the instant kept for it.
pub struct CheckInRow {
    pub user: u128,
    pub day: i32,
    pub at: Timestamp,
}

/// The user has a stored check-in on `day`.
pub open spec fn has_row(rows: Seq<CheckInRow>, user: u128, day: i32) -> bool {
    exists|i: int| 0 <= i < rows.len() && #[trigger] rows[i].user == user && rows[i].day == day
}

/// No user has two stored check-ins on one day.
pub open spec fn one_row_per_day(rows: Seq<CheckInRow>) -> bool {
    forall|i: int, j: int|
        0 <= i < j < rows.len() ==> !(#[trigger] rows[i].user == #[trigger] rows[j].user && rows[i].day
            == rows[j].day)
}

/// The instant stored for the user's `day`, if the day has a check-in.
pub open spec fn stored_instant(rows: Seq<CheckInRow>, user: u128, day: i32) -> Option<Timestamp> {
    if has_row(rows, user, day) {
        let i = choose|i: int| 0 <= i < rows.len() && #[trigger] rows[i].user == user && rows[i].day == day;
        Some(rows[i].at)
    } else {
        None
    }
}

/// The stored check-ins after the caller performs `act` for `user`: a new
/// row is appended, or the user's row for the day takes the new instant.
pub open spec fn apply_save(rows: Seq<CheckInRow>, user: u128, act: CheckInAction) -> Seq<CheckInRow> {
    match act {
        CheckInAction::Save { day, checked_in_at, new_row } => match new_row {
            Some(_) => rows.push(CheckInRow { user, day, at: checked_in_at }),
            None => rows.map_values(
                |r: CheckInRow|
                    if r.user == user && r.day == day {
                        CheckInRow { user, day, at: checked_in_at }
                    } else {
                        r
                    },
            ),
        },
        _ => rows,
    }
}

/// One row per user and day: when the record for the day is read from the
/// stored rows and the save is performed on them, the rows still hold at
/// most one check-in per user and day, that row holds the earliest instant,
/// and every other row is untouched.
pub proof fn law_check_in_keeps_one_row_per_day(
    rows: Seq<CheckInRow>,
    user: u128,
    day: i32,
    at: Timestamp,
    next: CheckInState,
    act: CheckInAction,
)
    requires
        one_row_per_day(rows),
        check_in_step(
            CheckInState::AwaitingRecord { day, at },
            CheckInEvent::RecordLoaded { existing: stored_instant(rows, user, day) },
            next,
            act,
        ),
    ensures
        one_row_per_day(apply_save(rows, user, act)),
        stored_instant(apply_save(rows, user, act), user, day) == Some(
            merged_instant(stored_instant(rows, user, day), stored_form(at)),
        ),
        forall|i: int|
            0 <= i < rows.len() && !(rows[i].user == user && rows[i].day == day) ==> apply_save(
                rows,
                user,
                act,
            )[i] == rows[i],
{
    let after = apply_save(rows, user, act);
    let kept = merged_instant(stored_instant(rows, user, day), stored_form(at));
    if has_row(rows, user, day) {
        let k = choose|i: int| 0 <= i < rows.len() && #[trigger] rows[i].user == user && rows[i].day == day;
        assert(after.len() == rows.len());
        assert forall|i: int| 0 <= i < rows.len() implies #[trigger] after[i] == (if rows[i].user == user
            && rows[i].day == day {
            CheckInRow { user, day, at: kept }
        } else {
            rows[i]
        }) by {}
        assert forall|i: int, j: int| 0 <= i < j < after.len() implies !(#[trigger] after[i].user
            == #[trigger] after[j].user && after[i].day == after[j].day) by {
            assert(!(rows[i].user == rows[j].user && rows[i].day == rows[j].day));
        }
        assert(after[k].user == user && after[k].day == day);
        let k2 = choose|i: int| 0 <= i < after.len() && #[trigger] after[i].user == user && after[i].day == day;
        assert(after[k2] == CheckInRow { user, day, at: kept });
    } else {
        let n = rows.len() as int;
        assert(after == rows.push(CheckInRow { user, day, at: stored_form(at) }));
        assert forall|i: int, j: int| 0 <= i < j < after.len() implies !(#[trigger] after[i].user
            == #[trigger] after[j].user && after[i].day == after[j].day) by {
            if j == n {
                if after[i].user == user && after[i].day == day {
                    assert(rows[i].user == user && rows[i].day == day);
                }
            } else {
                assert(after[i] == rows[i] && after[j] == rows[j]);
            }
        }
        assert(after[n].user == user && after[n].day == day);
        let k2 = choose|i: int| 0 <= i < after.len() && #[trigger] after[i].user == user && after[i].day == day;
        if k2 < n {
            assert(rows[k2].user == user && rows[k2].day == day);
        }
        assert forall|i: int| 0 <= i < rows.len() implies #[trigger] after[i] == rows[i] by {}
    }
}

/// A stored zone that parses never fails a check-in: the day's record is read next.
pub proof fn law_known_zone_never_fails_check_in(at: Timestamp, zone: String, next: CheckInState, act: CheckInAction)
    requires
        is_zone_name(zone@),
        check_in_step(CheckInState::AwaitingZone { at }, CheckInEvent::ZoneLoaded { zone }, next, act),
    ensures
        act is LoadRecord,
{
}

/// A stored zone that parses never fails a status request: today's check-in is asked for next.
pub proof fn law_known_zone_never_fails_status(now: Timestamp, zone: String, next: StatusState, act: StatusAction)
    requires
        is_zone_name(zone@),
        status_step(StatusState::AwaitingZone { now }, StatusEvent::ZoneLoaded { zone }, next, act),
    ensures
        act is CheckDay,
{
}

/// A status report depends only on the user's own data: two runs at the
/// same instant, with zones of the same name, the same answer for today, and
/// the same set of checked-in days, give the same answer.
pub proof fn law_status_depends_only_on_own_days(
    now: Timestamp,
    zone1: String,
    zone2: String,
    checked: bool,
    days1: Vec<i32>,
    days2: Vec<i32>,
    s1: StatusState, a1: StatusAction, s2: StatusState, a2: StatusAction,
    s3: StatusState, a3: StatusAction, s4: StatusState, a4: StatusAction,
    t1: StatusState, b1: StatusAction, t2: StatusState, b2: StatusAction,
    t3: StatusState, b3: StatusAction, t4: StatusState, b4: StatusAction,
)
    requires
        zone1@ == zone2@,
        forall|x: int| #[trigger] checked_in(days1@, x) <==> checked_in(days2@, x),
        status_step(StatusState::Start, StatusEvent::Requested { now }, s1, a1),
        status_step(s1, StatusEvent::ZoneLoaded { zone: zone1 }, s2, a2),
        status_step(s2, StatusEvent::TodayChecked { checked_in: checked }, s3, a3),
        status_step(s3, StatusEvent::DaysLoaded { days: Some(days1) }, s4, a4),
        status_step(StatusState::Start, StatusEvent::Requested { now }, t1, b1),
        status_step(t1, StatusEvent::ZoneLoaded { zone: zone2 }, t2, b2),
        status_step(t2, StatusEvent::TodayChecked { checked_in: checked }, t3, b3),
        status_step(t3, StatusEvent::DaysLoaded { days: Some(days2) }, t4, b4),
    ensures
        a4 is Respond <==> b4 is Respond,
        a4 is Respond ==> a4 == b4,
        a4 matches StatusAction::Fail(e1) ==> b4 matches StatusAction::Fail(e2) && e1@ == e2@,
{
    if is_zone_name(zone1@) {
        let today = s3->AwaitingDays_today;
        assert(streak_days(days1@, today as int) =~= streak_days(days2@, today as int)) by {
            assert forall|d: int| #[trigger] streak_days(days1@, today as int).contains(d) <==> streak_days(
                days2@,
                today as int,
            ).contains(d) by {
                if d <= today {
                    if unbroken(days1@, d, today as int) {
                        assert forall|x: int| d <= x <= today implies #[trigger] checked_in(days2@, x) by {
                            assert(checked_in(days1@, x));
                        }
                    }
                    if unbroken(days2@, d, today as int) {
                        assert forall|x: int| d <= x <= today implies #[trigger] checked_in(days1@, x) by {
                            assert(checked_in(days2@, x));
                        }
                    }
                } else {
                    if unbroken(days1@, today as int, d) {
                        assert forall|x: int| today <= x <= d implies #[trigger] checked_in(days2@, x) by {
                            assert(checked_in(days1@, x));
                        }
                    }
                    if unbroken(days2@, today as int, d) {
                        assert forall|x: int| today <= x <= d implies #[trigger] checked_in(days1@, x) by {
                            assert(checked_in(days2@, x));
                        }
                    }
                }
            }
        }
    }
}

/// The status report counts the whole run through today: when the user's
/// days hold every day from `first` through `last`, today among them, and
/// neither the day before `first` nor the day after `last`, the reported
/// streak is `last - first + 1`, however long the run; today and whether it
/// is checked in are reported as they came.
pub proof fn law_status_reports_run_length(
    today: i32,
    checked: bool,
    days: Vec<i32>,
    first: i32,
    last: i32,
    next: StatusState,
    act: StatusAction,
)
    requires
        first <= today <= last,
        forall|x: i32| first <= x <= last ==> days@.contains(x),
        first > i32::MIN ==> !days@.contains((first - 1) as i32),
        last < i32::MAX ==> !days@.contains((last + 1) as i32),
        status_step(
            StatusState::AwaitingDays { today, checked_in_today: checked },
            StatusEvent::DaysLoaded { days: Some(days) },
            next,
            act,
        ),
    ensures
        act matches StatusAction::Respond { body } && body.current_streak == last - first + 1
            && body.today == today && body.checked_in_today == checked,
{
    crate::streak::law_streak_is_run_length(days@, today, first, last);
}

/// When the user's days cannot be read, the streak is reported as 0.
pub proof fn law_status_unread_days_report_zero(today: i32, checked: bool, next: StatusState, act: StatusAction)
    requires
        status_step(
            StatusState::AwaitingDays { today, checked_in_today: checked },
            StatusEvent::DaysLoaded { days: None },
            next,
            act,
        ),
    ensures
        act matches StatusAction::Respond { body } && body.current_streak == 0 && body.today == today
            && body.checked_in_today == checked,
{
}

/// A status request asks about today and reports about today: with a zone
/// that parses, the day whose check-in is asked for is the local date of
/// `now` in that zone, and the report names that same day as today and
/// gives the answer to that question as `checked_in_today`.
pub proof fn law_status_asks_about_today(
    now: Timestamp,
    zone: String,
    checked: bool,
    days: Option<Vec<i32>>,
    s1: StatusState, a1: StatusAction, s2: StatusState, a2: StatusAction,
    s3: StatusState, a3: StatusAction, s4: StatusState, a4: StatusAction,
)
    requires
        is_zone_name(zone@),
        status_step(StatusState::Start, StatusEvent::Requested { now }, s1, a1),
        status_step(s1, StatusEvent::ZoneLoaded { zone }, s2, a2),
        status_step(s2, StatusEvent::TodayChecked { checked_in: checked }, s3, a3),
        status_step(s3, StatusEvent::DaysLoaded { days }, s4, a4),
    ensures
        a1 == StatusAction::LoadZone,
        a2 matches StatusAction::CheckDay { day } && day == zone_day(zone@, now.seconds(), now.subsec_nanos())
            && (a4 matches StatusAction::Respond { body } && body.today == day && body.checked_in_today == checked),
        a3 == StatusAction::LoadDays,
        s4 == StatusState::Done,
{
}

/// The time window, over the whole first step: a submitted check-in goes on
/// to load the zone exactly when chrono puts less than two hours between
/// `now` and a claimed instant after it, and less than 25 hours between a
/// claimed instant before it and `now`; otherwise it is answered 400, saying
/// "in the future" or "more than 24 hours old". The claimed instant is the
/// client's timestamp, or `now` without one.
pub proof fn law_check_in_window(now: Timestamp, request: CheckInRequest, next: CheckInState, act: CheckInAction)
    requires
        check_in_step(CheckInState::Start, CheckInEvent::Submitted { now, request }, next, act),
    ensures
        ({
            let t = match request.checked_in_at {
                Some(t) => t,
                None => now,
            };
            let d = chrono_nanos_between(now, t);
            &&& act is LoadZone <==> (-2 * NANOS_PER_HOUR < d < 25 * NANOS_PER_HOUR)
            &&& d <= -2 * NANOS_PER_HOUR ==> check_in_fails(act, Failure::Validation("Check in timestamp is in the future"@))
            &&& d >= 25 * NANOS_PER_HOUR ==> check_in_fails(
                act,
                Failure::Validation("Check in timestamp is more than 24 hours old"@),
            )
            &&& !(act is LoadZone) ==> next == CheckInState::Done
            &&& !(act is LoadZone) ==> (act matches CheckInAction::Fail(e) && crate::error::status_for(e@) == 400)
        }),
{
    let t = match request.checked_in_at {
        Some(t) => t,
        None => now,
    };
    law_window_in_nanoseconds(now, t);
    let x = chrono_nanos_between(now, t);
    let h = NANOS_PER_HOUR as int;
    if x < 0 {
        assert(x <= -2 * h ==> -((-x) / h) < -1) by (nonlinear_arith)
            requires
                x < 0,
                h == NANOS_PER_HOUR,
        ;
    } else {
        assert(x >= 25 * h ==> x / h > 24) by (nonlinear_arith)
            requires
                x >= 0,
                h == NANOS_PER_HOUR,
        ;
    }
}

/// A day's first check-in records the client's own instant (at the
/// database's precision), whether it lies before or after `now`, or `now`
/// without one; it counts for that instant's local date in the user's zone
/// and is answered 201 as a new check-in.
pub proof fn law_first_check_in_records_claimed_instant(
    now: Timestamp,
    request: CheckInRequest,
    zone: String,
    s1: CheckInState, a1: CheckInAction, s2: CheckInState, a2: CheckInAction,
    s3: CheckInState, a3: CheckInAction, s4: CheckInState, a4: CheckInAction,
)
    requires
        is_zone_name(zone@),
        check_in_step(CheckInState::Start, CheckInEvent::Submitted { now, request }, s1, a1),
        a1 is LoadZone,
        check_in_step(s1, CheckInEvent::ZoneLoaded { zone }, s2, a2),
        check_in_step(s2, CheckInEvent::RecordLoaded { existing: None }, s3, a3),
        check_in_step(s3, CheckInEvent::Saved, s4, a4),
    ensures
        ({
            let t = match request.checked_in_at {
                Some(t) => t,
                None => now,
            };
            let day = zone_day(zone@, t.seconds(), t.subsec_nanos());
            &&& a2 matches CheckInAction::LoadRecord { day: d } && d == day
            &&& a3 matches CheckInAction::Save { day: d, checked_in_at: k, new_row } && d == day && k
                == stored_form(t) && new_row is Some
            &&& a4 == (CheckInAction::Respond {
                status: 201,
                body: CheckInResponse { check_in_date: day as i32, checked_in_at: stored_form(t), already_checked_in: false },
            })
        }),
{
}

/// A stored zone that does not parse is an internal fault (500) naming the
/// zone, for a check-in and for a status request alike.
pub proof fn law_bad_stored_zone_is_internal(
    at: Timestamp,
    now: Timestamp,
    zone: String,
    n1: CheckInState,
    a1: CheckInAction,
    n2: StatusState,
    a2: StatusAction,
)
    requires
        !is_zone_name(zone@),
        check_in_step(CheckInState::AwaitingZone { at }, CheckInEvent::ZoneLoaded { zone }, n1, a1),
        status_step(StatusState::AwaitingZone { now }, StatusEvent::ZoneLoaded { zone }, n2, a2),
    ensures
        n1 == CheckInState::Done && check_in_fails(a1, Failure::Internal("Invalid stored timezone: "@ + zone@)),
        n2 == StatusState::Done && status_fails(a2, Failure::Internal("Invalid stored timezone: "@ + zone@)),
        crate::error::status_for(Failure::Internal("Invalid stored timezone: "@ + zone@)) == 500,
{
}

} // verus!
