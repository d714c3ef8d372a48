//! Instants on the UTC time line, as the service stores and compares them.

use vstd::prelude::*;

verus! {

/// Nanoseconds in one second.
pub const NANOS_PER_SEC: i64 = 1_000_000_000;

/// Nanoseconds in one hour.
pub const NANOS_PER_HOUR: i64 = 3_600_000_000_000;

/// One day in seconds.
pub const SECS_PER_DAY: i64 = 86_400;

/// The earliest second a `Timestamp` holds: one day after the earliest that
/// `chrono::DateTime<Utc>` can represent (`DateTime::<Utc>::MIN_UTC`, in the
/// year -262143), so that the local calendar date of every instant, in every
/// time zone, is representable too.
pub const MIN_SECS: i64 = -8_334_601_142_400;

/// The latest second a `Timestamp` holds: one day before the latest that
/// `chrono::DateTime<Utc>` can represent (`DateTime::<Utc>::MAX_UTC`,
/// December 31 of the year 262142, 23:59:59 UTC), for the same reason.
pub const MAX_SECS: i64 = 8_210_266_790_399;

/// The Unix time of 2000-01-01 00:00:00 UTC, the instant from which a
/// PostgreSQL `timestamptz` counts its microseconds.
pub const PG_EPOCH_SECS: i64 = 946_684_800;

/// An instant: whole seconds since the Unix epoch and the nanoseconds past
/// that second. Every value lies at least a day inside chrono's range. As
/// in chrono, a leap second is written as the last second of a minute with
/// 1_000_000_000 or more nanoseconds (not in the very last second held).
#[derive(Clone, Copy, Debug, PartialEq, Eq)]
pub struct Timestamp {
    secs: i64,
    nanos: u32,
}

/// Rust's integer division, which rounds toward zero (`d > 0`).
pub open spec fn div_toward_zero(n: int, d: int) -> int {
    if n >= 0 {
        n / d
    } else {
        -((-n) / d)
    }
}

/// The seconds and nanoseconds chrono accepts for an instant here.
pub open spec fn valid_parts(secs: int, nanos: int) -> bool {
    &&& MIN_SECS <= secs <= MAX_SECS
    &&& 0 <= nanos
    &&& (nanos < NANOS_PER_SEC || (nanos < 2 * NANOS_PER_SEC && secs % 60 == 59 && secs < MAX_SECS))
}

impl Timestamp {
    #[verifier::type_invariant]
    spec fn in_range(self) -> bool {
        valid_parts(self.secs as int, self.nanos as int)
    }

    /// Whole seconds since the Unix epoch.
    pub closed spec fn seconds(self) -> int {
        self.secs as int
    }

    /// Nanoseconds past the whole second (a second or more in a leap second).
    pub closed spec fn subsec_nanos(self) -> int {
        self.nanos as int
    }

    /// The instant as a count of nanoseconds since the Unix epoch, a leap
    /// second running on into the next second (as chrono counts it from a
    /// fixed earlier instant, and as PostgreSQL stores it).
    pub open spec fn instant(self) -> int {
        self.seconds() * NANOS_PER_SEC + self.subsec_nanos()
    }

    /// The seconds of the instant past midnight UTC.
    pub open spec fn second_of_day(self) -> int {
        self.seconds() % SECS_PER_DAY as int
    }

    /// Builds an instant, refusing seconds outside `MIN_SECS..=MAX_SECS` and
    /// nanosecond counts chrono refuses: a second or more, except in the last
    /// second of a minute (a leap second), and never two seconds or more.
    pub fn new(secs: i64, nanos: u32) -> (r: Option<Timestamp>)
        ensures
            r is Some <==> valid_parts(secs as int, nanos as int),
            r matches Some(t) ==> t.seconds() == secs && t.subsec_nanos() == nanos,
    {
        if secs < MIN_SECS || secs > MAX_SECS {
            return None;
        }
        let since_min = (secs - MIN_SECS) as u64;
        proof {
            assert(MIN_SECS % 60 == 0);
            assert((secs - MIN_SECS) % 60 == secs % 60);
        }
        let last_of_minute = since_min % 60 == 59;
        if nanos < 1_000_000_000 || (nanos < 2_000_000_000 && last_of_minute && secs < MAX_SECS) {
            Some(Timestamp { secs, nanos })
        } else {
            None
        }
    }

    /// Whole seconds since the Unix epoch.
    pub fn secs(&self) -> (r: i64)
        ensures
            r == self.seconds(),
            MIN_SECS <= r <= MAX_SECS,
    {
        proof {
            use_type_invariant(self);
        }
        self.secs
    }

    /// Nanoseconds past the whole second.
    pub fn nanos(&self) -> (r: u32)
        ensures
            r == self.subsec_nanos(),
            valid_parts(self.seconds(), r as int),
    {
        proof {
            use_type_invariant(self);
        }
        self.nanos
    }

    /// Whether `self` lies strictly before `other`.
    pub fn is_before(&self, other: &Timestamp) -> (r: bool)
        ensures
            r == (self.instant() < other.instant()),
    {
        proof {
            use_type_invariant(self);
            use_type_invariant(other);
        }
        let a = self.secs as i128 * 1_000_000_000 + self.nanos as i128;
        let b = other.secs as i128 * 1_000_000_000 + other.nanos as i128;
        a < b
    }

    /// The earlier of two instants (`a` when they are equal).
    pub fn earliest(a: Timestamp, b: Timestamp) -> (r: Timestamp)
        ensures
            r == (if b.instant() < a.instant() { b } else { a }),
    {
        if b.is_before(&a) {
            b
        } else {
            a
        }
    }

    /// The instant as a PostgreSQL `timestamptz` column keeps it: a whole
    /// number of microseconds from 2000-01-01 00:00:00 UTC, the rest cut off
    /// toward that instant. Never a leap second.
    pub fn at_stored_precision(&self) -> (r: Timestamp)
        ensures
            r == stored_form(*self),
            r.instant() == stored_instant_nanos(*self),
            r.subsec_nanos() < NANOS_PER_SEC,
    {
        proof {
            use_type_invariant(self);
        }
        let rel: i128 = (self.secs as i128 - PG_EPOCH_SECS as i128) * 1_000_000_000 + self.nanos as i128;
        let micros: i128 = if rel >= 0 {
            rel / 1000
        } else {
            -((-rel) / 1000)
        };
        let kept: i128 = micros * 1000;
        let whole: i128 = if kept >= 0 {
            kept / 1_000_000_000
        } else {
            -((-kept + 999_999_999) / 1_000_000_000)
        };
        let frac: i128 = kept - whole * 1_000_000_000;
        proof {
            assert(0 <= frac < 1_000_000_000) by (nonlinear_arith)
                requires
                    kept >= 0 ==> whole == kept / 1_000_000_000,
                    kept < 0 ==> whole == -((-kept + 999_999_999) / 1_000_000_000),
                    frac == kept - whole * 1_000_000_000,
            ;
            assert(PG_EPOCH_SECS * 1_000_000_000 + kept == (PG_EPOCH_SECS + whole) * 1_000_000_000 + frac);
            assert((PG_EPOCH_SECS * 1_000_000_000 + kept) / 1_000_000_000 == PG_EPOCH_SECS + whole
                && (PG_EPOCH_SECS * 1_000_000_000 + kept) % 1_000_000_000 == frac) by (nonlinear_arith)
                requires
                    PG_EPOCH_SECS * 1_000_000_000 + kept == (PG_EPOCH_SECS + whole) * 1_000_000_000 + frac,
                    0 <= frac < 1_000_000_000,
            ;
            assert(MIN_SECS <= PG_EPOCH_SECS + whole <= MAX_SECS) by (nonlinear_arith)
                requires
                    rel == (self.secs - PG_EPOCH_SECS) * 1_000_000_000 + self.nanos,
                    MIN_SECS <= self.secs <= MAX_SECS,
                    0 <= self.nanos < 2_000_000_000,
                    self.nanos >= 1_000_000_000 ==> self.secs < MAX_SECS,
                    rel >= 0 ==> micros == rel / 1000,
                    rel < 0 ==> micros == -((-rel) / 1000),
                    kept == micros * 1000,
                    kept >= 0 ==> whole == kept / 1_000_000_000,
                    kept < 0 ==> whole == -((-kept + 999_999_999) / 1_000_000_000),
            ;
        }
        Timestamp { secs: (PG_EPOCH_SECS as i128 + whole) as i64, nanos: frac as u32 }
    }
}

/// The nanoseconds since the Unix epoch of `t` as PostgreSQL stores it:
/// whole microseconds from 2000-01-01 UTC, cut toward that instant.
pub open spec fn stored_instant_nanos(t: Timestamp) -> int {
    PG_EPOCH_SECS * NANOS_PER_SEC + div_toward_zero(t.instant() - PG_EPOCH_SECS * NANOS_PER_SEC, 1000) * 1000
}

/// `t` as PostgreSQL stores and gives it back: the instant of
/// `stored_instant_nanos`, with no leap second.
pub closed spec fn stored_form(t: Timestamp) -> Timestamp {
    let n = stored_instant_nanos(t);
    Timestamp { secs: (n / NANOS_PER_SEC as int) as i64, nanos: (n % NANOS_PER_SEC as int) as u32 }
}

/// The length of the time from `earlier` to `later` in nanoseconds, as chrono
/// measures it: the distance between the instants, plus one second when
/// `earlier` is a leap second and `later`'s second of the day comes after
/// it, minus one second when `later` is a leap second and its second of the
/// day comes after `earlier`'s.
pub open spec fn chrono_nanos_between(later: Timestamp, earlier: Timestamp) -> int {
    later.instant() - earlier.instant() + if later.second_of_day() > earlier.second_of_day()
        && earlier.subsec_nanos() >= NANOS_PER_SEC {
        NANOS_PER_SEC as int
    } else if later.second_of_day() < earlier.second_of_day() && later.subsec_nanos() >= NANOS_PER_SEC {
        -NANOS_PER_SEC
    } else {
        0
    }
}

/// `chrono`: `(DateTime::from_timestamp(later) - DateTime::from_timestamp(earlier)).num_hours()`.
/// The contract claims that the whole hours between two instants (both
/// inside chrono's range, as every `Timestamp` is) are chrono's duration
/// between them (`NaiveTime::signed_duration_since`, which adjusts for a
/// leap second on either side) divided by one hour, rounded toward zero, as
/// `TimeDelta::num_hours` documents.
#[verifier::external_body]
pub(crate) fn whole_hours_between(later: &Timestamp, earlier: &Timestamp) -> (h: i64)
    ensures
        h == div_toward_zero(chrono_nanos_between(*later, *earlier), NANOS_PER_HOUR as int),
{
    let a = chrono::DateTime::from_timestamp(later.secs, later.nanos).expect("in range");
    let b = chrono::DateTime::from_timestamp(earlier.secs, earlier.nanos).expect("in range");
    (a - b).num_hours()
}

/// What the database keeps of an instant: a whole number of microseconds
/// from 2000-01-01 UTC, less than a microsecond from the instant, and never
/// further from 2000-01-01 than the instant itself.
pub proof fn law_stored_precision(t: Timestamp)
    ensures
        (stored_instant_nanos(t) - PG_EPOCH_SECS * NANOS_PER_SEC) % 1000 == 0,
        t.instant() >= PG_EPOCH_SECS * NANOS_PER_SEC ==> t.instant() - 1000 < stored_instant_nanos(t)
            <= t.instant(),
        t.instant() < PG_EPOCH_SECS * NANOS_PER_SEC ==> t.instant() <= stored_instant_nanos(t) < t.instant()
            + 1000,
{
    let rel = t.instant() - PG_EPOCH_SECS * NANOS_PER_SEC;
    let m = div_toward_zero(rel, 1000);
    assert((m * 1000) % 1000 == 0) by (nonlinear_arith);
    if rel >= 0 {
        assert(rel - 1000 < (rel / 1000) * 1000 <= rel) by (nonlinear_arith)
            requires
                rel >= 0,
        ;
    } else {
        assert(rel <= -(((-rel) / 1000) * 1000) < rel + 1000) by (nonlinear_arith)
            requires
                rel < 0,
        ;
    }
}

} // verus!
