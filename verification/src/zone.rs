//! IANA time zones, by name, and the calendar day an instant falls on in one.

use vstd::prelude::*;
use crate::time::Timestamp;
use chrono::Datelike;

verus! {

/// Whether `chrono_tz` knows a time zone of this exact name.
pub uninterp spec fn is_zone_name(name: Seq<char>) -> bool;

/// The calendar day, counted from January 1 of the year 1 (day 1), on which
/// the instant `secs`.`nanos` after the Unix epoch falls in the zone `name`,
/// as `chrono_tz` computes it.
pub uninterp spec fn zone_day(name: Seq<char>, secs: int, nanos: int) -> int;

/// `chrono_tz`: `name.parse::<chrono_tz::Tz>().is_ok()`. The contract claims
/// only that the answer is the named fact `is_zone_name`, which depends on
/// the name alone (an exact lookup in the crate's zone table).
#[verifier::external_body]
pub(crate) fn zone_exists(name: &str) -> (b: bool)
    ensures
        b == is_zone_name(name@),
{
    name.parse::<chrono_tz::Tz>().is_ok()
}

/// `chrono` and `chrono_tz`: the zone parsed from `name`, then
/// `DateTime::from_timestamp(at).with_timezone(&tz).date_naive().num_days_from_ce()`.
/// The contract claims that a day comes back exactly when the zone exists, and
/// that it is the named result `zone_day` of the name and the instant. Every
/// `Timestamp` lies at least a day inside chrono's range and no zone is a day
/// away from UTC, so the local date is representable and `date_naive` does
/// not panic.
#[verifier::external_body]
pub(crate) fn day_in_zone(name: &str, at: &Timestamp) -> (r: Option<i32>)
    ensures
        r is Some <==> is_zone_name(name@),
        r matches Some(d) ==> d == zone_day(name@, at.seconds(), at.subsec_nanos()),
{
    let utc = chrono::DateTime::from_timestamp(at.secs(), at.nanos()).expect("in range");
    match name.parse::<chrono_tz::Tz>() {
        Ok(tz) => Some(utc.with_timezone(&tz).date_naive().num_days_from_ce()),
        Err(_) => None,
    }
}

} // verus!
