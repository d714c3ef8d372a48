//! The current streak: how many checked-in days are joined to today by an
//! unbroken run of check-ins. Days are counted from January 1 of the year 1
//! (day 1), so consecutive calendar days differ by one.

use vstd::prelude::*;
use vstd::set_lib::*;
use vstd::seq_lib::seq_to_set_is_finite;

verus! {

/// `day` is among the checked-in days.
pub open spec fn checked_in(days: Seq<i32>, day: int) -> bool {
    exists|i: int| 0 <= i < days.len() && days[i] as int == day
}

/// Every day from `first` through `last` is checked in.
pub open spec fn unbroken(days: Seq<i32>, first: int, last: int) -> bool {
    forall|x: int| first <= x <= last ==> #[trigger] checked_in(days, x)
}

/// The days of the run of consecutive check-ins that contains `today`:
/// those joined to `today` by checked-in days only. Empty when `today`
/// itself is not checked in.
pub open spec fn streak_days(days: Seq<i32>, today: int) -> Set<int> {
    Set::new(
        |d: int|
            if d <= today {
                unbroken(days, d, today)
            } else {
                unbroken(days, today, d)
            },
    )
}

/// The current streak: the number of days in the run that contains `today`.
pub open spec fn streak_length(days: Seq<i32>, today: int) -> nat {
    streak_days(days, today).len()
}

/// The checked-in days as a set.
pub open spec fn day_set(days: Seq<i32>) -> Set<int> {
    Set::new(|d: int| checked_in(days, d))
}

/// Whether `day` is among `days`.
pub fn has_day(days: &Vec<i32>, day: i64) -> (b: bool)
    ensures
        b == checked_in(days@, day as int),
{
    let mut i: usize = 0;
    while i < days.len()
        invariant
            i <= days.len(),
            forall|j: int| 0 <= j < i ==> days@[j] as int != day,
        decreases days.len() - i,
    {
        if days[i] as i64 == day {
            return true;
        }
        i += 1;
    }
    false
}

/// The current streak on `today`: 0 when `today` has no check-in, else the
/// length of the run of consecutive checked-in days through `today` (days
/// after `today` that continue the run count too). Repeated days count once.
pub fn current_streak(days: &Vec<i32>, today: i32) -> (n: i64)
    ensures
        n == streak_length(days@, today as int),
{
    let t = today as i64;
    if !has_day(days, t) {
        proof {
            assert(streak_days(days@, t as int) =~= Set::empty());
        }
        return 0;
    }
    // Days t - below ..= t are all checked in.
    let mut below: i64 = 0;
    while has_day(days, t - below - 1)
        invariant
            i32::MIN <= t <= i32::MAX,
            0 <= below,
            t - below >= i32::MIN,
            unbroken(days@, t - below, t as int),
        decreases t - below - i32::MIN,
    {
        proof {
            let x = t - below - 1;
            let i = choose|i: int| 0 <= i < days@.len() && days@[i] as int == x;
            assert(days@[i] >= i32::MIN);
            assert forall|y: int| x <= y <= t implies #[trigger] checked_in(days@, y) by {
                if y > x {
                    assert(checked_in(days@, y));
                }
            }
        }
        below = below + 1;
    }
    // Days t ..= t + above are all checked in.
    let mut above: i64 = 0;
    while has_day(days, t + above + 1)
        invariant
            i32::MIN <= t <= i32::MAX,
            0 <= above,
            t + above <= i32::MAX,
            unbroken(days@, t as int, t + above),
        decreases i32::MAX - (t + above),
    {
        proof {
            let x = t + above + 1;
            let i = choose|i: int| 0 <= i < days@.len() && days@[i] as int == x;
            assert(days@[i] <= i32::MAX);
            assert forall|y: int| t <= y <= x implies #[trigger] checked_in(days@, y) by {
                if y < x {
                    assert(checked_in(days@, y));
                }
            }
        }
        above = above + 1;
    }
    proof {
        let lo = t - below;
        let hi = t + above + 1;
        assert(!checked_in(days@, lo - 1));
        assert(!checked_in(days@, hi));
        assert forall|d: int| #[trigger] streak_days(days@, t as int).contains(d) <==> set_int_range(lo, hi).contains(d) by {
            if d <= t {
                if d < lo {
                    if unbroken(days@, d, t as int) {
                        assert(checked_in(days@, lo - 1));
                    }
                } else {
                    assert forall|x: int| d <= x <= t implies #[trigger] checked_in(days@, x) by {
                        assert(lo <= x <= t);
                    }
                }
            } else {
                if d >= hi {
                    if unbroken(days@, t as int, d) {
                        assert(checked_in(days@, hi));
                    }
                } else {
                    assert forall|x: int| t <= x <= d implies #[trigger] checked_in(days@, x) by {
                        assert(t <= x <= hi - 1);
                    }
                }
            }
        }
        assert(streak_days(days@, t as int) =~= set_int_range(lo, hi));
        lemma_int_range(lo, hi);
    }
    below + above + 1
}

/// The checked-in days form a finite set with no more members than `days` has entries.
pub proof fn lemma_day_set_finite(days: Seq<i32>)
    ensures
        day_set(days).finite(),
        day_set(days).len() <= days.len(),
{
    let as_ints = days.map_values(|v: i32| v as int);
    assert forall|d: int| #[trigger] day_set(days).contains(d) <==> as_ints.to_set().contains(d) by {
        if day_set(days).contains(d) {
            let i = choose|i: int| 0 <= i < days.len() && days[i] as int == d;
            assert(as_ints[i] == d);
        }
        if as_ints.to_set().contains(d) {
            let i = choose|i: int| 0 <= i < as_ints.len() && as_ints[i] == d;
            assert(days[i] as int == d);
        }
    }
    assert(day_set(days) =~= as_ints.to_set());
    seq_to_set_is_finite(as_ints);
    as_ints.lemma_cardinality_of_set();
}

/// The run through `today` is a finite set of checked-in days.
pub proof fn lemma_streak_days_finite(days: Seq<i32>, today: int)
    ensures
        streak_days(days, today).subset_of(day_set(days)),
        streak_days(days, today).finite(),
        streak_length(days, today) <= days.len(),
        streak_length(days, today) <= 0x1_0000_0000,
{
    lemma_day_set_finite(days);
    let all_days = set_int_range(i32::MIN as int, i32::MAX + 1);
    assert forall|d: int| #[trigger] streak_days(days, today).contains(d) implies day_set(
        days,
    ).contains(d) && all_days.contains(d) by {
        assert(checked_in(days, d));
        let i = choose|i: int| 0 <= i < days.len() && days[i] as int == d;
    }
    lemma_len_subset(streak_days(days, today), day_set(days));
    lemma_int_range(i32::MIN as int, i32::MAX + 1);
    lemma_len_subset(streak_days(days, today), all_days);
}

/// A streak is running exactly when today has a check-in: with no check-in
/// today the streak is 0, whatever came before.
pub proof fn law_streak_positive_iff_checked_in_today(days: Seq<i32>, today: int)
    ensures
        streak_length(days, today) > 0 <==> checked_in(days, today),
{
    lemma_streak_days_finite(days, today);
    if checked_in(days, today) {
        assert(streak_days(days, today).contains(today));
    } else {
        assert(streak_days(days, today) =~= Set::empty());
    }
}

/// A streak never counts more days than were checked in.
pub proof fn law_streak_at_most_check_ins(days: Seq<i32>, today: int)
    ensures
        streak_length(days, today) <= day_set(days).len(),
        day_set(days).len() <= days.len(),
{
    lemma_day_set_finite(days);
    lemma_streak_days_finite(days, today);
    lemma_len_subset(streak_days(days, today), day_set(days));
}

/// Checking in today, with no check-in yet today or tomorrow, makes the
/// streak one longer than yesterday's.
pub proof fn law_check_in_extends_yesterday(days: Seq<i32>, today: i32)
    requires
        !checked_in(days, today as int),
        !checked_in(days, today + 1),
    ensures
        streak_length(days.push(today), today as int) == streak_length(days, today - 1) + 1,
{
    let t = today as int;
    let more = days.push(today);
    assert forall|x: int| #[trigger] checked_in(more, x) <==> (checked_in(days, x) || x == t) by {
        if checked_in(more, x) {
            let i = choose|i: int| 0 <= i < more.len() && more[i] as int == x;
            if i < days.len() {
                assert(days[i] as int == x);
            }
        }
        if checked_in(days, x) {
            let i = choose|i: int| 0 <= i < days.len() && days[i] as int == x;
            assert(more[i] as int == x);
        }
        if x == t {
            assert(more[days.len() as int] as int == x);
        }
    }
    let old_run = streak_days(days, t - 1);
    assert forall|d: int| #[trigger] streak_days(more, t).contains(d) <==> old_run.insert(t).contains(d) by {
        if d < t {
            if unbroken(more, d, t) {
                assert forall|x: int| d <= x <= t - 1 implies #[trigger] checked_in(days, x) by {
                    assert(checked_in(more, x));
                }
            }
            if old_run.contains(d) {
                assert forall|x: int| d <= x <= t implies #[trigger] checked_in(more, x) by {
                    if x < t {
                        assert(checked_in(days, x));
                    }
                }
            }
        } else if d > t {
            if unbroken(more, t, d) {
                assert(checked_in(more, t + 1));
            }
            if old_run.contains(d) {
                assert(checked_in(days, t));
            }
        } else {
            assert forall|x: int| t <= x <= t implies #[trigger] checked_in(more, x) by {}
        }
    }
    assert(streak_days(more, t) =~= old_run.insert(t));
    assert(!old_run.contains(t)) by {
        if old_run.contains(t) {
            assert(checked_in(days, t));
        }
    }
    lemma_streak_days_finite(days, t - 1);
}

/// More check-ins never shorten the streak: with every day of `fewer` also
/// among `more`, the streak over `more` is at least the one over `fewer`.
pub proof fn law_streak_monotone(fewer: Seq<i32>, more: Seq<i32>, today: int)
    requires
        forall|x: int| #[trigger] checked_in(fewer, x) ==> checked_in(more, x),
    ensures
        streak_length(fewer, today) <= streak_length(more, today),
{
    assert forall|d: int| #[trigger] streak_days(fewer, today).contains(d) implies streak_days(
        more,
        today,
    ).contains(d) by {
        if d <= today {
            assert forall|x: int| d <= x <= today implies #[trigger] checked_in(more, x) by {
                assert(checked_in(fewer, x));
            }
        } else {
            assert forall|x: int| today <= x <= d implies #[trigger] checked_in(more, x) by {
                assert(checked_in(fewer, x));
            }
        }
    }
    lemma_streak_days_finite(more, today);
    lemma_len_subset(streak_days(fewer, today), streak_days(more, today));
}

/// A checked-in day is a day of the list: an `i32` that the list contains.
pub proof fn lemma_checked_in_is_contains(days: Seq<i32>, x: int)
    ensures
        checked_in(days, x) <==> (i32::MIN <= x <= i32::MAX && days.contains(x as i32)),
{
    if checked_in(days, x) {
        let i = choose|i: int| 0 <= i < days.len() && days[i] as int == x;
        assert(days[i] == x as i32);
    }
    if i32::MIN <= x <= i32::MAX && days.contains(x as i32) {
        let i = choose|i: int| 0 <= i < days.len() && days[i] == x as i32;
        assert(days[i] as int == x);
    }
}

/// The streak is the length of the run through today: when the list holds
/// every day from `first` through `last`, today among them, and holds
/// neither the day before `first` nor the day after `last`, the streak is
/// `last - first + 1`, however long the run.
pub proof fn law_streak_is_run_length(days: Seq<i32>, today: i32, first: i32, last: i32)
    requires
        first <= today <= last,
        forall|x: i32| first <= x <= last ==> days.contains(x),
        first > i32::MIN ==> !days.contains((first - 1) as i32),
        last < i32::MAX ==> !days.contains((last + 1) as i32),
    ensures
        streak_length(days, today as int) == last - first + 1,
{
    let lo = first as int;
    let hi = last + 1;
    assert forall|x: int| lo <= x < hi implies #[trigger] checked_in(days, x) by {
        lemma_checked_in_is_contains(days, x);
        assert(days.contains(x as i32));
    }
    assert(!checked_in(days, lo - 1)) by {
        lemma_checked_in_is_contains(days, lo - 1);
    }
    assert(!checked_in(days, hi)) by {
        lemma_checked_in_is_contains(days, hi);
    }
    assert forall|d: int| #[trigger] streak_days(days, today as int).contains(d) <==> set_int_range(lo, hi).contains(d) by {
        if d <= today {
            if d < lo {
                if unbroken(days, d, today as int) {
                    assert(checked_in(days, lo - 1));
                }
            } else {
                assert forall|x: int| d <= x <= today implies #[trigger] checked_in(days, x) by {
                    assert(lo <= x < hi);
                }
            }
        } else {
            if d >= hi {
                if unbroken(days, today as int, d) {
                    assert(checked_in(days, hi));
                }
            } else {
                assert forall|x: int| today <= x <= d implies #[trigger] checked_in(days, x) by {
                    assert(lo <= x < hi);
                }
            }
        }
    }
    assert(streak_days(days, today as int) =~= set_int_range(lo, hi));
    lemma_int_range(lo, hi);
}

} // verus!
