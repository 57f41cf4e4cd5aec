//! Daily limits and remaining time.

use vstd::prelude::*;

use crate::clock::{Weekday, is_weekend, weekday_of, day_number, weekday_of_day, now_unix_seconds};
use crate::limits_config::{ChildProfile, CustomDayLimit, TimeLimit, limit_seconds, lower_of, lowercase};
use crate::usage::{AdminOverride, override_applies};

verus! {

/// The limit of the first custom rule naming `day` (compared in lowercase).
pub open spec fn custom_limit(rules: Seq<CustomDayLimit>, day: Seq<char>) -> Option<TimeLimit>
    decreases rules.len(),
{
    if rules.len() == 0 {
        None
    } else if exists|d: int| 0 <= d < rules[0].days@.len() && lower_of((#[trigger] rules[0].days@[d])@) == day {
        Some(rules[0].limit)
    } else {
        custom_limit(rules.drop_first(), day)
    }
}

/// A child's limit on a day: the first custom rule naming the day wins,
/// else the weekend limit on Saturday and Sunday and the weekday limit
/// otherwise.
pub open spec fn limit_for_day(child: ChildProfile, day: Seq<char>, w: Weekday) -> TimeLimit {
    match custom_limit(child.limits.custom@, day) {
        Some(l) => l,
        None => if w == Weekday::Sat || w == Weekday::Sun { child.limits.weekend } else { child.limits.weekday },
    }
}

/// Seconds left of a limit: `limit + additional − used`, at least 0 (and at
/// most the largest `i64`).
pub open spec fn remaining_of(limit: int, used: int, additional: int) -> int {
    let r = limit + additional - used;
    if r < 0 { 0 } else if r > i64::MAX { i64::MAX as int } else { r }
}

/// The sum of the extra seconds that overrides grant `child_id` on day `today`.
pub open spec fn override_sum(overrides: Seq<AdminOverride>, child_id: Seq<char>, today: int) -> int
    decreases overrides.len(),
{
    if overrides.len() == 0 {
        0
    } else {
        let o = overrides.last();
        override_sum(overrides.drop_last(), child_id, today) + if override_applies(o, child_id, today) {
            o.additional_seconds->0 as int
        } else {
            0
        }
    }
}

/// An integer clamped into the range of `i64`.
pub open spec fn clamp_i64(x: int) -> int {
    if x < i64::MIN { i64::MIN as int } else if x > i64::MAX { i64::MAX as int } else { x }
}

/// Works out daily limits and remaining time.
pub struct ScheduleCalculator;

impl ScheduleCalculator {
    /// Whether some name among `days` is `day` once lowercased.
    fn names_day(days: &Vec<String>, day: &String) -> (r: bool)
        ensures
            r == exists|d: int| 0 <= d < days@.len() && lower_of((#[trigger] days@[d])@) == day@,
    {
        let mut i: usize = 0;
        while i < days.len()
            invariant
                i <= days@.len(),
                forall|d: int| 0 <= d < i ==> lower_of((#[trigger] days@[d])@) != day@,
            decreases days@.len() - i,
        {
            let l = lowercase(days[i].as_str());
            if l == *day {
                return true;
            }
            i = i + 1;
        }
        false
    }

    /// A child's limit on the day named `day_name` (any case) with weekday `weekday`.
    pub fn get_limit_for_day(child: &ChildProfile, day_name: &str, weekday: Weekday) -> (r: TimeLimit)
        ensures
            r == limit_for_day(*child, lower_of(day_name@), weekday),
    {
        let day = lowercase(day_name);
        let rules = &child.limits.custom;
        let mut i: usize = 0;
        assert(rules@.subrange(0, rules@.len() as int) =~= rules@);
        while i < rules.len()
            invariant
                i <= rules@.len(),
                rules@ == child.limits.custom@,
                day@ == lower_of(day_name@),
                custom_limit(rules@, day@) == custom_limit(rules@.subrange(i as int, rules@.len() as int), day@),
            decreases rules@.len() - i,
        {
            let ghost rest = rules@.subrange(i as int, rules@.len() as int);
            assert(rest.drop_first() =~= rules@.subrange(i + 1, rules@.len() as int));
            assert(rest[0] == rules@[i as int]);
            if Self::names_day(&rules[i].days, &day) {
                return rules[i].limit;
            }
            i = i + 1;
        }
        assert(rules@.subrange(i as int, rules@.len() as int) =~= Seq::<CustomDayLimit>::empty());
        if is_weekend(weekday) {
            child.limits.weekend
        } else {
            child.limits.weekday
        }
    }

    /// A child's limit on the UTC day `day` (a day number).
    pub fn get_limit_for_day_number(child: &ChildProfile, day: i64) -> (r: TimeLimit)
        ensures
            r == limit_for_day(*child, lower_of(crate::clock::weekday_name(weekday_of_day(day as int))), weekday_of_day(day as int)),
    {
        let w = weekday_of(day);
        let name = crate::clock::weekday_to_string(w);
        Self::get_limit_for_day(child, name.as_str(), w)
    }

    /// A child's limit today.
    pub fn get_limit_for_today(child: &ChildProfile) -> (r: TimeLimit)
        ensures
            exists|day: int| r == limit_for_day(*child, lower_of(crate::clock::weekday_name(weekday_of_day(day))), weekday_of_day(day)),
    {
        let today = day_number(now_unix_seconds());
        Self::get_limit_for_day_number(child, today)
    }

    /// Seconds left of a limit given the seconds used and granted.
    pub fn remaining_from_limit(limit: TimeLimit, used_seconds: i64, additional_seconds: i64) -> (r: i64)
        ensures
            r == remaining_of(limit_seconds(limit), used_seconds as int, additional_seconds as int),
    {
        let total: i128 = limit.to_seconds() as i128 + additional_seconds as i128 - used_seconds as i128;
        if total < 0 {
            0
        } else if total > i64::MAX as i128 {
            i64::MAX
        } else {
            total as i64
        }
    }

    /// Seconds left for a child on UTC day `day`.
    pub fn remaining_time_on(child: &ChildProfile, day: i64, used_seconds: i64, additional_seconds: Option<i64>) -> (r: i64)
        ensures
            r == remaining_of(
                limit_seconds(limit_for_day(*child, lower_of(crate::clock::weekday_name(weekday_of_day(day as int))), weekday_of_day(day as int))),
                used_seconds as int,
                match additional_seconds { Some(a) => a as int, None => 0 },
            ),
            0 <= r,
            used_seconds >= 0 && (match additional_seconds { Some(a) => a as int, None => 0 }) >= 0 ==> r <= limit_seconds(limit_for_day(*child, lower_of(crate::clock::weekday_name(weekday_of_day(day as int))), weekday_of_day(day as int)))
                + match additional_seconds { Some(a) => a as int, None => 0 },
    {
        let limit = Self::get_limit_for_day_number(child, day);
        let extra = match additional_seconds { Some(a) => a, None => 0 };
        Self::remaining_from_limit(limit, used_seconds, extra)
    }

    /// Seconds left for a child today: never negative, and never more than
    /// the day's limit plus the extra seconds.
    pub fn calculate_remaining_time(child: &ChildProfile, used_seconds: i64, additional_seconds: Option<i64>) -> (r: i64)
        ensures
            exists|day: int| #![trigger weekday_of_day(day)] {
                let limit = limit_seconds(limit_for_day(*child, lower_of(crate::clock::weekday_name(weekday_of_day(day))), weekday_of_day(day)));
                let extra = match additional_seconds { Some(a) => a as int, None => 0 };
                &&& r == remaining_of(limit, used_seconds as int, extra)
                &&& (used_seconds >= 0 && extra >= 0 ==> r <= limit + extra)
            },
            r >= 0,
    {
        let today = day_number(now_unix_seconds());
        Self::remaining_time_on(child, today, used_seconds, additional_seconds)
    }

    /// Extra seconds granted to a child by the overrides of UTC day `today`
    /// (clamped into `i64`).
    pub fn get_today_overrides(child_id: &str, overrides: &Vec<AdminOverride>, today: i64) -> (r: i64)
        ensures
            r == clamp_i64(override_sum(overrides@, child_id@, today as int)),
    {
        let mut sum: i128 = 0;
        let mut i: usize = 0;
        while i < overrides.len()
            invariant
                i <= overrides@.len(),
                sum == override_sum(overrides@.subrange(0, i as int), child_id@, today as int),
                -(i as int) * 0x8000_0000_0000_0000 <= sum <= (i as int) * 0x8000_0000_0000_0000,
                i <= usize::MAX,
            decreases overrides@.len() - i,
        {
            let ghost prefix = overrides@.subrange(0, i + 1);
            assert(prefix.drop_last() =~= overrides@.subrange(0, i as int));
            let o = &overrides[i];
            if crate::usage::applies_to(o, child_id, today) {
                match o.additional_seconds {
                    Some(a) => {
                        assert(-(i as int + 1) * 0x8000_0000_0000_0000 <= sum + a <= (i as int + 1) * 0x8000_0000_0000_0000) by (nonlinear_arith)
                            requires
                                -(i as int) * 0x8000_0000_0000_0000 <= sum <= (i as int) * 0x8000_0000_0000_0000,
                                i64::MIN <= a <= i64::MAX,
                        ;
                        assert((i as int + 1) * 0x8000_0000_0000_0000 <= 0x8000_0000_0000_0000 * 0x1_0000_0000_0000_0000) by (nonlinear_arith)
                            requires
                                i < usize::MAX,
                        ;
                        sum = sum + a as i128;
                    },
                    None => {},
                }
            } else {
                assert(-(i as int + 1) * 0x8000_0000_0000_0000 <= sum <= (i as int + 1) * 0x8000_0000_0000_0000) by (nonlinear_arith)
                    requires
                        -(i as int) * 0x8000_0000_0000_0000 <= sum <= (i as int) * 0x8000_0000_0000_0000,
                ;
            }
            i = i + 1;
        }
        assert(overrides@.subrange(0, overrides@.len() as int) =~= overrides@);
        if sum < i64::MIN as i128 {
            i64::MIN
        } else if sum > i64::MAX as i128 {
            i64::MAX
        } else {
            sum as i64
        }
    }
}

} // verus!
