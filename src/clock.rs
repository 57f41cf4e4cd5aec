//! Wall-clock time as day numbers and weekdays.

use vstd::prelude::*;

verus! {

/// Relies on chrono's `Utc::now` and `DateTime::timestamp`: the current wall
/// clock in whole seconds since the Unix epoch. Nothing is promised of its
/// value.
#[verifier::external_body]
pub(crate) fn now_unix_seconds() -> (r: i64) {
    chrono::Utc::now().timestamp()
}

/// Seconds in a day.
pub const SECONDS_PER_DAY: i64 = 86400;

/// The UTC day number (days since 1970-01-01) of a timestamp.
pub open spec fn day_of(ts: i64) -> int {
    ts as int / SECONDS_PER_DAY as int
}

/// The UTC day number of a timestamp.
pub fn day_number(ts: i64) -> (r: i64)
    ensures
        r == day_of(ts),
{
    if ts >= 0 {
        ts / SECONDS_PER_DAY
    } else {
        let pos: i64 = -(ts + 1);
        let q = pos / SECONDS_PER_DAY;
        assert(-(q as int) - 1 == ts as int / 86400) by (nonlinear_arith)
            requires
                pos as int == -(ts as int + 1),
                pos >= 0,
                q as int == pos as int / 86400,
        ;
        -q - 1
    }
}

/// A day of the week.
#[derive(Clone, Copy, Debug, PartialEq, Eq, Structural)]
pub enum Weekday {
    Mon,
    Tue,
    Wed,
    Thu,
    Fri,
    Sat,
    Sun,
}

/// The weekday of a day number: 1970-01-01 was a Thursday.
pub open spec fn weekday_of_day(day: int) -> Weekday {
    let k = (day + 3) % 7;
    if k == 0 {
        Weekday::Mon
    } else if k == 1 {
        Weekday::Tue
    } else if k == 2 {
        Weekday::Wed
    } else if k == 3 {
        Weekday::Thu
    } else if k == 4 {
        Weekday::Fri
    } else if k == 5 {
        Weekday::Sat
    } else {
        Weekday::Sun
    }
}

/// The weekday of a day number.
pub fn weekday_of(day: i64) -> (r: Weekday)
    ensures
        r == weekday_of_day(day as int),
{
    let k = ((day % 7) + 10) % 7;
    assert(k as int == (day as int + 3) % 7) by (nonlinear_arith)
        requires
            k == ((day % 7) + 10) % 7,
    ;
    if k == 0 {
        Weekday::Mon
    } else if k == 1 {
        Weekday::Tue
    } else if k == 2 {
        Weekday::Wed
    } else if k == 3 {
        Weekday::Thu
    } else if k == 4 {
        Weekday::Fri
    } else if k == 5 {
        Weekday::Sat
    } else {
        Weekday::Sun
    }
}

/// Lowercase English name of a weekday.
pub open spec fn weekday_name(w: Weekday) -> Seq<char> {
    match w {
        Weekday::Mon => "monday"@,
        Weekday::Tue => "tuesday"@,
        Weekday::Wed => "wednesday"@,
        Weekday::Thu => "thursday"@,
        Weekday::Fri => "friday"@,
        Weekday::Sat => "saturday"@,
        Weekday::Sun => "sunday"@,
    }
}

/// Lowercase English name of a weekday.
pub fn weekday_to_string(w: Weekday) -> (r: String)
    ensures
        r@ == weekday_name(w),
{
    match w {
        Weekday::Mon => "monday".to_owned(),
        Weekday::Tue => "tuesday".to_owned(),
        Weekday::Wed => "wednesday".to_owned(),
        Weekday::Thu => "thursday".to_owned(),
        Weekday::Fri => "friday".to_owned(),
        Weekday::Sat => "saturday".to_owned(),
        Weekday::Sun => "sunday".to_owned(),
    }
}

/// Saturday and Sunday.
pub fn is_weekend(w: Weekday) -> (r: bool)
    ensures
        r == (w == Weekday::Sat || w == Weekday::Sun),
{
    matches!(w, Weekday::Sat | Weekday::Sun)
}

} // verus!
