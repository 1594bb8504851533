//! Days of the calendar. A day is given by its number, where January 1 of the year 1 is day 1.

use chrono::{DateTime, Datelike, Utc};
use vstd::prelude::*;

verus! {

/// The number of January 1, 1970.
pub const EPOCH_DAY: i32 = 719163;

/// The first day of the calendar.
pub const FIRST_DAY: i32 = -95746129;

/// The last day of the calendar.
pub const LAST_DAY: i32 = 95745399;

/// The day on which, in UTC, `seconds` since the Unix epoch have passed; `None` outside the calendar.
pub open spec fn day_of(seconds: int) -> Option<int> {
    let day = EPOCH_DAY + seconds / 86400;
    if FIRST_DAY <= day <= LAST_DAY {
        Some(day)
    } else {
        None
    }
}

/// The date of a point in time, by `chrono::DateTime::date_naive`. Claimed is that the point which
/// `DateTime::from_timestamp` makes of a number of seconds lies on the day that full days of 86400
/// seconds since January 1, 1970 lead to, as `num_days_from_ce` counts days, and that there is such
/// a point if and only if that day lies between January 1, -262143 and December 31, 262142.
#[verifier::external_body]
pub(crate) fn utc_day(seconds: i64) -> (day: Option<i32>)
    ensures
        day is Some <==> day_of(seconds as int) is Some,
        day matches Some(d) ==> d as int == day_of(seconds as int)->0,
{
    match DateTime::from_timestamp(seconds, 0) {
        Some(point) => Some(point.date_naive().num_days_from_ce()),
        None => None,
    }
}

/// Whether a clock can show the day `day`: it is not before January 1, 1970, and in the calendar.
pub open spec fn can_be_today(day: i32) -> bool {
    EPOCH_DAY <= day <= LAST_DAY
}

/// The current day in UTC, by `chrono::Utc::now` and `num_days_from_ce`. It depends on the clock of
/// the machine. Claimed is only that the day is not before January 1, 1970, where `Utc::now` begins,
/// and lies in the calendar.
#[verifier::external_body]
pub(crate) fn utc_today() -> (day: i32)
    ensures
        can_be_today(day),
{
    Utc::now().date_naive().num_days_from_ce()
}

/// Tells whether `seconds` since the Unix epoch lies, in UTC, on the day `today`.
pub fn falls_on(seconds: i64, today: i32) -> (b: bool)
    ensures
        b == (day_of(seconds as int) == Some(today as int)),
{
    match utc_day(seconds) {
        Some(day) => day == today,
        None => false,
    }
}

/// Every second of a day lies on that day, and no other second does.
pub proof fn day_holds_its_seconds(seconds: int, day: int)
    requires
        FIRST_DAY <= day <= LAST_DAY,
    ensures
        day_of(seconds) == Some(day) <==> (day - EPOCH_DAY) * 86400 <= seconds < (day - EPOCH_DAY + 1)
            * 86400,
{
}

/// A day begins every 86400 seconds, and the one that begins at second zero is January 1, 1970, day 719163.
/// The calendar reaches from January 1, -262143 to December 31, 262142, and nothing outside it lies on a
/// day. A clock shows no day before that of second zero.
pub proof fn days_are_counted_from_the_epoch(seconds: int, day: i32)
    ensures
        day_of(0) == Some(719163int),
        day_of(seconds) is Some && day_of(seconds + 86400) is Some ==> day_of(seconds + 86400)->0
            == day_of(seconds)->0 + 1,
        day_of(seconds) is Some <==> (-95746129 - 719163) * 86400 <= seconds < (95745399 - 719162) * 86400,
        can_be_today(day) <==> 719163 <= day <= 95745399,
{
}

} // verus!
