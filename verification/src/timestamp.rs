//! Timestamps as calendar dates.

use crate::model::MXFTimestamp;
use chrono::{NaiveDate, NaiveDateTime};
use vstd::prelude::*;

verus! {

/// chrono's `NaiveDate`, a calendar date. Nothing is claimed of what a value
/// holds.
#[verifier::external_type_specification]
#[verifier::external_body]
pub struct ExNaiveDate(chrono::NaiveDate);

/// chrono's `NaiveDateTime`, a calendar date with a time of day. Nothing is
/// claimed of what a value holds.
#[verifier::external_type_specification]
#[verifier::external_body]
pub struct ExNaiveDateTime(chrono::NaiveDateTime);

/// Whether `year` has a 29th of February in the Gregorian calendar, carried
/// back before its introduction.
pub open spec fn spec_is_leap_year(year: int) -> bool {
    year % 4 == 0 && (year % 100 != 0 || year % 400 == 0)
}

/// The number of days of the month `month` of `year`; zero where there is no
/// such month.
pub open spec fn spec_days_in_month(year: int, month: int) -> int {
    if month == 2 {
        if spec_is_leap_year(year) {
            29
        } else {
            28
        }
    } else if month == 4 || month == 6 || month == 9 || month == 11 {
        30
    } else if 1 <= month <= 12 {
        31
    } else {
        0
    }
}

/// Whether the calendar has the day `day` of the month `month` of `year`.
pub open spec fn spec_is_calendar_day(year: int, month: int, day: int) -> bool {
    1 <= day <= spec_days_in_month(year, month)
}

/// Whether a day has the time `hour:min:sec`. Leap seconds are not counted.
pub open spec fn spec_is_time_of_day(hour: int, min: int, sec: int) -> bool {
    0 <= hour < 24 && 0 <= min < 60 && 0 <= sec < 60
}

/// Calls chrono's `NaiveDate::from_ymd_opt`. The contract claims that a date
/// comes back exactly where the year lies in chrono's range, from -262143 to
/// 262142, and the calendar has the day.
#[verifier::external_body]
fn naive_date(year: i32, month: u32, day: u32) -> (date: Option<NaiveDate>)
    ensures
        date.is_some() == (-262143 <= year <= 262142 && spec_is_calendar_day(
            year as int,
            month as int,
            day as int,
        )),
{
    NaiveDate::from_ymd_opt(year, month, day)
}

/// Calls chrono's `NaiveDate::and_hms_opt`. The contract claims that a date
/// and time comes back exactly where the hour is below 24 and the minute and
/// the second are below 60.
#[verifier::external_body]
fn naive_date_and_hms(date: &NaiveDate, hour: u32, min: u32, sec: u32) -> (datetime: Option<
    NaiveDateTime,
>)
    ensures
        datetime.is_some() == spec_is_time_of_day(hour as int, min as int, sec as int),
{
    date.and_hms_opt(hour, min, sec)
}

impl MXFTimestamp {
    /// Whether the timestamp names a day that the calendar has and a time
    /// that a day has.
    pub open spec fn spec_is_calendar_time(self) -> bool {
        &&& spec_is_calendar_day(self.year as int, self.month as int, self.day as int)
        &&& spec_is_time_of_day(self.hour as int, self.min as int, self.sec as int)
    }

    /// The date and time of the timestamp to the second, where the calendar
    /// has it. The fraction of the second is left out.
    pub fn to_naive_datetime(&self) -> (datetime: Option<NaiveDateTime>)
        ensures
            datetime.is_some() == self.spec_is_calendar_time(),
    {
        match naive_date(self.year as i32, self.month as u32, self.day as u32) {
            Some(date) => naive_date_and_hms(
                &date,
                self.hour as u32,
                self.min as u32,
                self.sec as u32,
            ),
            None => None,
        }
    }
}

} // verus!
