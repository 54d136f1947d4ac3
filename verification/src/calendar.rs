//! Calendar dates in UTC, the ISO week a date lies in, and the text a date is
//! reported with.

use vstd::prelude::*;
use vstd::string::StringExecFns;
use crate::text::decimal;
use crate::text::push_decimal_u64;
use crate::text::push_signed_decimal;
use crate::text::signed_decimal;

verus! {

/// The first year a date can lie in.
pub const MIN_YEAR: i32 = -9999;

/// The last year a date can lie in.
pub const MAX_YEAR: i32 = 9999;

/// A day of the proleptic Gregorian calendar.
#[derive(Clone, Copy, Debug, PartialEq, Eq, Structural)]
pub struct CalendarDate {
    pub year: i32,
    /// 1 for January through 12 for December.
    pub month: u8,
    pub day: u8,
}

/// A second of a day, in UTC.
#[derive(Clone, Copy, Debug, PartialEq, Eq, Structural)]
pub struct DateTime {
    pub date: CalendarDate,
    pub hour: u8,
    pub minute: u8,
    pub second: u8,
}

/// Whether `year` has a 29th of February.
pub open spec fn is_leap_year(year: int) -> bool {
    year % 4 == 0 && (year % 100 != 0 || year % 400 == 0)
}

/// The number of days of month `month` of `year`.
pub open spec fn days_in_month(year: int, month: int) -> int {
    if month == 2 {
        if is_leap_year(year) {
            29
        } else {
            28
        }
    } else if month == 4 || month == 6 || month == 9 || month == 11 {
        30
    } else {
        31
    }
}

/// Whether year, month and day name a day of the calendar.
pub open spec fn is_calendar_day(year: int, month: int, day: int) -> bool {
    &&& MIN_YEAR <= year <= MAX_YEAR
    &&& 1 <= month <= 12
    &&& 1 <= day <= days_in_month(year, month)
}

/// The number of the ISO 8601 week that a day lies in, as `time` computes it.
pub uninterp spec fn iso_week_number(year: int, month: int, day: int) -> int;

/// The day with the given weekday (1 for Monday through 7 for Sunday) in the
/// given week of the given ISO year, as `time` computes it: year, month and
/// day, or `None` where `time` knows no such day.
pub uninterp spec fn iso_week_day(year: int, week: int, weekday: int) -> Option<(int, int, int)>;

impl CalendarDate {
    /// Whether the date names a day of the calendar.
    pub open spec fn is_valid(&self) -> bool {
        is_calendar_day(self.year as int, self.month as int, self.day as int)
    }

    /// Whether the date names a day of the calendar.
    pub fn is_valid_date(&self) -> (valid: bool)
        ensures
            valid == self.is_valid(),
    {
        if self.year < MIN_YEAR || self.year > MAX_YEAR || self.month < 1 || self.month > 12
            || self.day < 1 {
            return false;
        }
        let leap = self.year % 4 == 0 && (self.year % 100 != 0 || self.year % 400 == 0);
        let days: u8 = if self.month == 2 {
            if leap {
                29
            } else {
                28
            }
        } else if self.month == 4 || self.month == 6 || self.month == 9 || self.month == 11 {
            30
        } else {
            31
        };
        self.day <= days
    }

    /// The first second of the day.
    pub fn midnight(self) -> (moment: DateTime)
        ensures
            moment == (DateTime { date: self, hour: 0, minute: 0, second: 0 }),
    {
        DateTime { date: self, hour: 0, minute: 0, second: 0 }
    }

    /// The last second of the day.
    pub fn last_second(self) -> (moment: DateTime)
        ensures
            moment == (DateTime { date: self, hour: 23, minute: 59, second: 59 }),
    {
        DateTime { date: self, hour: 23, minute: 59, second: 59 }
    }
}

/// The date that the numbers name, where there are any and they name a day
/// of the calendar.
pub open spec fn date_of(parts: Option<(int, int, int)>) -> Option<CalendarDate> {
    match parts {
        Some((year, month, day)) => if is_calendar_day(year, month, day) {
            Some(CalendarDate { year: year as i32, month: month as u8, day: day as u8 })
        } else {
            None
        },
        None => None,
    }
}

/// The numbers of a day as integers.
pub open spec fn day_numbers(parts: Option<(i32, u8, u8)>) -> Option<(int, int, int)> {
    match parts {
        Some((year, month, day)) => Some((year as int, month as int, day as int)),
        None => None,
    }
}

/// `Date::iso_week` of the `time` crate, on the day that `date` names: the
/// number of the ISO week the day lies in, which is between 1 and 53.
#[verifier::external_body]
fn iso_week_of(date: &CalendarDate) -> (week: u8)
    requires
        date.is_valid(),
    ensures
        week == iso_week_number(date.year as int, date.month as int, date.day as int),
        1 <= week <= 53,
{
    let month = time::Month::try_from(date.month).unwrap();
    time::Date::from_calendar_date(date.year, month, date.day).unwrap().iso_week()
}

/// `Date::from_iso_week_date` of the `time` crate, with the weekday given by
/// its number from Monday: year, month and day of the day it finds, or `None`
/// where it reports that there is no such day.
#[verifier::external_body]
fn day_of_iso_week(year: i32, week: u8, weekday: u8) -> (found: Option<(i32, u8, u8)>)
    requires
        1 <= weekday <= 7,
    ensures
        day_numbers(found) == iso_week_day(year as int, week as int, weekday as int),
{
    let weekday = time::Weekday::Sunday.nth_next(weekday);
    match time::Date::from_iso_week_date(year, week, weekday) {
        Ok(date) => Some((date.year(), u8::from(date.month()), date.day())),
        Err(_) => None,
    }
}

/// `OffsetDateTime::now_utc` of the `time` crate: year, month and day of the
/// day it is in UTC.
#[verifier::external_body]
fn today_utc() -> (today: (i32, u8, u8))
{
    let now = time::OffsetDateTime::now_utc();
    (now.year(), u8::from(now.month()), now.day())
}

/// The date that the numbers name, where they name a day of the calendar.
pub fn checked_date(parts: Option<(i32, u8, u8)>) -> (date: Option<CalendarDate>)
    ensures
        date == date_of(day_numbers(parts)),
{
    match parts {
        Some((year, month, day)) => {
            let date = CalendarDate { year, month, day };
            if date.is_valid_date() {
                Some(date)
            } else {
                None
            }
        },
        None => None,
    }
}

/// The first and the last second of the week that lies between `monday` and
/// `sunday`, where both days are known.
pub open spec fn week_between(monday: Option<CalendarDate>, sunday: Option<CalendarDate>) -> Option<
    (DateTime, DateTime),
> {
    match (monday, sunday) {
        (Some(first), Some(last)) => Some(
            (
                DateTime { date: first, hour: 0, minute: 0, second: 0 },
                DateTime { date: last, hour: 23, minute: 59, second: 59 },
            ),
        ),
        _ => None,
    }
}

/// The first and the last second of the week of `date`: the Monday and the
/// Sunday of the week with the ISO week number of `date`, taken in the
/// calendar year of `date`. `None` where that year has no such week.
pub open spec fn week_of(date: CalendarDate) -> Option<(DateTime, DateTime)> {
    let week = iso_week_number(date.year as int, date.month as int, date.day as int);
    week_between(
        date_of(iso_week_day(date.year as int, week, 1)),
        date_of(iso_week_day(date.year as int, week, 7)),
    )
}

/// The first second of `monday` and the last second of `sunday`, where both
/// days are known.
pub fn week_from_days(monday: Option<CalendarDate>, sunday: Option<CalendarDate>) -> (bounds:
    Option<(DateTime, DateTime)>)
    ensures
        bounds == week_between(monday, sunday),
{
    match (monday, sunday) {
        (Some(first), Some(last)) => Some((first.midnight(), last.last_second())),
        _ => None,
    }
}

/// The first and the last second of the week of `date`.
pub fn week_start_end_of(date: &CalendarDate) -> (bounds: Option<(DateTime, DateTime)>)
    requires
        date.is_valid(),
    ensures
        bounds == week_of(*date),
{
    let week = iso_week_of(date);
    let monday = checked_date(day_of_iso_week(date.year, week, 1));
    let sunday = checked_date(day_of_iso_week(date.year, week, 7));
    week_from_days(monday, sunday)
}

/// The first and the last second of the week of `base_date`, or of today
/// where no date is given. `None` where the calendar year of the date has no
/// week with the ISO week number of the date, and where the date names no day
/// of the calendar.
pub fn get_week_start_end(base_date: Option<CalendarDate>) -> (bounds: Option<(DateTime, DateTime)>)
    ensures
        base_date matches Some(date) ==> bounds == if date.is_valid() {
            week_of(date)
        } else {
            None
        },
        base_date is None ==> bounds is None || exists|today: CalendarDate|
            today.is_valid() && bounds == week_of(today),
{
    let date = match base_date {
        Some(date) => Some(date),
        None => checked_date(Some(today_utc())),
    };
    match date {
        Some(day) => if day.is_valid_date() {
            week_start_end_of(&day)
        } else {
            None
        },
        None => None,
    }
}

/// The English name of month `month`, 1 for January through 12 for December.
pub open spec fn month_name(month: int) -> Seq<char> {
    if month == 1 {
        "January"@
    } else if month == 2 {
        "February"@
    } else if month == 3 {
        "March"@
    } else if month == 4 {
        "April"@
    } else if month == 5 {
        "May"@
    } else if month == 6 {
        "June"@
    } else if month == 7 {
        "July"@
    } else if month == 8 {
        "August"@
    } else if month == 9 {
        "September"@
    } else if month == 10 {
        "October"@
    } else if month == 11 {
        "November"@
    } else {
        "December"@
    }
}

/// The text a date is reported with: the name of the month, the day and the
/// year, with hyphens between them, as in "August-6-2022".
pub open spec fn date_text(date: CalendarDate) -> Seq<char> {
    month_name(date.month as int) + seq!['-'] + decimal(date.day as nat) + seq!['-']
        + signed_decimal(date.year as int)
}

/// The English name of month `month`.
pub fn month_name_of(month: u8) -> (name: &'static str)
    requires
        1 <= month <= 12,
    ensures
        name@ == month_name(month as int),
{
    match month {
        1 => "January",
        2 => "February",
        3 => "March",
        4 => "April",
        5 => "May",
        6 => "June",
        7 => "July",
        8 => "August",
        9 => "September",
        10 => "October",
        11 => "November",
        _ => "December",
    }
}

/// Writes a date as it is reported: the name of the month, the day and the
/// year, with hyphens between them.
pub fn format_date(date: CalendarDate) -> (text: String)
    requires
        1 <= date.month <= 12,
    ensures
        text@ == date_text(date),
{
    let mut text = month_name_of(date.month).to_owned();
    text.push('-');
    push_decimal_u64(&mut text, date.day as u64);
    text.push('-');
    push_signed_decimal(&mut text, date.year as i64);
    assert(text@ =~= date_text(date));
    text
}

} // verus!
