//! Reading record fields that arrive as text or loosely-typed numbers.
//!
//! The seed data stores booleans as `0`/`1` and timestamps as
//! `YYYY-MM-DD HH:MM:SS` with an optional three-digit fraction. A parsed
//! timestamp is held as plain calendar fields under an invariant: months
//! and days in range for the year, a millisecond above 999 standing for a
//! leap second, as the underlying time library represents it.

use vstd::prelude::*;

verus! {

/// A leap year: divisible by four, except century years not divisible by
/// four hundred.
pub open spec fn spec_is_leap_year(year: int) -> bool {
    year % 4 == 0 && (year % 100 != 0 || year % 400 == 0)
}

/// Days in a month of a year.
pub open spec fn spec_days_in_month(year: int, month: int) -> int
    recommends
        1 <= month <= 12,
{
    if month == 2 {
        if spec_is_leap_year(year) {
            29
        } else {
            28
        }
    } else if month == 4 || month == 6 || month == 9 || month == 11 {
        30
    } else {
        31
    }
}

/// A calendar timestamp, held as plain fields.
#[derive(Debug, Clone, Copy, PartialEq, Eq, Structural)]
pub struct Timestamp {
    /// Calendar year.
    pub year: i32,
    /// Month, 1 to 12.
    pub month: u8,
    /// Day of month, 1 up to the month's length.
    pub day: u8,
    /// Hour, 0 to 23.
    pub hour: u8,
    /// Minute, 0 to 59.
    pub minute: u8,
    /// Second, 0 to 59.
    pub second: u8,
    /// Millisecond, 0 to 999; 1000 to 1999 during a leap second.
    pub millisecond: u16,
}

/// The fields fit the calendar.
pub open spec fn valid_timestamp(t: Timestamp) -> bool {
    &&& 1 <= t.month <= 12
    &&& 1 <= t.day <= spec_days_in_month(t.year as int, t.month as int)
    &&& t.hour <= 23
    &&& t.minute <= 59
    &&& t.second <= 59
    &&& t.millisecond <= 1999
}

/// The timestamp made of raw parsed fields, when they fit the calendar.
pub open spec fn spec_timestamp_from_parts(
    year: int,
    month: int,
    day: int,
    hour: int,
    minute: int,
    second: int,
    nanosecond: int,
) -> Option<Timestamp> {
    if 1 <= month <= 12 && 1 <= day <= spec_days_in_month(year, month) && hour <= 23 && minute
        <= 59 && second <= 59 && 0 <= nanosecond <= 1_999_999_999 {
        Some(
            Timestamp {
                year: year as i32,
                month: month as u8,
                day: day as u8,
                hour: hour as u8,
                minute: minute as u8,
                second: second as u8,
                millisecond: (nanosecond / 1_000_000) as u16,
            },
        )
    } else {
        None
    }
}

impl Timestamp {
    /// Whether `year` is a leap year.
    pub fn is_leap_year(year: i32) -> (r: bool)
        ensures
            r == spec_is_leap_year(year as int),
    {
        year % 4 == 0 && (year % 100 != 0 || year % 400 == 0)
    }

    /// Days in `month` of `year`.
    pub fn days_in_month(year: i32, month: u8) -> (r: u8)
        requires
            1 <= month <= 12,
        ensures
            r as int == spec_days_in_month(year as int, month as int),
    {
        if month == 2 {
            if Timestamp::is_leap_year(year) {
                29
            } else {
                28
            }
        } else if month == 4 || month == 6 || month == 9 || month == 11 {
            30
        } else {
            31
        }
    }

    /// Build a timestamp from raw parsed fields, if they fit the calendar.
    pub fn from_parts(
        year: i32,
        month: u32,
        day: u32,
        hour: u32,
        minute: u32,
        second: u32,
        nanosecond: u32,
    ) -> (r: Option<Timestamp>)
        ensures
            r == spec_timestamp_from_parts(
                year as int,
                month as int,
                day as int,
                hour as int,
                minute as int,
                second as int,
                nanosecond as int,
            ),
            r matches Some(t) ==> valid_timestamp(t),
    {
        if 1 <= month && month <= 12 && 1 <= day && hour <= 23 && minute <= 59 && second <= 59
            && nanosecond <= 1_999_999_999 {
            let max_day = Timestamp::days_in_month(year, month as u8);
            if day <= max_day as u32 {
                Some(
                    Timestamp {
                        year,
                        month: month as u8,
                        day: day as u8,
                        hour: hour as u8,
                        minute: minute as u8,
                        second: second as u8,
                        millisecond: (nanosecond / 1_000_000) as u16,
                    },
                )
            } else {
                None
            }
        } else {
            None
        }
    }
}

/// The calendar fields that the seed timestamp format assigns to a string:
/// year, month, day, hour, minute, second and nanosecond, or nothing when
/// the string does not match the format.
pub uninterp spec fn date_time_fields_of(s: Seq<char>) -> Option<
    (int, int, int, int, int, int, int),
>;

/// Relies on chrono's `NaiveDateTime::parse_from_str` with the format
/// `%Y-%m-%d %H:%M:%S%.3f`, and on the documented ranges of the
/// `Datelike` and `Timelike` accessors: month 1 to 12, day 1 to 31, hour
/// to 23, minute and second to 59, nanosecond to 1,999,999,999 in the
/// event of a leap second.
#[verifier::external_body]
fn parse_date_time_fields(s: &str) -> (r: Option<(i32, u32, u32, u32, u32, u32, u32)>)
    ensures
        r matches Some(f) ==> date_time_fields_of(s@) == Some(
            (
                f.0 as int,
                f.1 as int,
                f.2 as int,
                f.3 as int,
                f.4 as int,
                f.5 as int,
                f.6 as int,
            ),
        ) && 1 <= f.1 <= 12 && 1 <= f.2 <= 31 && f.3 <= 23 && f.4 <= 59 && f.5 <= 59 && f.6
            <= 1_999_999_999,
        r is None ==> date_time_fields_of(s@) is None,
{
    match chrono::NaiveDateTime::parse_from_str(s, "%Y-%m-%d %H:%M:%S%.3f") {
        Ok(dt) => Some(
            (
                chrono::Datelike::year(&dt),
                chrono::Datelike::month(&dt),
                chrono::Datelike::day(&dt),
                chrono::Timelike::hour(&dt),
                chrono::Timelike::minute(&dt),
                chrono::Timelike::second(&dt),
                chrono::Timelike::nanosecond(&dt),
            ),
        ),
        Err(_) => None,
    }
}

/// The timestamp a string parses to under the seed format.
pub open spec fn spec_date_time_from_str(s: Seq<char>) -> Option<Timestamp> {
    match date_time_fields_of(s) {
        Some(f) => spec_timestamp_from_parts(f.0, f.1, f.2, f.3, f.4, f.5, f.6),
        None => None,
    }
}

/// Parse a timestamp of the form `YYYY-MM-DD HH:MM:SS` with an optional
/// three-digit fraction. The error returns the string that did not parse.
pub fn date_time_from_str(s: &str) -> (r: Result<Timestamp, String>)
    ensures
        r matches Ok(t) ==> spec_date_time_from_str(s@) == Some(t) && valid_timestamp(t),
        r matches Err(e) ==> spec_date_time_from_str(s@) is None && e@ == s@,
{
    match parse_date_time_fields(s) {
        Some(f) => {
            match Timestamp::from_parts(f.0, f.1, f.2, f.3, f.4, f.5, f.6) {
                Some(t) => Ok(t),
                None => Err(s.to_owned()),
            }
        },
        None => Err(s.to_owned()),
    }
}

/// Parse an optional timestamp: an absent value stays absent, a present
/// value must parse.
pub fn opt_date_time_from_str(value: Option<String>) -> (r: Result<Option<Timestamp>, String>)
    ensures
        value is None ==> (r matches Ok(t) && t is None),
        value matches Some(s) ==> match spec_date_time_from_str(s@) {
            Some(t) => r matches Ok(v) && v == Some(t),
            None => r matches Err(e) && e@ == s@,
        },
{
    match value {
        None => Ok(None),
        Some(s) => {
            match date_time_from_str(s.as_str()) {
                Ok(t) => Ok(Some(t)),
                Err(e) => Err(e),
            }
        },
    }
}

/// Read a boolean stored as `0` or `1`; any other number is an error
/// carrying the number itself.
pub fn bool_from_int(value: u8) -> (r: Result<bool, u8>)
    ensures
        value == 0 ==> r == Ok::<bool, u8>(false),
        value == 1 ==> r == Ok::<bool, u8>(true),
        value >= 2 ==> r == Err::<bool, u8>(value),
{
    match value {
        0 => Ok(false),
        1 => Ok(true),
        other => Err(other),
    }
}

} // verus!
