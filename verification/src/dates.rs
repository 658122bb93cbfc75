//! Calendar arithmetic and formatting, done by `chrono`.

use vstd::prelude::*;
use crate::text::decimal;

verus! {

/// The `(year, month, day)` that `NaiveDate::parse_from_str(s, "%Y-%m-%d")`
/// reads from `s`, or `None` when it fails.
pub uninterp spec fn spec_parse_ymd(s: Seq<char>) -> Option<(i32, u32, u32)>;

/// The first year of the proleptic Gregorian calendar `chrono` represents.
pub open spec fn min_year() -> int {
    -262143
}

/// The last year of the proleptic Gregorian calendar `chrono` represents.
pub open spec fn max_year() -> int {
    262142
}

/// A leap year of the Gregorian calendar.
pub open spec fn is_leap_year(y: int) -> bool {
    y % 4 == 0 && (y % 100 != 0 || y % 400 == 0)
}

/// The number of days of a month (1 to 12) of a year.
pub open spec fn days_in_month(y: int, m: int) -> int {
    if m == 2 {
        if is_leap_year(y) {
            29
        } else {
            28
        }
    } else if m == 4 || m == 6 || m == 9 || m == 11 {
        30
    } else {
        31
    }
}

/// A date that exists in the calendar `chrono` represents
/// (`NaiveDate::from_ymd_opt` gives `Some`).
pub open spec fn is_valid_date(year: i32, month: u32, day: u32) -> bool {
    &&& min_year() <= year <= max_year()
    &&& 1 <= month <= 12
    &&& 1 <= day <= days_in_month(year as int, month as int)
}

/// The day before a date (`NaiveDate::pred_opt`), or `None` when the date is
/// not a valid date or is the first one `chrono` represents.
pub open spec fn spec_previous_day(year: i32, month: u32, day: u32) -> Option<(i32, u32, u32)> {
    if !is_valid_date(year, month, day) {
        None
    } else if day > 1 {
        Some((year, month, (day - 1) as u32))
    } else if month > 1 {
        Some((year, (month - 1) as u32, days_in_month(year as int, month - 1) as u32))
    } else if year > min_year() {
        Some(((year - 1) as i32, 12u32, 31u32))
    } else {
        None
    }
}

/// A decimal text padded with zeros on the left to at least `width` digits.
pub open spec fn zero_padded(digits: Seq<char>, width: nat) -> Seq<char> {
    if digits.len() >= width {
        digits
    } else {
        Seq::new((width - digits.len()) as nat, |i: int| '0') + digits
    }
}

/// A year as `%Y` writes it: four digits, zero-padded, for years 0 to 9999;
/// otherwise a sign and at least four digits.
pub open spec fn year_text(y: int) -> Seq<char> {
    if 0 <= y <= 9999 {
        zero_padded(decimal(y as nat), 4)
    } else if y < 0 {
        seq!['-'] + zero_padded(decimal((-y) as nat), 4)
    } else {
        seq!['+'] + zero_padded(decimal(y as nat), 4)
    }
}

/// The number of leap years among the years up to `y`, counted from a fixed
/// origin: the difference of two values counts the leap years between them.
pub open spec fn leap_years_through(y: int) -> int {
    y / 4 - y / 100 + y / 400
}

/// The number of days of the months before month `m` of year `y`.
pub open spec fn days_before_month(y: int, m: int) -> int
    decreases m,
{
    if m <= 1 {
        0
    } else {
        days_before_month(y, m - 1) + days_in_month(y, m - 1)
    }
}

/// The day number of a date, counted from 1970-01-01 (day 0).
pub open spec fn epoch_day(y: int, m: int, d: int) -> int {
    365 * (y - 1970) + (leap_years_through(y - 1) - leap_years_through(1969)) + days_before_month(y, m)
        + d - 1
}

/// The UTC date (`%Y-%m-%d`) and time of day (`%H:%M:%S`) `secs` seconds
/// after the epoch, or `None` when its day is out of `chrono`'s range.
pub open spec fn spec_utc_date_time(secs: i64) -> Option<(Seq<char>, Seq<char>)> {
    let days = secs as int / 86400;
    let sod = secs as int % 86400;
    if exists|y: i32, m: u32, d: u32|
        is_valid_date(y, m, d) && #[trigger] epoch_day(y as int, m as int, d as int) == days {
        let (y, m, d) = choose|y: i32, m: u32, d: u32|
            is_valid_date(y, m, d) && #[trigger] epoch_day(y as int, m as int, d as int) == days;
        Some(
            (
                year_text(y as int) + seq!['-'] + zero_padded(decimal(m as nat), 2) + seq!['-']
                    + zero_padded(decimal(d as nat), 2),
                zero_padded(decimal((sod / 3600) as nat), 2) + seq![':'] + zero_padded(
                    decimal((sod % 3600 / 60) as nat),
                    2,
                ) + seq![':'] + zero_padded(decimal((sod % 60) as nat), 2),
            ),
        )
    } else {
        None
    }
}

/// The UTC date and time `secs` seconds after the epoch, formatted as
/// `%Y-%m-%d %H:%M:%S`, or `None` when its day is out of `chrono`'s range.
pub open spec fn spec_utc_seconds_text(secs: i64) -> Option<Seq<char>> {
    match spec_utc_date_time(secs) {
        Some((date, time)) => Some(date + seq![' '] + time),
        None => None,
    }
}

/// The time an event was observed at, `secs` seconds and `micros`
/// microseconds after the epoch, formatted as `%Y-%m-%dT%H:%M:%S%.6f` in UTC;
/// `None` when its day is out of `chrono`'s range or `micros` is not below a
/// million.
pub open spec fn spec_observed_at(secs: i64, micros: u32) -> Option<Seq<char>> {
    if micros >= 1_000_000 {
        None
    } else {
        match spec_utc_date_time(secs) {
            Some((date, time)) => Some(
                date + seq!['T'] + time + seq!['.'] + zero_padded(decimal(micros as nat), 6),
            ),
            None => None,
        }
    }
}

/// A date formatted as `%Y-%m-%d`, or `None` when it is not a valid date.
pub open spec fn spec_format_ymd(year: i32, month: u32, day: u32) -> Option<Seq<char>> {
    if is_valid_date(year, month, day) {
        Some(
            year_text(year as int) + seq!['-'] + zero_padded(decimal(month as nat), 2) + seq!['-']
                + zero_padded(decimal(day as nat), 2),
        )
    } else {
        None
    }
}

/// A calendar date.
#[derive(Debug, Clone, Copy, PartialEq, Eq, Structural)]
pub struct Ymd {
    pub year: i32,
    pub month: u32,
    pub day: u32,
}

/// Calls `chrono::Utc.timestamp_opt(secs, 0).single()` and formats the instant
/// with `%Y-%m-%d %H:%M:%S`, as `spec_utc_seconds_text` states it.
#[verifier::external_body]
fn utc_seconds_text(secs: i64) -> (r: Option<String>)
    ensures
        match r {
            Some(s) => spec_utc_seconds_text(secs) == Some(s@),
            None => spec_utc_seconds_text(secs) is None,
        },
{
    chrono::TimeZone::timestamp_opt(&chrono::Utc, secs, 0).single().map(
        |dt| dt.format("%Y-%m-%d %H:%M:%S").to_string(),
    )
}

/// Calls `chrono::DateTime::from_timestamp(secs, nanos)` and formats the
/// instant with `%Y-%m-%dT%H:%M:%S%.6f`, as `spec_observed_at` states it for
/// the whole microseconds of `nanos`.
#[verifier::external_body]
fn utc_micros_text(secs: i64, nanos: u32) -> (r: Option<String>)
    requires
        nanos < 1_000_000_000,
    ensures
        match r {
            Some(s) => spec_observed_at(secs, nanos / 1000) == Some(s@),
            None => spec_observed_at(secs, nanos / 1000) is None,
        },
{
    chrono::DateTime::from_timestamp(secs, nanos).map(
        |dt| dt.format("%Y-%m-%dT%H:%M:%S%.6f").to_string(),
    )
}

/// The text of the time an event was observed at, `secs` seconds and
/// `micros` microseconds after the epoch (`%Y-%m-%dT%H:%M:%S%.6f`, UTC).
pub fn observed_at_text(secs: i64, micros: u32) -> (r: Option<String>)
    ensures
        match r {
            Some(s) => spec_observed_at(secs, micros) == Some(s@),
            None => spec_observed_at(secs, micros) is None,
        },
{
    if micros >= 1_000_000 {
        return None;
    }
    utc_micros_text(secs, micros * 1000)
}

/// Calls `chrono::NaiveDate::parse_from_str(s, "%Y-%m-%d")`; the result is
/// named `spec_parse_ymd`.
#[verifier::external_body]
fn parse_ymd(s: &str) -> (r: Option<Ymd>)
    ensures
        match r {
            Some(d) => spec_parse_ymd(s@) == Some((d.year, d.month, d.day)),
            None => spec_parse_ymd(s@) is None,
        },
{
    chrono::NaiveDate::parse_from_str(s, "%Y-%m-%d").ok().map(
        |d| Ymd {
            year: chrono::Datelike::year(&d),
            month: chrono::Datelike::month(&d),
            day: chrono::Datelike::day(&d),
        },
    )
}

/// Calls `chrono::NaiveDate::pred_opt` on the date (built by
/// `NaiveDate::from_ymd_opt`): the day before, as `spec_previous_day` states it.
#[verifier::external_body]
fn previous_day(d: Ymd) -> (r: Option<Ymd>)
    ensures
        match r {
            Some(p) => spec_previous_day(d.year, d.month, d.day) == Some((p.year, p.month, p.day)),
            None => spec_previous_day(d.year, d.month, d.day) is None,
        },
{
    chrono::NaiveDate::from_ymd_opt(d.year, d.month, d.day).and_then(|x| x.pred_opt()).map(
        |x| Ymd {
            year: chrono::Datelike::year(&x),
            month: chrono::Datelike::month(&x),
            day: chrono::Datelike::day(&x),
        },
    )
}

/// Formats the date (built by `chrono::NaiveDate::from_ymd_opt`) with
/// `%Y-%m-%d`, as `spec_format_ymd` states it.
#[verifier::external_body]
fn format_ymd(d: Ymd) -> (r: Option<String>)
    ensures
        match r {
            Some(s) => spec_format_ymd(d.year, d.month, d.day) == Some(s@),
            None => spec_format_ymd(d.year, d.month, d.day) is None,
        },
{
    chrono::NaiveDate::from_ymd_opt(d.year, d.month, d.day).map(|x| x.format("%Y-%m-%d").to_string())
}

/// The start time of a process (seconds since the epoch) as
/// `yyyy-mm-dd hh:mm:ss` in UTC; empty when it is out of range.
pub open spec fn spec_start_time_text(start_time: u64) -> Seq<char> {
    match spec_utc_seconds_text(start_time as i64) {
        Some(s) => s,
        None => Seq::empty(),
    }
}

/// Formats a process start time (seconds since the epoch) as
/// `yyyy-mm-dd hh:mm:ss` in UTC; empty when it is out of range.
pub fn start_time_text(start_time: u64) -> (r: String)
    ensures
        r@ == spec_start_time_text(start_time),
{
    match utc_seconds_text(start_time as i64) {
        Some(s) => s,
        None => String::new(),
    }
}

impl Ymd {
    /// Reads a `YYYY-MM-DD` date.
    pub fn parse(s: &str) -> (r: Option<Ymd>)
        ensures
            match r {
                Some(d) => spec_parse_ymd(s@) == Some((d.year, d.month, d.day)),
                None => spec_parse_ymd(s@) is None,
            },
    {
        parse_ymd(s)
    }

    /// The day before.
    pub fn previous(&self) -> (r: Option<Ymd>)
        ensures
            match r {
                Some(p) => spec_previous_day(self.year, self.month, self.day) == Some(
                    (p.year, p.month, p.day),
                ),
                None => spec_previous_day(self.year, self.month, self.day) is None,
            },
    {
        previous_day(*self)
    }

    /// The date as `YYYY-MM-DD`.
    pub fn format(&self) -> (r: Option<String>)
        ensures
            match r {
                Some(s) => spec_format_ymd(self.year, self.month, self.day) == Some(s@),
                None => spec_format_ymd(self.year, self.month, self.day) is None,
            },
    {
        format_ymd(*self)
    }
}

} // verus!
