//! Plain-value forms of the dates and times that the Todoist API exchanges,
//! and the parsing of its date strings (done by `chrono` and `chrono_tz`).
use chrono::{Datelike, Timelike};
use core::str::FromStr;
use vstd::prelude::*;


verus! {

/// Smallest year `chrono` can represent.
pub const MIN_YEAR: i32 = -262143;

/// Largest year `chrono` can represent.
pub const MAX_YEAR: i32 = 262142;

/// Leap years of the proleptic Gregorian calendar.
pub open spec fn is_leap_year(year: int) -> bool {
    (year % 4 == 0 && year % 100 != 0) || year % 400 == 0
}

/// Number of days in a month (1 to 12) of a year.
pub open spec fn days_in_month(year: int, month: int) -> int {
    if month == 2 {
        if is_leap_year(year) { 29 } else { 28 }
    } else if month == 4 || month == 6 || month == 9 || month == 11 {
        30
    } else {
        31
    }
}

/// A day of the proleptic Gregorian calendar within `chrono`'s range.
pub open spec fn is_valid_date(year: i32, month: u32, day: u32) -> bool {
    &&& MIN_YEAR <= year <= MAX_YEAR
    &&& 1 <= month <= 12
    &&& 1 <= day <= days_in_month(year as int, month as int)
}

/// A time of day; a second of `60` (a leap second) is written, as `chrono`
/// does, as second `59` with a nanosecond count of a billion or more.
pub open spec fn is_valid_time(hour: u32, minute: u32, second: u32, nanosecond: u32) -> bool {
    &&& hour < 24 && minute < 60 && second < 60 && nanosecond < 2_000_000_000
    &&& nanosecond >= 1_000_000_000 ==> second == 59
}

/// Seconds from the Unix epoch to the earliest instant `chrono` can
/// represent, `-262143-01-01T00:00:00Z`.
pub const MIN_TIMESTAMP: i64 = -8334601315200;

/// Seconds from the Unix epoch to the last second `chrono` can represent,
/// `+262142-12-31T23:59:59Z`.
pub const MAX_TIMESTAMP: i64 = 8210266876799;

/// An instant `chrono` can represent: whole seconds since the epoch within
/// its range, and the nanoseconds past that second, a billion or more only
/// during a leap second (which follows second `59` of a minute).
pub open spec fn is_valid_instant(seconds: i64, nanos: u32) -> bool {
    &&& MIN_TIMESTAMP <= seconds <= MAX_TIMESTAMP
    &&& nanos < 2_000_000_000
    &&& nanos >= 1_000_000_000 ==> seconds % 60 == 59
}

/// A calendar date without a time zone (what `chrono::NaiveDate` holds).
/// Always a valid date.
#[derive(Debug, Clone, Copy, PartialEq, Eq, PartialOrd, Ord, Hash)]
pub struct CalendarDate {
    year: i32,
    month: u32,
    day: u32,
}

impl CalendarDate {
    #[verifier::type_invariant]
    spec fn valid(self) -> bool {
        is_valid_date(self.year, self.month, self.day)
    }
}

impl View for CalendarDate {
    type V = (i32, u32, u32);

    closed spec fn view(&self) -> (i32, u32, u32) {
        (self.year, self.month, self.day)
    }
}

impl CalendarDate {
    /// The date with the given year, month (1 to 12) and day (from 1), or
    /// `None` when there is no such day.
    pub fn from_ymd_opt(year: i32, month: u32, day: u32) -> (r: Option<CalendarDate>)
        ensures
            r is Some <==> is_valid_date(year, month, day),
            r matches Some(d) ==> d@ == (year, month, day),
    {
        if year < MIN_YEAR || year > MAX_YEAR || month < 1 || month > 12 || day < 1 {
            return None;
        }
        let leap = (year % 4 == 0 && year % 100 != 0) || year % 400 == 0;
        let last: u32 = if month == 2 {
            if leap { 29 } else { 28 }
        } else if month == 4 || month == 6 || month == 9 || month == 11 {
            30
        } else {
            31
        };
        if day > last {
            None
        } else {
            Some(CalendarDate { year, month, day })
        }
    }

    pub fn year(&self) -> (y: i32)
        ensures
            y == self@.0,
            is_valid_date(self@.0, self@.1, self@.2),
    {
        proof {
            use_type_invariant(self);
        }
        self.year
    }

    pub fn month(&self) -> (m: u32)
        ensures
            m == self@.1,
            is_valid_date(self@.0, self@.1, self@.2),
    {
        proof {
            use_type_invariant(self);
        }
        self.month
    }

    pub fn day(&self) -> (d: u32)
        ensures
            d == self@.2,
            is_valid_date(self@.0, self@.1, self@.2),
    {
        proof {
            use_type_invariant(self);
        }
        self.day
    }
}

/// A calendar date is determined by its year, month and day.
pub proof fn lemma_calendar_date_view_injective(a: CalendarDate, b: CalendarDate)
    ensures
        a@ == b@ ==> a == b,
{
}

impl Default for CalendarDate {
    /// The first of January 1970.
    fn default() -> (d: Self)
        ensures
            d@ == (1970i32, 1u32, 1u32),
    {
        CalendarDate { year: 1970, month: 1, day: 1 }
    }
}

/// A date and a time of day without a time zone (what
/// `chrono::NaiveDateTime` holds). Always a valid date and time.
#[derive(Debug, Clone, Copy, PartialEq, Eq, PartialOrd, Ord, Hash)]
pub struct LocalDateTime {
    date: CalendarDate,
    hour: u32,
    minute: u32,
    second: u32,
    nanosecond: u32,
}

/// The parts of a [`LocalDateTime`]: year, month, day, hour, minute, second
/// and nanosecond.
pub type DateTimeParts = (i32, u32, u32, u32, u32, u32, u32);

impl LocalDateTime {
    #[verifier::type_invariant]
    spec fn valid(self) -> bool {
        is_valid_time(self.hour, self.minute, self.second, self.nanosecond)
    }
}

impl View for LocalDateTime {
    type V = DateTimeParts;

    closed spec fn view(&self) -> DateTimeParts {
        (
            self.date@.0,
            self.date@.1,
            self.date@.2,
            self.hour,
            self.minute,
            self.second,
            self.nanosecond,
        )
    }
}

impl LocalDateTime {
    /// The given date at the given time, or `None` when the time does not
    /// exist.
    pub fn new(date: CalendarDate, hour: u32, minute: u32, second: u32, nanosecond: u32) -> (r:
        Option<LocalDateTime>)
        ensures
            r is Some <==> is_valid_time(hour, minute, second, nanosecond),
            r matches Some(t) ==> t@ == (date@.0, date@.1, date@.2, hour, minute, second, nanosecond),
    {
        if hour < 24 && minute < 60 && second < 60 && nanosecond < 2_000_000_000 && (
        nanosecond < 1_000_000_000 || second == 59) {
            Some(LocalDateTime { date, hour, minute, second, nanosecond })
        } else {
            None
        }
    }

    pub fn date(&self) -> (d: CalendarDate)
        ensures
            d@ == (self@.0, self@.1, self@.2),
            is_valid_date(self@.0, self@.1, self@.2),
    {
        self.date.year();
        self.date
    }

    /// Hour, minute, second and nanosecond.
    pub fn time(&self) -> (t: (u32, u32, u32, u32))
        ensures
            t == (self@.3, self@.4, self@.5, self@.6),
            is_valid_time(self@.3, self@.4, self@.5, self@.6),
    {
        proof {
            use_type_invariant(self);
        }
        (self.hour, self.minute, self.second, self.nanosecond)
    }
}

/// A date and time is determined by its parts.
pub proof fn lemma_local_datetime_view_injective(a: LocalDateTime, b: LocalDateTime)
    ensures
        a@ == b@ ==> a == b,
{
    lemma_calendar_date_view_injective(a.date, b.date);
}

/// An instant: whole seconds since 1970-01-01T00:00:00Z and the nanoseconds
/// past that second (what `chrono::DateTime<Utc>` holds). Always an instant
/// `chrono` can represent.
#[derive(Debug, Clone, Copy, PartialEq, Eq, PartialOrd, Ord, Hash, Structural)]
pub struct Timestamp {
    seconds: i64,
    nanos: u32,
}

impl Timestamp {
    #[verifier::type_invariant]
    spec fn valid(self) -> bool {
        is_valid_instant(self.seconds, self.nanos)
    }
}

impl View for Timestamp {
    type V = (i64, u32);

    closed spec fn view(&self) -> (i64, u32) {
        (self.seconds, self.nanos)
    }
}

impl Timestamp {
    /// The instant `seconds` after the epoch plus `nanos` nanoseconds, or
    /// `None` when `chrono` cannot represent it.
    pub fn new(seconds: i64, nanos: u32) -> (r: Option<Timestamp>)
        ensures
            r is Some <==> is_valid_instant(seconds, nanos),
            r matches Some(t) ==> t@ == (seconds, nanos),
    {
        if seconds < MIN_TIMESTAMP || seconds > MAX_TIMESTAMP || nanos >= 2_000_000_000 {
            return None;
        }
        // The earliest representable second starts a minute, so counting
        // from it gives the same second of the minute.
        let since_min: u64 = (seconds - MIN_TIMESTAMP) as u64;
        proof {
            let k: int = 138910021920;
            assert(MIN_TIMESTAMP == -60 * k);
            vstd::arithmetic::div_mod::lemma_mod_multiples_vanish(-k, since_min as int, 60);
            assert(60 * (-k) + since_min == seconds as int);
        }
        if nanos >= 1_000_000_000 && since_min % 60 != 59 {
            return None;
        }
        Some(Timestamp { seconds, nanos })
    }

    /// Whole seconds since the epoch.
    pub fn seconds(&self) -> (s: i64)
        ensures
            s == self@.0,
            is_valid_instant(self@.0, self@.1),
    {
        proof {
            use_type_invariant(self);
        }
        self.seconds
    }

    /// Nanoseconds past the second.
    pub fn nanos(&self) -> (n: u32)
        ensures
            n == self@.1,
            is_valid_instant(self@.0, self@.1),
    {
        proof {
            use_type_invariant(self);
        }
        self.nanos
    }
}

/// An instant is determined by its seconds and nanoseconds.
pub proof fn lemma_timestamp_view_injective(a: Timestamp, b: Timestamp)
    ensures
        a@ == b@ ==> a == b,
{
}

impl Default for Timestamp {
    /// The epoch, 1970-01-01T00:00:00Z.
    fn default() -> (t: Self)
        ensures
            t@ == (0i64, 0u32),
    {
        Timestamp { seconds: 0, nanos: 0 }
    }
}

/// What `chrono::NaiveDate::from_str` makes of a string: year, month, day.
pub uninterp spec fn naive_date_from_str(s: Seq<char>) -> Option<(i32, u32, u32)>;

/// What `chrono::NaiveDateTime::from_str` makes of a string.
pub uninterp spec fn naive_datetime_from_str(s: Seq<char>) -> Option<DateTimeParts>;

/// What `chrono::DateTime::<Utc>::from_str` makes of a string: the instant's
/// seconds since the epoch and its nanoseconds.
pub uninterp spec fn utc_datetime_from_str(s: Seq<char>) -> Option<(i64, u32)>;

/// Whether `chrono_tz::Tz::from_str` knows a time zone of this name.
pub uninterp spec fn is_timezone_name(s: Seq<char>) -> bool;

/// `chrono::NaiveDate::from_str`: a `YYYY-MM-DD` date. Claims that the result
/// is a function of the string alone, and that a date it returns is valid
/// (a `NaiveDate` always is).
#[verifier::external_body]
pub(crate) fn parse_naive_date(s: &str) -> (r: core::result::Result<(i32, u32, u32), chrono::ParseError>)
    ensures
        match r {
            Ok(v) => naive_date_from_str(s@) == Some(v),
            Err(_) => naive_date_from_str(s@) is None,
        },
        r matches Ok(v) ==> is_valid_date(v.0, v.1, v.2),
{
    match chrono::NaiveDate::from_str(s) {
        Ok(d) => Ok((d.year(), d.month(), d.day())),
        Err(e) => Err(e),
    }
}

/// `chrono::NaiveDateTime::from_str`: a `YYYY-MM-DDTHH:MM:SS` date and time,
/// with optional fraction. Claims that the result is a function of the string
/// alone, and that what it returns is a valid date and time.
#[verifier::external_body]
pub(crate) fn parse_naive_datetime(s: &str) -> (r: core::result::Result<DateTimeParts, chrono::ParseError>)
    ensures
        match r {
            Ok(v) => naive_datetime_from_str(s@) == Some(v),
            Err(_) => naive_datetime_from_str(s@) is None,
        },
        r matches Ok(v) ==> is_valid_date(v.0, v.1, v.2) && is_valid_time(v.3, v.4, v.5, v.6),
{
    match chrono::NaiveDateTime::from_str(s) {
        Ok(t) => Ok((t.year(), t.month(), t.day(), t.hour(), t.minute(), t.second(), t.nanosecond())),
        Err(e) => Err(e),
    }
}

/// `chrono::DateTime::<Utc>::from_str`: an RFC 3339 style timestamp with an
/// offset. Returns the instant as `timestamp()` and
/// `timestamp_subsec_nanos()`. Claims that the result is a function of the
/// string alone, and that it is an instant chrono can represent: its date
/// lies in chrono's range, and its nanoseconds reach a billion only in a
/// leap second, which stays on second `59` of a minute in UTC because
/// offsets are whole minutes.
#[verifier::external_body]
pub(crate) fn parse_utc_datetime(s: &str) -> (r: core::result::Result<(i64, u32), chrono::ParseError>)
    ensures
        match r {
            Ok(v) => utc_datetime_from_str(s@) == Some(v),
            Err(_) => utc_datetime_from_str(s@) is None,
        },
        r matches Ok(v) ==> is_valid_instant(v.0, v.1),
{
    match chrono::DateTime::<chrono::Utc>::from_str(s) {
        Ok(t) => Ok((t.timestamp(), t.timestamp_subsec_nanos())),
        Err(e) => Err(e),
    }
}

/// `chrono_tz::Tz::from_str`: looks the name up, exactly, in the IANA time
/// zone table, so a zone it finds has the given string as its name. Claims
/// that success depends on the string alone.
#[verifier::external_body]
pub(crate) fn check_timezone(s: &str) -> (r: core::result::Result<(), chrono_tz::ParseError>)
    ensures
        r is Ok <==> is_timezone_name(s@),
{
    match chrono_tz::Tz::from_str(s) {
        Ok(_) => Ok(()),
        Err(e) => Err(e),
    }
}

} // verus!
