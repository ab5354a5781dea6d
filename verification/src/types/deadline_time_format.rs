//! The `YYYY-MM-DD` form in which the Todoist API writes a deadline's date.
use vstd::prelude::*;

use chrono::Datelike;
use vstd::pervasive::unreached;

use crate::types::time::{is_valid_date, lemma_calendar_date_view_injective, CalendarDate};

verus! {

/// A decimal digit.
pub open spec fn digit_char(n: int) -> char {
    (('0' as int) + n) as char
}

/// `n` (below ten thousand) as exactly four decimal digits.
pub open spec fn four_digits(n: int) -> Seq<char> {
    seq![
        digit_char(n / 1000 % 10),
        digit_char(n / 100 % 10),
        digit_char(n / 10 % 10),
        digit_char(n % 10),
    ]
}

/// `n` (below ten million) in decimal, zero-padded to at least four digits.
pub open spec fn padded_digits(n: int) -> Seq<char> {
    if n < 10000 {
        four_digits(n)
    } else if n < 100000 {
        seq![digit_char(n / 10000)] + four_digits(n % 10000)
    } else if n < 1000000 {
        seq![digit_char(n / 100000), digit_char(n / 10000 % 10)] + four_digits(n % 10000)
    } else {
        seq![digit_char(n / 1000000), digit_char(n / 100000 % 10), digit_char(n / 10000 % 10)]
            + four_digits(n % 10000)
    }
}

/// How `%Y` writes a year: four digits for years 0 to 9999, and with an
/// explicit sign otherwise.
pub open spec fn year_text(year: int) -> Seq<char> {
    if 0 <= year <= 9999 {
        padded_digits(year)
    } else if year > 9999 {
        seq!['+'] + padded_digits(year)
    } else {
        seq!['-'] + padded_digits(-year)
    }
}

/// `n` (below one hundred) as exactly two decimal digits.
pub open spec fn two_digits(n: int) -> Seq<char> {
    seq![digit_char(n / 10), digit_char(n % 10)]
}

/// A date written `%Y-%m-%d`.
pub open spec fn ymd_text(date: (i32, u32, u32)) -> Seq<char> {
    year_text(date.0 as int) + seq!['-'] + two_digits(date.1 as int) + seq!['-'] + two_digits(
        date.2 as int,
    )
}

/// The value of a decimal digit character.
pub open spec fn digit_value(c: char) -> int {
    (c as int) - ('0' as int)
}

/// Whether a character is a decimal digit.
pub open spec fn is_digit(c: char) -> bool {
    '0' as int <= c as int <= '9' as int
}

proof fn lemma_digit_char(n: int)
    requires
        0 <= n <= 9,
    ensures
        is_digit(digit_char(n)),
        digit_value(digit_char(n)) == n,
{
    assert(('0' as int) == 48);
    assert(48 <= 48 + n <= 57);
    assert(((48 + n) as char) as int == 48 + n);
}

/// The `%Y-%m-%d` text of a valid date whose year is 0 to 9999 is ten
/// characters: four digits that read as the year, a hyphen, two digits that
/// read as the month, a hyphen and two digits that read as the day. A later
/// year is written with a leading `+`, an earlier one with a leading `-`.
pub proof fn lemma_ymd_text_fields(date: (i32, u32, u32))
    requires
        is_valid_date(date.0, date.1, date.2),
    ensures
        0 <= date.0 <= 9999 ==> {
            let t = ymd_text(date);
            &&& t.len() == 10
            &&& t[4] == '-' && t[7] == '-'
            &&& forall|i: int| 0 <= i < 10 && i != 4 && i != 7 ==> is_digit(#[trigger] t[i])
            &&& 1000 * digit_value(t[0]) + 100 * digit_value(t[1]) + 10 * digit_value(t[2])
                + digit_value(t[3]) == date.0
            &&& 10 * digit_value(t[5]) + digit_value(t[6]) == date.1
            &&& 10 * digit_value(t[8]) + digit_value(t[9]) == date.2
        },
        date.0 > 9999 ==> ymd_text(date)[0] == '+',
        date.0 < 0 ==> ymd_text(date)[0] == '-',
{
    let y = date.0 as int;
    let m = date.1 as int;
    let d = date.2 as int;
    lemma_digit_char(m / 10);
    lemma_digit_char(m % 10);
    lemma_digit_char(d / 10);
    lemma_digit_char(d % 10);
    if 0 <= y <= 9999 {
        lemma_digit_char(y / 1000 % 10);
        lemma_digit_char(y / 100 % 10);
        lemma_digit_char(y / 10 % 10);
        lemma_digit_char(y % 10);
        assert(1000 * (y / 1000 % 10) + 100 * (y / 100 % 10) + 10 * (y / 10 % 10) + y % 10 == y)
            by (nonlinear_arith)
            requires
                0 <= y <= 9999,
        ;
        let t = ymd_text(date);
        assert(t =~= four_digits(y) + seq!['-'] + two_digits(m) + seq!['-'] + two_digits(d));
    }
}

/// What `chrono::NaiveDate::parse_from_str(s, "%Y-%m-%d")` makes of a string.
pub uninterp spec fn naive_date_from_ymd_str(s: Seq<char>) -> Option<(i32, u32, u32)>;

/// `chrono::NaiveDate::from_ymd_opt` and then `format("%Y-%m-%d")`. For a
/// valid date in chrono's year range `from_ymd_opt` always succeeds. Claims
/// the text chrono writes (`%Y` as four digits for years 0 to 9999, and with
/// an explicit sign otherwise; month and day as two digits).
#[verifier::external_body]
fn format_ymd(year: i32, month: u32, day: u32) -> (r: Option<String>)
    requires
        is_valid_date(year, month, day),
    ensures
        r is Some,
        r matches Some(s) ==> s@ == ymd_text((year, month, day)),
{
    match chrono::NaiveDate::from_ymd_opt(year, month, day) {
        Some(d) => Some(d.format("%Y-%m-%d").to_string()),
        None => None,
    }
}

/// `chrono::NaiveDate::parse_from_str(s, "%Y-%m-%d")`. Claims that the result
/// is a function of the string alone, that a date it returns is valid, and
/// that it reads back the text `%Y-%m-%d` writes for a valid date (its `%Y`
/// takes four digits, or a sign and any number of digits).
#[verifier::external_body]
fn parse_ymd(s: &str) -> (r: Result<(i32, u32, u32), chrono::ParseError>)
    ensures
        match r {
            Ok(v) => naive_date_from_ymd_str(s@) == Some(v),
            Err(_) => naive_date_from_ymd_str(s@) is None,
        },
        r matches Ok(v) ==> is_valid_date(v.0, v.1, v.2),
        forall|v: (i32, u32, u32)|
            is_valid_date(v.0, v.1, v.2) && s@ == #[trigger] ymd_text(v) ==> (r is Ok && r->Ok_0
                == v),
{
    match chrono::NaiveDate::parse_from_str(s, "%Y-%m-%d") {
        Ok(d) => Ok((d.year(), d.month(), d.day())),
        Err(e) => Err(e),
    }
}

/// What [`deserialize`] returns for a text: chrono's reading of it, which
/// for the text of a valid date is that date.
pub open spec fn deserialized(s: Seq<char>, r: Result<CalendarDate, chrono::ParseError>) -> bool {
    &&& match r {
        Ok(d) => naive_date_from_ymd_str(s) == Some(d@),
        Err(_) => naive_date_from_ymd_str(s) is None,
    }
    &&& forall|v: (i32, u32, u32)|
        is_valid_date(v.0, v.1, v.2) && s == #[trigger] ymd_text(v) ==> (r matches Ok(d) && d@
            == v)
}

/// Reading back the text that [`serialize`] writes for a date gives the
/// date again.
pub proof fn lemma_deserialize_undoes_serialize(
    date: CalendarDate,
    r: Result<CalendarDate, chrono::ParseError>,
)
    requires
        is_valid_date(date@.0, date@.1, date@.2),
        deserialized(ymd_text(date@), r),
    ensures
        r == Ok::<CalendarDate, chrono::ParseError>(date),
{
    let v = date@;
    assert(ymd_text(date@) == ymd_text(v));
    match r {
        Ok(d) => lemma_calendar_date_view_injective(d, date),
        Err(_) => {},
    }
}

/// Writes a deadline's date as `YYYY-MM-DD` (chrono's `%Y-%m-%d`).
pub fn serialize(date: &CalendarDate) -> (s: String)
    ensures
        s@ == ymd_text(date@),
{
    match format_ymd(date.year(), date.month(), date.day()) {
        Some(s) => s,
        None => unreached(),
    }
}

/// Reads a deadline's date from its `YYYY-MM-DD` form (chrono's
/// `NaiveDate::parse_from_str` with `%Y-%m-%d`).
pub fn deserialize(s: &str) -> (r: Result<CalendarDate, chrono::ParseError>)
    ensures
        deserialized(s@, r),
{
    match parse_ymd(s) {
        Ok(v) => match CalendarDate::from_ymd_opt(v.0, v.1, v.2) {
            Some(d) => Ok(d),
            None => unreached(),
        },
        Err(e) => Err(e),
    }
}

} // verus!
