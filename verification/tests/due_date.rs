use std::str::FromStr;

use isolang::Language;
use todoist_sdk::error::SdkError;
use todoist_sdk::types::task::{DueDate, DueDateType};
use todoist_sdk::types::time::{CalendarDate, LocalDateTime, Timestamp};
use todoist_sdk::types::zoned::ZonedDateTime;

fn due(date: &str, timezone: Option<&str>) -> DueDate {
    DueDate::new(
        date.to_string(),
        String::from("tomorrow"),
        timezone.map(String::from),
        Language::from_str("en").expect("en is a valid ISO 639 language code"),
        false,
    )
}

#[test]
fn to_datetime_full_day() {
    let due_date = due("2016-12-06", None);
    let result = due_date.to_datetime().unwrap();
    assert_eq!(
        result,
        DueDateType::FullDay(CalendarDate::from_ymd_opt(2016, 12, 6).unwrap())
    );
}

#[test]
fn to_datetime_floating_datetime() {
    let due_date = due("2016-12-06T13:00:00", None);
    let result = due_date.to_datetime().unwrap();
    assert_eq!(
        result,
        DueDateType::FloatingDateTime(
            LocalDateTime::new(CalendarDate::from_ymd_opt(2016, 12, 6).unwrap(), 13, 0, 0, 0)
                .unwrap()
        )
    );
}

#[test]
fn to_datetime_with_timezone() {
    let due_date = due("2016-12-06T13:00:00.000000Z", Some("Europe/Madrid"));
    let result = due_date.to_datetime().unwrap();
    let expected = DueDateType::DateTimeTimezone(
        ZonedDateTime::new(Timestamp::new(1_481_029_200, 0).unwrap(), String::from("Europe/Madrid"))
            .unwrap(),
    );
    assert_eq!(result, expected);
}

#[test]
fn to_datetime_invalid_date() {
    let due_date = due("not-a-date", None);
    assert!(due_date.to_datetime().is_err());
}

#[test]
fn to_datetime_invalid_timezone() {
    let due_date = due("2016-12-06T13:00:00.000000Z", Some("Not/A_Timezone"));
    assert!(due_date.to_datetime().is_err());
}

#[test]
fn errors_name_what_failed() {
    assert!(matches!(due("not-a-date", None).to_datetime(), Err(SdkError::InvalidDate(_))));
    assert!(matches!(
        due("not-a-date", Some("Not/A_Timezone")).to_datetime(),
        Err(SdkError::InvalidTimezone(_))
    ));
    assert!(matches!(
        due("not-a-date", Some("Europe/Madrid")).to_datetime(),
        Err(SdkError::InvalidDate(_))
    ));
}

#[test]
fn a_plain_date_with_an_unknown_timezone_is_an_error() {
    let due_date = due("2016-12-06", Some("Not/A_Timezone"));
    assert!(matches!(due_date.to_datetime(), Err(SdkError::InvalidTimezone(_))));
}

#[test]
fn a_plain_date_ignores_a_known_timezone() {
    let due_date = due("2016-12-06", Some("Europe/Madrid"));
    assert_eq!(
        due_date.to_datetime().unwrap(),
        DueDateType::FullDay(CalendarDate::from_ymd_opt(2016, 12, 6).unwrap())
    );
}

#[test]
fn due_date_keeps_its_parts() {
    let d = due("2016-12-06", Some("Europe/Madrid"));
    assert_eq!(d.date(), "2016-12-06");
    assert_eq!(d.timezone(), Some("Europe/Madrid"));
    assert_eq!(d.string, "tomorrow");
    assert!(!d.is_recurring);
}

#[test]
fn zoned_times_compare_by_instant() {
    let madrid =
        ZonedDateTime::new(Timestamp::new(1_481_029_200, 0).unwrap(), String::from("Europe/Madrid"))
            .unwrap();
    let utc =
        ZonedDateTime::new(Timestamp::new(1_481_029_200, 0).unwrap(), String::from("UTC"))
            .unwrap();
    let later =
        ZonedDateTime::new(Timestamp::new(1_481_029_200, 1).unwrap(), String::from("Europe/Madrid"))
            .unwrap();
    assert_eq!(madrid, utc);
    assert!(madrid < later);
    assert_eq!(
        DueDateType::DateTimeTimezone(madrid.clone()),
        DueDateType::DateTimeTimezone(utc)
    );
    assert_eq!(madrid.timezone(), "Europe/Madrid");
    assert_eq!(madrid.instant(), Timestamp::new(1_481_029_200, 0).unwrap());
}

#[test]
fn a_zone_must_be_known() {
    let t = Timestamp::new(0, 0).unwrap();
    assert!(ZonedDateTime::new(t, String::from("Not/A_Timezone")).is_none());
    assert!(ZonedDateTime::new(t, String::from("Asia/Tokyo")).is_some());
}

#[test]
fn timestamps_stay_in_chrono_range() {
    assert_eq!(Timestamp::default(), Timestamp::new(0, 0).unwrap());
    assert_eq!(Timestamp::new(-8_334_601_315_200, 0).unwrap().seconds(), -8_334_601_315_200);
    assert!(Timestamp::new(-8_334_601_315_201, 0).is_none());
    assert_eq!(Timestamp::new(8_210_266_876_799, 999_999_999).unwrap().nanos(), 999_999_999);
    assert!(Timestamp::new(8_210_266_876_800, 0).is_none());
    assert!(Timestamp::new(0, 2_000_000_000).is_none());
    // A leap second follows second 59 of a minute, before and after the epoch.
    assert!(Timestamp::new(59, 1_500_000_000).is_some());
    assert!(Timestamp::new(58, 1_500_000_000).is_none());
    assert!(Timestamp::new(-1, 1_000_000_000).is_some());
    assert!(Timestamp::new(-2, 1_000_000_000).is_none());
}

#[test]
fn a_leap_second_is_written_on_second_59() {
    let day = CalendarDate::from_ymd_opt(2016, 12, 31).unwrap();
    assert!(LocalDateTime::new(day, 23, 59, 59, 1_000_000_000).is_some());
    assert!(LocalDateTime::new(day, 23, 59, 58, 1_000_000_000).is_none());
    let due_date = due("2016-12-31T23:59:60", None);
    assert_eq!(
        due_date.to_datetime().unwrap(),
        DueDateType::FloatingDateTime(LocalDateTime::new(day, 23, 59, 59, 1_000_000_000).unwrap())
    );
}
