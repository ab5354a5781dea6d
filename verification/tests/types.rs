use todoist_sdk::types::deadline_time_format;
use todoist_sdk::types::time::CalendarDate;
use todoist_sdk::types::{Color, Id};

const ALL: &[Color] = &[
    Color::BerryRed,
    Color::Red,
    Color::Orange,
    Color::Yellow,
    Color::OliveGreen,
    Color::LimeGreen,
    Color::Green,
    Color::MintGreen,
    Color::Teal,
    Color::SkyBlue,
    Color::LightBlue,
    Color::Blue,
    Color::Grape,
    Color::Violet,
    Color::Lavender,
    Color::Magenta,
    Color::Salmon,
    Color::Charcoal,
    Color::Grey,
    Color::Taupe,
];

#[test]
fn all_colors_present() {
    // If new variant is ever added
    assert_eq!(
        ALL.len(),
        20,
        "update `ALL` when adding/removing a Color variant"
    );
}

#[test]
fn ids_match_todoist_docs() {
    let expected: &[(Color, u8)] = &[
        (Color::BerryRed, 30),
        (Color::Red, 31),
        (Color::Orange, 32),
        (Color::Yellow, 33),
        (Color::OliveGreen, 34),
        (Color::LimeGreen, 35),
        (Color::Green, 36),
        (Color::MintGreen, 37),
        (Color::Teal, 38),
        (Color::SkyBlue, 39),
        (Color::LightBlue, 40),
        (Color::Blue, 41),
        (Color::Grape, 42),
        (Color::Violet, 43),
        (Color::Lavender, 44),
        (Color::Magenta, 45),
        (Color::Salmon, 46),
        (Color::Charcoal, 47),
        (Color::Grey, 48),
        (Color::Taupe, 49),
    ];
    for (color, id) in expected {
        assert_eq!(&color.id(), id, "{color:?} id mismatch");
    }
}

#[test]
fn hex_matches_todoist_docs() {
    let expected: &[(Color, &str)] = &[
        (Color::BerryRed, "#b8255f"),
        (Color::Red, "#dc4c3e"),
        (Color::Orange, "#c77100"),
        (Color::Yellow, "#b29104"),
        (Color::OliveGreen, "#949c31"),
        (Color::LimeGreen, "#65a33a"),
        (Color::Green, "#369307"),
        (Color::MintGreen, "#42a393"),
        (Color::Teal, "#148fad"),
        (Color::SkyBlue, "#319dc0"),
        (Color::LightBlue, "#6988a4"),
        (Color::Blue, "#4180ff"),
        (Color::Grape, "#692ec2"),
        (Color::Violet, "#ca3fee"),
        (Color::Lavender, "#a4698c"),
        (Color::Magenta, "#e05095"),
        (Color::Salmon, "#c9766f"),
        (Color::Charcoal, "#808080"),
        (Color::Grey, "#999999"),
        (Color::Taupe, "#8f7a69"),
    ];
    for (color, hex) in expected {
        assert_eq!(&color.hex().to_lowercase(), hex, "{color:?} hex mismatch");
    }
}

#[test]
fn color_rgb_and_default() {
    assert_eq!(Color::Blue.rgb(), (0x41, 0x80, 0xff));
    assert_eq!(Color::default(), Color::Charcoal);
    let mut ids: Vec<u8> = ALL.iter().map(|c| c.id()).collect();
    ids.dedup();
    assert_eq!(ids.len(), 20);
}

#[test]
fn id_from_uuid_is_hyphenated_lowercase() {
    let u = uuid::Uuid::from_u128(0x67e5_5044_10b1_426f_9247_bb68_0e5f_e0c8);
    let id = Id::from(u);
    assert_eq!(id.0, "67e55044-10b1-426f-9247-bb680e5fe0c8");
    assert_eq!(Id::from("abc"), Id::from(String::from("abc")));
}

#[test]
fn calendar_dates_follow_the_gregorian_calendar() {
    assert!(CalendarDate::from_ymd_opt(2024, 2, 29).is_some());
    assert!(CalendarDate::from_ymd_opt(2023, 2, 29).is_none());
    assert!(CalendarDate::from_ymd_opt(1900, 2, 29).is_none());
    assert!(CalendarDate::from_ymd_opt(2000, 2, 29).is_some());
    assert!(CalendarDate::from_ymd_opt(2025, 4, 31).is_none());
    assert!(CalendarDate::from_ymd_opt(2025, 13, 1).is_none());
    assert!(CalendarDate::from_ymd_opt(2025, 1, 0).is_none());
    let d = CalendarDate::from_ymd_opt(2025, 2, 12).unwrap();
    assert_eq!((d.year(), d.month(), d.day()), (2025, 2, 12));
    assert_eq!(CalendarDate::default(), CalendarDate::from_ymd_opt(1970, 1, 1).unwrap());
}

#[test]
fn deadline_dates_are_written_as_chrono_writes_them() {
    for (y, m, d) in [(2025, 2, 12), (1, 1, 1), (9999, 12, 31), (10000, 1, 1), (-1, 3, 4), (262142, 6, 7)] {
        let date = CalendarDate::from_ymd_opt(y, m, d).unwrap();
        let ours = deadline_time_format::serialize(&date);
        let theirs = chrono::NaiveDate::from_ymd_opt(y, m, d)
            .unwrap()
            .format("%Y-%m-%d")
            .to_string();
        assert_eq!(ours, theirs);
    }
    let date = CalendarDate::from_ymd_opt(2025, 2, 12).unwrap();
    assert_eq!(deadline_time_format::serialize(&date), "2025-02-12");
}

#[test]
fn deadline_dates_read_back() {
    let date = CalendarDate::from_ymd_opt(2025, 2, 12).unwrap();
    let text = deadline_time_format::serialize(&date);
    assert_eq!(deadline_time_format::deserialize(&text).unwrap(), date);
    assert!(deadline_time_format::deserialize("2025-02-30").is_err());
    assert!(deadline_time_format::deserialize("yesterday").is_err());
}

#[test]
fn json_strings_are_escaped_as_serde_json_does() {
    for s in ["plain", "quo\"te", "back\\slash", "tab\tnew\nline", "\u{1}\u{1f}", "ünïcode", "\u{8}\u{c}\r"] {
        assert_eq!(todoist_sdk::json::quote(s), serde_json::to_string(s).unwrap());
    }
    assert_eq!(todoist_sdk::json::quote("a\"b"), r#""a\"b""#);
}
