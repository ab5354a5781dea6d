//! Tasks and their due dates, deadlines and durations.
use vstd::pervasive::unreached;
use vstd::prelude::*;

use crate::error::SdkError;
use crate::types::time::{
    check_timezone, is_timezone_name, lemma_calendar_date_view_injective,
    lemma_local_datetime_view_injective, naive_date_from_str, naive_datetime_from_str,
    parse_naive_date, parse_naive_datetime, parse_utc_datetime, utc_datetime_from_str, CalendarDate,
    LocalDateTime, Timestamp,
};
use crate::types::zoned::ZonedDateTime;
use crate::types::nonzero::NonZeroU32;
use crate::types::{Id, Uid};

verus! {

/// A Todoist task.
#[derive(Debug, Default, Clone, PartialEq, Eq, PartialOrd, Ord)]
pub struct Task {
    /// The ID of the task.
    pub id: Id,
    /// The owner of the task.
    pub user_id: Uid,
    /// The ID of the parent project.
    pub project_id: Id,
    /// The text of the task. This value may contain markdown-formatted text
    /// and hyperlinks.
    pub content: String,
    /// A description for the task. This value may contain markdown-formatted
    /// text and hyperlinks.
    pub description: String,
    /// The due date of the task.
    pub due: Option<DueDate>,
    /// The deadline of the task.
    pub deadline: Option<Deadline>,
    /// The priority of the task (a number between `1` and `4`, `4` for very
    /// urgent and `1` for natural). Very urgent is the priority `1` on
    /// clients, so `p1` is `4` in the API.
    pub priority: u8,
    /// The ID of the parent task; `None` for root tasks.
    pub parent_id: Option<Id>,
    /// The position of the task among the tasks with the same parent.
    pub child_order: i32,
    /// Fractional-indexing order key: tasks sort by comparing keys
    /// lexicographically among siblings sharing the same project, section
    /// and parent task. May be `None` for tasks not yet migrated.
    pub order_key: Option<String>,
    /// The ID of the parent section; `None` for tasks not in a section.
    pub section_id: Option<Id>,
    /// The order of the task inside the `Today` or `Next 7 days` view (the
    /// smallest value places the task at the top).
    pub day_order: i32,
    /// Whether the task's sub-tasks are collapsed.
    pub is_collapsed: bool,
    /// The task's labels (names of personal or shared labels).
    pub labels: Vec<String>,
    /// The UID of the user who created the task (shared projects only);
    /// `None` for tasks created before 31 Oct 2019.
    pub added_by_uid: Option<Uid>,
    /// The UID of the user who assigned the task (shared projects only).
    pub assigned_by_uid: Option<Uid>,
    /// The UID of the user responsible for the task (shared projects only).
    pub responsible_uid: Option<Uid>,
    /// Whether the task is marked as completed.
    pub checked: bool,
    /// Whether the task is marked as deleted.
    pub is_deleted: bool,
    /// When the task was completed, or `None` if it is not.
    pub completed_at: Option<Timestamp>,
    /// When the task was created.
    pub added_at: Timestamp,
    /// When the task was last updated.
    pub updated_at: Timestamp,
    /// The task's duration; `None` if it has none.
    pub duration: Option<TaskDuration>,
}

/// How long a task takes.
#[derive(Debug, Clone, Copy, PartialEq, Eq, PartialOrd, Ord, Structural)]
pub struct TaskDuration {
    pub amount: NonZeroU32,
    pub unit: TaskDurationUnit,
}

/// The unit of a [`TaskDuration`].
#[derive(Debug, Clone, Copy, PartialEq, Eq, PartialOrd, Ord, Structural)]
pub enum TaskDurationUnit {
    Minute,
    Day,
}

/// A task's due date, as the Todoist API describes it.
#[derive(Debug, Default, Clone, PartialEq, Eq, PartialOrd, Ord)]
pub struct DueDate {
    date: String,
    /// Human-readable representation of the due date, always in the user's
    /// time zone.
    pub string: String,
    /// Time zone of the due instance; read through [`DueDate::to_datetime`].
    timezone: Option<String>,
    /// Language used to parse `string`.
    pub lang: isolang::Language,
    /// Whether the due object represents a recurring due date.
    pub is_recurring: bool,
}

/// The characters of an optional string slice.
pub open spec fn str_option_view(o: Option<&str>) -> Option<Seq<char>> {
    match o {
        Some(s) => Some(s@),
        None => None,
    }
}

/// The characters of an optional string.
pub open spec fn string_option_view(o: Option<String>) -> Option<Seq<char>> {
    match o {
        Some(s) => Some(s@),
        None => None,
    }
}

/// The contents of a [`DueDate`].
pub struct DueDateView {
    pub date: Seq<char>,
    pub string: Seq<char>,
    pub timezone: Option<Seq<char>>,
    pub lang: isolang::Language,
    pub is_recurring: bool,
}

impl View for DueDate {
    type V = DueDateView;

    closed spec fn view(&self) -> DueDateView {
        DueDateView {
            date: self.date@,
            string: self.string@,
            timezone: string_option_view(self.timezone),
            lang: self.lang,
            is_recurring: self.is_recurring,
        }
    }
}

/// What a due date means, by the shape of its `date` string.
#[derive(Debug, Clone, PartialEq, Eq, PartialOrd)]
pub enum DueDateType {
    /// Derived from a `YYYY-MM-DD` date string.
    FullDay(CalendarDate),
    /// Derived from a timestamp date string.
    FloatingDateTime(LocalDateTime),
    /// Derived from a timestamp date string with a provided time zone.
    DateTimeTimezone(ZonedDateTime),
}

/// Whether a time zone was given and is not a known zone name.
pub open spec fn has_unknown_timezone(timezone: Option<Seq<char>>) -> bool {
    timezone matches Some(zone) && !is_timezone_name(zone)
}

/// The outcome of interpreting a due date's `date` string and optional time
/// zone: an unknown time zone is an error; otherwise a plain date wins;
/// otherwise a time zone makes the string a UTC instant seen from that zone;
/// otherwise it is a floating date and time.
pub open spec fn due_date_meaning(
    date: Seq<char>,
    timezone: Option<Seq<char>>,
    r: core::result::Result<DueDateType, SdkError>,
) -> bool {
    if has_unknown_timezone(timezone) {
        r matches Err(SdkError::InvalidTimezone(_))
    } else {
        match naive_date_from_str(date) {
            Some(ymd) => r matches Ok(DueDateType::FullDay(d)) && d@ == ymd,
            None => match timezone {
                Some(zone) => match utc_datetime_from_str(date) {
                    Some(instant) => r matches Ok(DueDateType::DateTimeTimezone(z))
                        && z@.instant == instant && z@.timezone == zone,
                    None => r matches Err(SdkError::InvalidDate(_)),
                },
                None => match naive_datetime_from_str(date) {
                    Some(parts) => r matches Ok(DueDateType::FloatingDateTime(t)) && t@ == parts,
                    None => r matches Err(SdkError::InvalidDate(_)),
                },
            },
        }
    }
}

/// The meaning of a due date depends on its `date` string and time zone
/// alone: two interpretations of the same inputs agree on success, and on
/// the date or time they find (for a zoned time, on the instant and the
/// zone's name).
pub proof fn lemma_due_date_meaning_is_unique(
    date: Seq<char>,
    timezone: Option<Seq<char>>,
    r1: core::result::Result<DueDateType, SdkError>,
    r2: core::result::Result<DueDateType, SdkError>,
)
    requires
        due_date_meaning(date, timezone, r1),
        due_date_meaning(date, timezone, r2),
    ensures
        r1 is Ok <==> r2 is Ok,
        r1 matches Ok(DueDateType::FullDay(_)) ==> r1 == r2,
        r1 matches Ok(DueDateType::FloatingDateTime(_)) ==> r1 == r2,
        r1 matches Ok(DueDateType::DateTimeTimezone(z1)) ==> (r2 matches Ok(
            DueDateType::DateTimeTimezone(z2),
        ) && z1@.instant == z2@.instant && z1@.timezone == z2@.timezone),
{
    match (r1, r2) {
        (Ok(DueDateType::FullDay(a)), Ok(DueDateType::FullDay(b))) => {
            lemma_calendar_date_view_injective(a, b);
        },
        (Ok(DueDateType::FloatingDateTime(a)), Ok(DueDateType::FloatingDateTime(b))) => {
            lemma_local_datetime_view_injective(a, b);
        },
        _ => {},
    }
}

/// A `date` string that is a plain `YYYY-MM-DD` date means that whole day,
/// with no time zone or with any known one.
pub proof fn lemma_plain_date_ignores_known_timezone(
    date: Seq<char>,
    tz1: Option<Seq<char>>,
    tz2: Option<Seq<char>>,
    r1: core::result::Result<DueDateType, SdkError>,
    r2: core::result::Result<DueDateType, SdkError>,
)
    requires
        naive_date_from_str(date) is Some,
        !has_unknown_timezone(tz1),
        !has_unknown_timezone(tz2),
        due_date_meaning(date, tz1, r1),
        due_date_meaning(date, tz2, r2),
    ensures
        r1 == r2,
        r1 matches Ok(DueDateType::FullDay(_)),
{
    match (r1, r2) {
        (Ok(DueDateType::FullDay(a)), Ok(DueDateType::FullDay(b))) => {
            lemma_calendar_date_view_injective(a, b);
        },
        _ => {},
    }
}

impl DueDateType {
    fn new(date: &str, timezone: Option<&str>) -> (r: core::result::Result<Self, SdkError>)
        ensures
            due_date_meaning(date@, str_option_view(timezone), r),
    {
        if let Some(zone) = timezone {
            if let Err(e) = check_timezone(zone) {
                return Err(SdkError::InvalidTimezone(e));
            }
        }
        if let Ok(ymd) = parse_naive_date(date) {
            let d = CalendarDate::from_ymd_opt(ymd.0, ymd.1, ymd.2);
            return match d {
                Some(d) => Ok(DueDateType::FullDay(d)),
                None => unreached(),
            };
        }
        match timezone {
            Some(zone) => match parse_utc_datetime(date) {
                Ok(instant) => match Timestamp::new(instant.0, instant.1) {
                    Some(t) => Ok(
                        DueDateType::DateTimeTimezone(
                            ZonedDateTime::in_known_zone(t, String::from_str(zone)),
                        ),
                    ),
                    None => unreached(),
                },
                Err(e) => Err(SdkError::InvalidDate(e)),
            },
            None => match parse_naive_datetime(date) {
                Ok(p) => {
                    let day = CalendarDate::from_ymd_opt(p.0, p.1, p.2);
                    match day {
                        Some(day) => match LocalDateTime::new(day, p.3, p.4, p.5, p.6) {
                            Some(t) => Ok(DueDateType::FloatingDateTime(t)),
                            None => unreached(),
                        },
                        None => unreached(),
                    }
                },
                Err(e) => Err(SdkError::InvalidDate(e)),
            },
        }
    }
}

impl DueDate {
    /// A due date from its parts.
    pub fn new(
        date: String,
        string: String,
        timezone: Option<String>,
        lang: isolang::Language,
        is_recurring: bool,
    ) -> (d: DueDate)
        ensures
            d@.date == date@,
            d@.timezone == string_option_view(timezone),
            d@.string == string@,
            d@.lang == lang,
            d@.is_recurring == is_recurring,
    {
        DueDate { date, string, timezone, lang, is_recurring }
    }

    /// The raw `date` string.
    pub fn date(&self) -> (s: &str)
        ensures
            s@ == self@.date,
    {
        self.date.as_str()
    }

    /// The raw time zone name, if any.
    pub fn timezone(&self) -> (t: Option<&str>)
        ensures
            str_option_view(t) == self@.timezone,
    {
        match &self.timezone {
            Some(t) => Some(t.as_str()),
            None => None,
        }
    }

    /// Converts the due date to a date type.
    ///
    /// # Errors
    ///
    /// Returns an error if:
    /// - `date` is an invalid timestamp.
    /// - The time zone is invalid (whatever `date` holds).
    pub fn to_datetime(&self) -> (r: core::result::Result<DueDateType, SdkError>)
        ensures
            due_date_meaning(self@.date, self@.timezone, r),
    {
        DueDateType::new(self.date(), self.timezone())
    }
}

/// A task's deadline.
#[derive(Debug, Default, Clone, PartialEq, Eq, PartialOrd, Ord)]
pub struct Deadline {
    /// The day of the deadline.
    pub date: CalendarDate,
    lang: isolang::Language,
}

impl View for Deadline {
    type V = (CalendarDate, isolang::Language);

    closed spec fn view(&self) -> (CalendarDate, isolang::Language) {
        (self.date, self.lang)
    }
}

impl Deadline {
    /// A deadline from its parts.
    pub fn new(date: CalendarDate, lang: isolang::Language) -> (d: Deadline)
        ensures
            d@ == (date, lang),
    {
        Deadline { date, lang }
    }

    /// The language the deadline was written in.
    pub fn lang(&self) -> (l: isolang::Language)
        ensures
            l == self@.1,
    {
        self.lang
    }
}

/// The name the Todoist API uses for a [`TaskDurationUnit`].
pub open spec fn duration_unit_name(x: TaskDurationUnit) -> Seq<char> {
    match x {
        TaskDurationUnit::Minute => "minute"@,
        TaskDurationUnit::Day => "day"@,
    }
}

/// Distinct values have distinct API names, so a name read back gives the
/// value it was written for.
pub proof fn lemma_duration_unit_name_identifies(a: TaskDurationUnit, b: TaskDurationUnit)
    ensures
        duration_unit_name(a) == duration_unit_name(b) <==> a == b,
{
    reveal_strlit("minute");
    reveal_strlit("day");
    if duration_unit_name(a) == duration_unit_name(b) {
        assert(duration_unit_name(a).len() == duration_unit_name(b).len());
        assert(duration_unit_name(a)[0] == duration_unit_name(b)[0]);
        assert(duration_unit_name(a)[1] == duration_unit_name(b)[1]);
        assert(duration_unit_name(a)[2] == duration_unit_name(b)[2]);
        assert(duration_unit_name(a)[3] == duration_unit_name(b)[3]);
        assert(duration_unit_name(a)[4] == duration_unit_name(b)[4]);
    }
}

/// The API's name for each duration unit.
pub proof fn lemma_duration_unit_names()
    ensures
        duration_unit_name(TaskDurationUnit::Minute) == "minute"@,
        duration_unit_name(TaskDurationUnit::Day) == "day"@,
{
}

impl TaskDurationUnit {
    /// The name the Todoist API uses for this value.
    pub fn api_name(&self) -> (s: &'static str)
        ensures
            s@ == duration_unit_name(*self),
    {
        match self {
            TaskDurationUnit::Minute => "minute",
            TaskDurationUnit::Day => "day",
        }
    }

    /// The value the Todoist API means by a name, if any.
    pub fn from_api_name(s: &str) -> (r: Option<TaskDurationUnit>)
        ensures
            match r {
                Some(x) => s@ == duration_unit_name(x),
                None => forall|x: TaskDurationUnit| s@ != #[trigger] duration_unit_name(x),
            },
    {
        let name = String::from_str(s);
        if name == String::from_str("minute") {
            return Some(TaskDurationUnit::Minute);
        }
        if name == String::from_str("day") {
            return Some(TaskDurationUnit::Day);
        }
        None
    }
}

} // verus!
