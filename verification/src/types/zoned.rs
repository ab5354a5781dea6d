//! An instant seen from a named time zone.
use core::cmp::Ordering;
use vstd::prelude::*;
use vstd::std_specs::cmp::{PartialEqSpecImpl, PartialOrdSpecImpl};

use crate::types::time::{check_timezone, is_timezone_name, Timestamp};

verus! {

/// An instant seen from a named IANA time zone (what
/// `chrono::DateTime<chrono_tz::Tz>` holds). Like chrono's `DateTime`, two
/// values are equal, and ordered, by their instants alone. The zone is
/// always one `chrono_tz` knows.
#[derive(Debug, Eq)]
pub struct ZonedDateTime {
    instant: Timestamp,
    timezone: String,
}

/// The contents of a [`ZonedDateTime`].
pub struct ZonedDateTimeView {
    /// The instant's seconds since the epoch and nanoseconds.
    pub instant: (i64, u32),
    /// The zone's IANA name, e.g. `Europe/Madrid`.
    pub timezone: Seq<char>,
}

impl View for ZonedDateTime {
    type V = ZonedDateTimeView;

    closed spec fn view(&self) -> ZonedDateTimeView {
        ZonedDateTimeView { instant: self.instant@, timezone: self.timezone@ }
    }
}

impl ZonedDateTime {
    #[verifier::type_invariant]
    spec fn known_zone(self) -> bool {
        is_timezone_name(self.timezone@)
    }

    /// The instant seen from the zone of the given name, or `None` when
    /// `chrono_tz` knows no zone of that name.
    pub fn new(instant: Timestamp, timezone: String) -> (r: Option<ZonedDateTime>)
        ensures
            r is Some <==> is_timezone_name(timezone@),
            r matches Some(z) ==> z@.instant == instant@ && z@.timezone == timezone@,
    {
        match check_timezone(timezone.as_str()) {
            Ok(()) => Some(ZonedDateTime { instant, timezone }),
            Err(_) => None,
        }
    }

    /// The instant seen from a zone already known to exist.
    pub(crate) fn in_known_zone(instant: Timestamp, timezone: String) -> (z: ZonedDateTime)
        requires
            is_timezone_name(timezone@),
        ensures
            z@.instant == instant@,
            z@.timezone == timezone@,
    {
        ZonedDateTime { instant, timezone }
    }

    /// The instant.
    pub fn instant(&self) -> (t: Timestamp)
        ensures
            t@ == self@.instant,
    {
        self.instant
    }

    /// The zone's IANA name.
    pub fn timezone(&self) -> (z: &str)
        ensures
            z@ == self@.timezone,
            is_timezone_name(self@.timezone),
    {
        proof {
            use_type_invariant(self);
        }
        self.timezone.as_str()
    }
}

impl Clone for ZonedDateTime {
    fn clone(&self) -> (r: Self)
        ensures
            r@ == self@,
    {
        proof {
            use_type_invariant(self);
        }
        ZonedDateTime { instant: self.instant, timezone: self.timezone.clone() }
    }
}

/// The chronological order of two instants.
pub open spec fn instant_order(a: (i64, u32), b: (i64, u32)) -> Ordering {
    if a.0 < b.0 {
        Ordering::Less
    } else if a.0 > b.0 {
        Ordering::Greater
    } else if a.1 < b.1 {
        Ordering::Less
    } else if a.1 > b.1 {
        Ordering::Greater
    } else {
        Ordering::Equal
    }
}

impl PartialEq for ZonedDateTime {
    fn eq(&self, other: &Self) -> (r: bool)
        ensures
            r <==> self@.instant.0 == other@.instant.0 && self@.instant.1 == other@.instant.1,
    {
        self.instant.seconds() == other.instant.seconds() && self.instant.nanos()
            == other.instant.nanos()
    }
}

impl PartialEqSpecImpl for ZonedDateTime {
    open spec fn obeys_eq_spec() -> bool {
        true
    }

    open spec fn eq_spec(&self, other: &Self) -> bool {
        self@.instant == other@.instant
    }
}

impl PartialOrd for ZonedDateTime {
    fn partial_cmp(&self, other: &Self) -> (r: Option<Ordering>)
        ensures
            r == Some(Ordering::Less) <==> (self@.instant.0 < other@.instant.0 || (self@.instant.0
                == other@.instant.0 && self@.instant.1 < other@.instant.1)),
            r == Some(Ordering::Greater) <==> (self@.instant.0 > other@.instant.0 || (
            self@.instant.0 == other@.instant.0 && self@.instant.1 > other@.instant.1)),
            r == Some(Ordering::Equal) <==> self@.instant == other@.instant,
    {
        let a = self.instant;
        let b = other.instant;
        if a.seconds() < b.seconds() {
            Some(Ordering::Less)
        } else if a.seconds() > b.seconds() {
            Some(Ordering::Greater)
        } else if a.nanos() < b.nanos() {
            Some(Ordering::Less)
        } else if a.nanos() > b.nanos() {
            Some(Ordering::Greater)
        } else {
            Some(Ordering::Equal)
        }
    }
}

impl PartialOrdSpecImpl for ZonedDateTime {
    open spec fn obeys_partial_cmp_spec() -> bool {
        true
    }

    open spec fn partial_cmp_spec(&self, other: &Self) -> Option<Ordering> {
        Some(instant_order(self@.instant, other@.instant))
    }
}

/// Zoned times are ordered chronologically, by their instants alone: one
/// is less than another exactly when it has fewer seconds since the epoch,
/// or as many seconds and fewer nanoseconds; equal exactly when the instants
/// are equal, whatever their zones.
pub proof fn lemma_zoned_order_is_chronological(a: ZonedDateTime, b: ZonedDateTime)
    ensures
        vstd::std_specs::cmp::PartialOrdSpec::partial_cmp_spec(&a, &b) == Some(Ordering::Less) <==> (a@.instant.0 < b@.instant.0 || (
        a@.instant.0 == b@.instant.0 && a@.instant.1 < b@.instant.1)),
        vstd::std_specs::cmp::PartialOrdSpec::partial_cmp_spec(&a, &b) == Some(Ordering::Greater) <==> (a@.instant.0 > b@.instant.0 || (
        a@.instant.0 == b@.instant.0 && a@.instant.1 > b@.instant.1)),
        vstd::std_specs::cmp::PartialOrdSpec::partial_cmp_spec(&a, &b) == Some(Ordering::Equal) <==> a@.instant == b@.instant,
        vstd::std_specs::cmp::PartialEqSpec::eq_spec(&a, &b) <==> (a@.instant.0 == b@.instant.0 && a@.instant.1 == b@.instant.1),
{
}

} // verus!
