use vstd::prelude::*;

verus! {

/// A time of day: seconds since midnight and nanoseconds, where nanoseconds of a
/// second or more stand for a leap second.
#[derive(Clone, Copy, Debug, PartialEq, Eq, Structural)]
pub struct TimeOfDay {
    pub secs: u32,
    pub nanos: u32,
}

/// An instant in UTC: the day (counted from 0001-01-01 as day 1, as chrono counts days
/// from the common era) and the time of day.
#[derive(Clone, Copy, Debug, PartialEq, Eq, Structural)]
pub struct Instant {
    pub day: i32,
    pub secs: u32,
    pub nanos: u32,
}

impl TimeOfDay {
    /// Midnight.
    pub fn midnight() -> (r: TimeOfDay)
        ensures
            r.secs == 0 && r.nanos == 0,
    {
        TimeOfDay { secs: 0, nanos: 0 }
    }
}

impl Instant {
    /// The instant at `time` on `day`.
    pub fn at(day: i32, time: TimeOfDay) -> (r: Instant)
        ensures
            r == (Instant { day, secs: time.secs, nanos: time.nanos }),
    {
        Instant { day, secs: time.secs, nanos: time.nanos }
    }

    /// The time of day of this instant.
    pub fn time_of_day(&self) -> (r: TimeOfDay)
        ensures
            r == (TimeOfDay { secs: self.secs, nanos: self.nanos }),
    {
        TimeOfDay { secs: self.secs, nanos: self.nanos }
    }

    /// Whether `self` comes strictly before `other`.
    pub fn is_before(&self, other: &Instant) -> (r: bool)
        ensures
            r == before(*self, *other),
    {
        self.day < other.day || (self.day == other.day && (self.secs < other.secs || (
        self.secs == other.secs && self.nanos < other.nanos)))
    }
}

/// The order of instants: by day, then by time of day.
pub open spec fn before(a: Instant, b: Instant) -> bool {
    a.day < b.day || (a.day == b.day && (a.secs < b.secs || (a.secs == b.secs && a.nanos
        < b.nanos)))
}

pub open spec fn not_after(a: Instant, b: Instant) -> bool {
    !before(b, a)
}

/// The text that chrono writes for an instant in UTC.
pub uninterp spec fn utc_text(i: Instant) -> Seq<char>;

/// The text that chrono writes for a calendar date (`YYYY-MM-DD` in the common years).
pub uninterp spec fn date_text(day: int) -> Seq<char>;

/// The first day chrono's calendar holds: January 1 of the year -262143.
pub const FIRST_DAY: i32 = -95_746_129;

/// The last day chrono's calendar holds: December 31 of the year 262142.
pub const LAST_DAY: i32 = 95_745_399;

/// A day that chrono's calendar holds.
pub open spec fn calendar_day(day: int) -> bool {
    FIRST_DAY <= day <= LAST_DAY
}

/// An instant that chrono can write: a day of its calendar and a time of day, where a
/// leap second (nanoseconds of a second or more) falls on the last second of a minute.
pub open spec fn writable(i: Instant) -> bool {
    &&& calendar_day(i.day as int)
    &&& i.secs < 86_400
    &&& i.nanos < 2_000_000_000
    &&& (i.nanos >= 1_000_000_000 ==> i.secs % 60 == 59)
}

/// Relies on chrono's `NaiveDate::from_num_days_from_ce_opt`,
/// `NaiveTime::from_num_seconds_from_midnight_opt` and the `Display` of
/// `DateTime<Utc>`: the text of the instant, which chrono gives exactly where both
/// constructors accept their arguments.
#[verifier::external_body]
pub(crate) fn utc_instant_text(i: &Instant) -> (r: Option<String>)
    ensures
        r matches Some(s) ==> s@ == utc_text(*i),
        r is Some <==> writable(*i),
{
    let date = chrono::NaiveDate::from_num_days_from_ce_opt(i.day)?;
    let time = chrono::NaiveTime::from_num_seconds_from_midnight_opt(i.secs, i.nanos)?;
    Some(date.and_time(time).and_utc().to_string())
}

/// Relies on chrono's `NaiveDate::from_num_days_from_ce_opt` and the `Display` of
/// `NaiveDate`: the text of the date, which chrono gives exactly for the days of its
/// calendar.
#[verifier::external_body]
pub(crate) fn calendar_date_text(day: i32) -> (r: Option<String>)
    ensures
        r matches Some(s) ==> s@ == date_text(day as int),
        r is Some <==> calendar_day(day as int),
{
    chrono::NaiveDate::from_num_days_from_ce_opt(day).map(|d| d.to_string())
}

} // verus!
