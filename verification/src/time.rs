//! Instants and calendar dates as plain integers.

use chrono::Datelike;
use vstd::prelude::*;

verus! {

/// Nanoseconds in one second.
pub const NANOS_PER_SECOND: i64 = 1_000_000_000;

/// Nanoseconds after which a report that is still running counts as stale:
/// twenty-four hours.
pub const STALE_AFTER_NANOS: i64 = 86_400_000_000_000;

/// An instant on the UTC time line: whole seconds since the Unix epoch and
/// the nanoseconds that have passed since that second began.
#[derive(Clone, Copy, Debug, PartialEq, Eq, Structural)]
pub struct Timestamp {
    pub secs: i64,
    pub nanos: u32,
}

/// A day of the proleptic Gregorian calendar.
#[derive(Clone, Copy, Debug, PartialEq, Eq, Structural)]
pub struct CalendarDate {
    pub year: i32,
    pub month: u32,
    pub day: u32,
}

/// The UTC calendar day on which the instant `secs` seconds and `nanos`
/// nanoseconds after the Unix epoch falls, as `chrono` computes it, or `None`
/// where `chrono` cannot represent that instant.
pub uninterp spec fn utc_date_of(secs: i64, nanos: u32) -> Option<CalendarDate>;

/// Calls `chrono::DateTime::<Utc>::from_timestamp` and, on the instant it
/// returns, `DateTime::date_naive`; the year, month and day of that date are
/// handed back as plain integers. The contract only gives the outcome its
/// name: the same instant always falls on the same day.
#[verifier::external_body]
fn utc_date(secs: i64, nanos: u32) -> (date: Option<CalendarDate>)
    ensures
        date == utc_date_of(secs, nanos),
{
    match chrono::DateTime::from_timestamp(secs, nanos) {
        Some(moment) => {
            let day = moment.date_naive();
            Some(CalendarDate { year: day.year(), month: day.month(), day: day.day() })
        },
        None => None,
    }
}

impl Timestamp {
    /// The instant as a count of nanoseconds since the Unix epoch.
    pub open spec fn as_nanos(self) -> int {
        self.secs * NANOS_PER_SECOND + self.nanos
    }

    /// Nanoseconds from `earlier` to `self`; negative where `self` is the
    /// earlier of the two.
    pub open spec fn spec_nanos_since(self, earlier: Timestamp) -> int {
        self.as_nanos() - earlier.as_nanos()
    }

    /// Whether something begun at `self` is stale at `now`: strictly more
    /// than twenty-four hours lie between the two.
    pub open spec fn spec_stale_at(self, now: Timestamp) -> bool {
        now.spec_nanos_since(self) > STALE_AFTER_NANOS
    }

    /// The UTC calendar day of the instant.
    pub open spec fn spec_date(self) -> Option<CalendarDate> {
        utc_date_of(self.secs, self.nanos)
    }

    pub fn new(secs: i64, nanos: u32) -> (t: Timestamp)
        ensures
            t == (Timestamp { secs, nanos }),
    {
        Timestamp { secs, nanos }
    }

    /// Nanoseconds from `earlier` to `self`.
    pub fn nanos_since(&self, earlier: &Timestamp) -> (elapsed: i128)
        ensures
            elapsed == self.spec_nanos_since(*earlier),
    {
        let later: i128 = self.secs as i128 * 1_000_000_000 + self.nanos as i128;
        let sooner: i128 = earlier.secs as i128 * 1_000_000_000 + earlier.nanos as i128;
        later - sooner
    }

    /// Whether something begun at `self` is stale at `now`.
    pub fn stale_at(&self, now: &Timestamp) -> (stale: bool)
        ensures
            stale == self.spec_stale_at(*now),
    {
        now.nanos_since(self) > STALE_AFTER_NANOS as i128
    }

    /// Whether `self` is strictly later than `other`.
    pub open spec fn spec_after(self, other: Timestamp) -> bool {
        self.as_nanos() > other.as_nanos()
    }

    /// Whether `self` is strictly later than `other`.
    pub fn after(&self, other: &Timestamp) -> (later: bool)
        ensures
            later == self.spec_after(*other),
    {
        self.nanos_since(other) > 0
    }

    /// The UTC calendar day of the instant, or `None` where the instant lies
    /// outside what `chrono` represents.
    pub fn date(&self) -> (day: Option<CalendarDate>)
        ensures
            day == self.spec_date(),
    {
        utc_date(self.secs, self.nanos)
    }
}

} // verus!
