//! Naive timestamps with second resolution, and the calendar fields that
//! `chrono` derives from them.
//!
//! A [`Timestamp`] counts seconds from 1970-01-01 00:00:00 in the archive's
//! reference calendar. Arithmetic and comparisons are plain integer
//! arithmetic and are verified here; everything that needs the Gregorian
//! calendar (year, day of year, the printed form) is asked of `chrono`.

use chrono::{Datelike, Timelike};
use vstd::prelude::*;

verus! {

/// Seconds of 0000-01-01 00:00:00, the earliest supported instant.
pub const MIN_SECONDS: i64 = -62_167_219_200;

/// Seconds of 9999-12-31 23:59:59, the latest supported instant.
pub const MAX_SECONDS: i64 = 253_402_300_799;

/// The length of one hour bucket.
pub const SECONDS_PER_HOUR: i64 = 3_600;

/// The age beyond which an hour can no longer receive new files.
pub const STALE_AFTER_SECONDS: i64 = 86_400;

/// Whether `secs` lies in the supported range of instants.
pub open spec fn supported(secs: int) -> bool {
    MIN_SECONDS <= secs <= MAX_SECONDS
}

/// The instant `hours` whole hours before `secs`.
pub open spec fn hours_earlier(secs: int, hours: int) -> int {
    secs - SECONDS_PER_HOUR * hours
}

/// Whether an hour that began at `hour` is older than the staleness
/// threshold when the clock reads `now`.
pub open spec fn is_stale_at(hour: int, now: int) -> bool {
    now - hour > STALE_AFTER_SECONDS
}

/// The hour of day, 0 to 23, of the instant `secs`.
pub open spec fn civil_hour(secs: int) -> int {
    (secs % 86_400) / 3_600
}

/// The calendar year that `chrono` assigns to the instant `secs`.
pub uninterp spec fn civil_year(secs: int) -> int;

/// The day of the year, counted from 1, that `chrono` assigns to the
/// instant `secs`.
pub uninterp spec fn civil_ordinal(secs: int) -> int;

/// The text `chrono` prints for the naive date and time of the instant
/// `secs`.
pub uninterp spec fn civil_text(secs: int) -> Seq<char>;

/// `Datelike::year` of the `NaiveDateTime` that `DateTime::from_timestamp`
/// builds from `secs`. Within the supported range that constructor returns
/// `Some`; the year itself is only named, not described.
#[verifier::external_body]
fn year_at(secs: i64) -> (year: i32)
    requires
        supported(secs as int),
    ensures
        year == civil_year(secs as int),
{
    chrono::DateTime::from_timestamp(secs, 0).unwrap().naive_utc().year()
}

/// `Datelike::ordinal` of the `NaiveDateTime` that
/// `DateTime::from_timestamp` builds from `secs`. The day of year is named,
/// and lies between 1 and 366 as the method documents.
#[verifier::external_body]
fn ordinal_at(secs: i64) -> (ordinal: u32)
    requires
        supported(secs as int),
    ensures
        ordinal == civil_ordinal(secs as int),
        1 <= ordinal <= 366,
{
    chrono::DateTime::from_timestamp(secs, 0).unwrap().naive_utc().ordinal()
}

/// `Timelike::hour` of the `NaiveDateTime` that `DateTime::from_timestamp`
/// builds from `secs`. The constructor splits `secs` into days and seconds
/// of the day by Euclidean division, and the hour is the seconds of the day
/// divided by 3600.
#[verifier::external_body]
fn hour_at(secs: i64) -> (hour: u32)
    requires
        supported(secs as int),
    ensures
        hour == civil_hour(secs as int),
{
    chrono::DateTime::from_timestamp(secs, 0).unwrap().naive_utc().hour()
}

/// The `Display` form of the `NaiveDateTime` that
/// `DateTime::from_timestamp` builds from `secs`; the text is only named.
#[verifier::external_body]
fn text_at(secs: i64) -> (text: String)
    requires
        supported(secs as int),
    ensures
        text@ == civil_text(secs as int),
{
    format!("{}", chrono::DateTime::from_timestamp(secs, 0).unwrap().naive_utc())
}

/// `Utc::now`, as whole seconds since the epoch. Nothing is promised of the
/// value: it is whatever the system clock says.
#[verifier::external_body]
fn clock_seconds() -> (secs: i64) {
    chrono::Utc::now().timestamp()
}

/// An instant with second resolution inside the supported range.
#[derive(Clone, Copy, Debug, PartialEq, Eq, Structural)]
pub struct Timestamp {
    secs: i64,
}

impl View for Timestamp {
    type V = int;

    closed spec fn view(&self) -> int {
        self.secs as int
    }
}

impl Timestamp {
    #[verifier::type_invariant]
    spec fn in_range(self) -> bool {
        supported(self.secs as int)
    }

    /// The timestamp `secs` seconds after the epoch, if that instant is
    /// supported.
    pub fn from_seconds(secs: i64) -> (stamp: Option<Timestamp>)
        ensures
            stamp is Some <==> supported(secs as int),
            stamp matches Some(t) ==> t@ == secs,
    {
        if MIN_SECONDS <= secs && secs <= MAX_SECONDS {
            Some(Timestamp { secs })
        } else {
            None
        }
    }

    /// The timestamp `secs` seconds after the epoch, for an instant known
    /// to be supported.
    pub(crate) fn at(secs: i64) -> (stamp: Timestamp)
        requires
            supported(secs as int),
        ensures
            stamp@ == secs,
    {
        Timestamp { secs }
    }

    /// Seconds since the epoch.
    pub fn seconds(&self) -> (secs: i64)
        ensures
            secs == self@,
            supported(secs as int),
    {
        proof {
            use_type_invariant(self);
        }
        self.secs
    }

    /// Whether this instant is strictly earlier than `other`.
    pub fn is_before(&self, other: &Timestamp) -> (earlier: bool)
        ensures
            earlier == (self@ < other@),
            supported(self@),
            supported(other@),
    {
        proof {
            use_type_invariant(self);
            use_type_invariant(other);
        }
        self.secs < other.secs
    }

    /// The instant `hours` whole hours earlier, or `None` where that would
    /// leave the supported range.
    pub fn hours_before(&self, hours: u32) -> (stamp: Option<Timestamp>)
        ensures
            stamp is Some <==> supported(hours_earlier(self@, hours as int)),
            stamp matches Some(t) ==> t@ == hours_earlier(self@, hours as int),
    {
        proof {
            use_type_invariant(self);
        }
        let span: i64 = SECONDS_PER_HOUR * (hours as i64);
        Timestamp::from_seconds(self.secs - span)
    }

    /// Whether an hour bucket that began at this instant is older than the
    /// staleness threshold at `now`.
    pub fn is_stale(&self, now: &Timestamp) -> (stale: bool)
        ensures
            stale == is_stale_at(self@, now@),
    {
        proof {
            use_type_invariant(self);
            use_type_invariant(now);
        }
        now.secs - self.secs > STALE_AFTER_SECONDS
    }

    /// The calendar year of this instant.
    pub fn year(&self) -> (year: i32)
        ensures
            year == civil_year(self@),
    {
        proof {
            use_type_invariant(self);
        }
        year_at(self.secs)
    }

    /// The day of the year of this instant, counted from 1.
    pub fn ordinal(&self) -> (ordinal: u32)
        ensures
            ordinal == civil_ordinal(self@),
            1 <= ordinal <= 366,
    {
        proof {
            use_type_invariant(self);
        }
        ordinal_at(self.secs)
    }

    /// The hour of the day of this instant.
    pub fn hour(&self) -> (hour: u32)
        ensures
            hour == civil_hour(self@),
            hour < 24,
    {
        proof {
            use_type_invariant(self);
        }
        hour_at(self.secs)
    }

    /// The date and time of this instant as `chrono` prints them.
    pub fn text(&self) -> (text: String)
        ensures
            text@ == civil_text(self@),
    {
        proof {
            use_type_invariant(self);
        }
        text_at(self.secs)
    }

    /// The system clock's reading, or `None` where the clock is outside the
    /// supported range.
    pub fn now() -> (stamp: Option<Timestamp>)
        ensures
            stamp matches Some(t) ==> supported(t@),
    {
        Timestamp::from_seconds(clock_seconds())
    }
}

} // verus!
