//! Durations and wall-clock instants as the engine sees them.
//!
//! `std::time::Duration` is carried through as it is; contracts speak of it
//! through [`duration_secs`] and [`duration_subsec_nanos`]. A point in time is
//! a [`Timestamp`]: whole seconds and nanoseconds since the Unix epoch, UTC.

use vstd::prelude::*;
use std::time::Duration;
use std::time::Instant;
use crate::engine::text::text_of;

verus! {

/// `std::time::Instant`, carried through as it is.
#[verifier::external_type_specification]
#[verifier::external_body]
pub struct ExInstant(Instant);

/// The whole seconds that a duration holds: what `Duration::as_secs` returns.
pub uninterp spec fn duration_secs(d: Duration) -> u64;

/// The part of a duration below one second, in nanoseconds: what
/// `Duration::subsec_nanos` returns.
pub uninterp spec fn duration_subsec_nanos(d: Duration) -> u32;

/// `Duration::from_secs` holds the given whole seconds and no fraction.
pub assume_specification[ Duration::from_secs ](secs: u64) -> (d: Duration)
    ensures
        duration_secs(d) == secs,
        duration_subsec_nanos(d) == 0,
;

/// `Duration::new` with a fraction below one second holds both parts as given.
/// (With a larger fraction std carries into the seconds and may panic; that
/// input is left out.)
pub assume_specification[ Duration::new ](secs: u64, nanos: u32) -> (d: Duration)
    requires
        nanos < 1_000_000_000,
    ensures
        duration_secs(d) == secs,
        duration_subsec_nanos(d) == nanos,
;

/// `Duration::as_secs` returns the whole seconds.
pub assume_specification[ Duration::as_secs ](d: &Duration) -> (secs: u64)
    ensures
        secs == duration_secs(*d),
;

/// `Duration::subsec_nanos` returns the fraction, always below one second.
pub assume_specification[ Duration::subsec_nanos ](d: &Duration) -> (nanos: u32)
    ensures
        nanos == duration_subsec_nanos(*d),
        nanos < 1_000_000_000,
;

/// A duration is `Copy`: its clone holds the same two parts.
pub assume_specification[ <Duration as Clone>::clone ](d: &Duration) -> (copy: Duration)
    ensures
        copy == *d,
;

/// Nanoseconds in one second.
pub const NANOS_PER_SEC: u32 = 1_000_000_000;

/// A point in time: seconds and nanoseconds since 1970-01-01T00:00:00 UTC.
#[derive(Debug, Clone, Copy, PartialEq, Eq, Structural)]
pub struct Timestamp {
    secs: i64,
    nanos: u32,
}

impl Timestamp {
    /// The fraction stays below one second.
    #[verifier::type_invariant]
    pub closed spec fn well_formed(self) -> bool {
        self.nanos < NANOS_PER_SEC
    }

    /// Whole seconds since the epoch (negative before it).
    pub closed spec fn spec_secs(self) -> int {
        self.secs as int
    }

    /// Nanoseconds past the whole second.
    pub closed spec fn spec_nanos(self) -> int {
        self.nanos as int
    }

    /// Nanoseconds since the epoch.
    pub open spec fn total_nanos(self) -> int {
        self.spec_secs() * 1_000_000_000 + self.spec_nanos()
    }

    /// A timestamp from its two parts; `None` when the fraction is a second or more.
    pub fn new(secs: i64, nanos: u32) -> (t: Option<Timestamp>)
        ensures
            t.is_some() <==> nanos < NANOS_PER_SEC,
            t matches Some(ts) ==> ts.spec_secs() == secs && ts.spec_nanos() == nanos,
    {
        if nanos < NANOS_PER_SEC {
            Some(Timestamp { secs, nanos })
        } else {
            None
        }
    }

    /// Whole seconds since the epoch.
    pub fn secs(&self) -> (s: i64)
        ensures
            s == self.spec_secs(),
    {
        self.secs
    }

    /// Nanoseconds past the whole second, below one second.
    pub fn nanos(&self) -> (n: u32)
        ensures
            n == self.spec_nanos(),
            n < NANOS_PER_SEC,
    {
        proof {
            use_type_invariant(self);
        }
        self.nanos
    }

    /// The time from `self` to `later`; zero when `later` is not after `self`.
    pub fn elapsed_until(&self, later: &Timestamp) -> (d: Duration)
        ensures
            duration_secs(d) == elapsed_secs(*self, *later),
            duration_subsec_nanos(d) == elapsed_subsec_nanos(*self, *later),
    {
        proof {
            use_type_invariant(self);
            use_type_invariant(later);
        }
        let before: (i64, u32) = (self.secs, self.nanos);
        let after: (i64, u32) = (later.secs, later.nanos);
        if after.0 < before.0 || (after.0 == before.0 && after.1 <= before.1) {
            Duration::new(0, 0)
        } else if after.1 >= before.1 {
            let whole: i128 = after.0 as i128 - before.0 as i128;
            Duration::new(whole as u64, after.1 - before.1)
        } else {
            let whole: i128 = after.0 as i128 - before.0 as i128 - 1;
            Duration::new(whole as u64, after.1 + NANOS_PER_SEC - before.1)
        }
    }
}

/// The calendar date of a moment in UTC, as `chrono` writes it with the format
/// `%Y-%m-%d`; nothing for a moment that `chrono` cannot hold.
pub uninterp spec fn utc_date_text(secs: int, nanos: int) -> Option<Seq<char>>;

/// The time of day of a moment in UTC, as `chrono` writes it with the format
/// `%H:%M:%S`; nothing for a moment that `chrono` cannot hold.
pub uninterp spec fn utc_clock_text(secs: int, nanos: int) -> Option<Seq<char>>;

/// A moment in UTC as `chrono` writes it by RFC 3339; nothing for a moment
/// that `chrono` cannot hold.
pub uninterp spec fn utc_rfc3339_text(secs: int, nanos: int) -> Option<Seq<char>>;

/// Writes the date of a moment: `chrono::DateTime::from_timestamp`, then
/// `format` with `%Y-%m-%d`.
#[verifier::external_body]
fn write_utc_date(secs: i64, nanos: u32) -> (text: Option<String>)
    ensures
        text_of(text) == utc_date_text(secs as int, nanos as int),
{
    match chrono::DateTime::from_timestamp(secs, nanos) {
        Some(moment) => Some(moment.format("%Y-%m-%d").to_string()),
        None => None,
    }
}

/// Writes the time of day of a moment: `chrono::DateTime::from_timestamp`,
/// then `format` with `%H:%M:%S`.
#[verifier::external_body]
fn write_utc_clock(secs: i64, nanos: u32) -> (text: Option<String>)
    ensures
        text_of(text) == utc_clock_text(secs as int, nanos as int),
{
    match chrono::DateTime::from_timestamp(secs, nanos) {
        Some(moment) => Some(moment.format("%H:%M:%S").to_string()),
        None => None,
    }
}

/// Writes a moment by RFC 3339: `chrono::DateTime::from_timestamp`, then
/// `to_rfc3339`.
#[verifier::external_body]
fn write_utc_rfc3339(secs: i64, nanos: u32) -> (text: Option<String>)
    ensures
        text_of(text) == utc_rfc3339_text(secs as int, nanos as int),
{
    match chrono::DateTime::from_timestamp(secs, nanos) {
        Some(moment) => Some(moment.to_rfc3339()),
        None => None,
    }
}

impl Timestamp {
    /// The calendar date in UTC, `YYYY-MM-DD`.
    pub fn date_text(&self) -> (text: Option<String>)
        ensures
            text_of(text) == utc_date_text(self.spec_secs(), self.spec_nanos()),
    {
        write_utc_date(self.secs, self.nanos)
    }

    /// The time of day in UTC, `HH:MM:SS`.
    pub fn clock_text(&self) -> (text: Option<String>)
        ensures
            text_of(text) == utc_clock_text(self.spec_secs(), self.spec_nanos()),
    {
        write_utc_clock(self.secs, self.nanos)
    }

    /// The moment by RFC 3339.
    pub fn rfc3339_text(&self) -> (text: Option<String>)
        ensures
            text_of(text) == utc_rfc3339_text(self.spec_secs(), self.spec_nanos()),
    {
        write_utc_rfc3339(self.secs, self.nanos)
    }
}

/// Nanoseconds from `start` to `end`, zero when `end` is not later.
pub open spec fn elapsed_nanos(start: Timestamp, end: Timestamp) -> int {
    if end.total_nanos() > start.total_nanos() {
        end.total_nanos() - start.total_nanos()
    } else {
        0
    }
}

/// The whole seconds of [`elapsed_nanos`].
pub open spec fn elapsed_secs(start: Timestamp, end: Timestamp) -> int {
    elapsed_nanos(start, end) / 1_000_000_000
}

/// The fraction of [`elapsed_nanos`] below one second.
pub open spec fn elapsed_subsec_nanos(start: Timestamp, end: Timestamp) -> int {
    elapsed_nanos(start, end) % 1_000_000_000
}

/// The current time from `chrono::Utc::now`, as seconds and nanoseconds since
/// the epoch. chrono builds it from the system clock's offset to the epoch, so
/// the fraction is below one second; nothing else is known of the value.
/// (chrono gives up on a machine whose clock stands before 1970.)
#[verifier::external_body]
pub(crate) fn utc_now() -> (t: Timestamp)
    ensures
        t.well_formed(),
{
    let now = chrono::Utc::now();
    Timestamp { secs: now.timestamp(), nanos: now.timestamp_subsec_nanos() }
}

/// Starts a stopwatch with `std::time::Instant::now`.
#[verifier::external_body]
pub(crate) fn stopwatch_start() -> Instant {
    Instant::now()
}

/// The time since the stopwatch was started, from `Instant::elapsed`. It
/// depends on the clock, so nothing is stated of it.
#[verifier::external_body]
pub(crate) fn stopwatch_elapsed(started: &Instant) -> Duration {
    started.elapsed()
}

} // verus!
