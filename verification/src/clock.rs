//! Plain-value time: monotonic instants, calendar dates, wall-clock readings,
//! and the anchoring of an absolute instant to the monotonic clock.

use chrono::Datelike;
use vstd::prelude::*;

verus! {

/// Nanoseconds in one second.
pub const NANOS_PER_SEC: i128 = 1_000_000_000;

/// Seconds in one civil day.
pub const SECS_PER_DAY: i64 = 86_400;

/// An instant on the monotonic clock, in whole nanoseconds from an origin
/// that the caller fixes once. Instants before the origin are negative.
#[derive(Clone, Copy, Debug, PartialEq, Eq, Structural)]
pub struct Monotonic {
    pub nanos: i64,
}

impl View for Monotonic {
    type V = int;

    open spec fn view(&self) -> int {
        self.nanos as int
    }
}

/// A day of the proleptic Gregorian calendar, as a local calendar names it.
#[derive(Clone, Copy, Debug, PartialEq, Eq, Structural)]
pub struct CalendarDate {
    pub year: i32,
    pub month: u32,
    pub day: u32,
}

/// One reading of the wall clock: an absolute instant, the offset of local
/// time from UTC in force at it, and the local calendar day it falls on.
///
/// The reading is taken as the caller's calendar reports it: the crate never
/// derives `date` from the other fields.
#[derive(Clone, Copy, Debug, PartialEq, Eq, Structural)]
pub struct LocalTime {
    /// Local calendar day of the reading.
    pub date: CalendarDate,
    /// Whole seconds since 1970-01-01T00:00:00Z, negative before it.
    pub epoch_secs: i64,
    /// Nanoseconds past `epoch_secs`.
    pub subsec_nanos: u32,
    /// Seconds that local time is ahead of UTC.
    pub utc_offset_secs: i32,
}

/// The year in which a local clock that reads `local_secs` seconds since
/// 1970-01-01T00:00:00 stands: what chrono's `Datelike::year` returns for a
/// date-time with that local reading.
pub uninterp spec fn civil_year(local_secs: int) -> i32;

/// The month of the year, from 1, for the same reading: what chrono's
/// `Datelike::month` returns.
pub uninterp spec fn civil_month(local_secs: int) -> u32;

/// The day of the month, from 1, for the same reading: what chrono's
/// `Datelike::day` returns.
pub uninterp spec fn civil_day(local_secs: int) -> u32;

impl LocalTime {
    /// The reading as nanoseconds since the Unix epoch.
    pub open spec fn epoch_nanos(self) -> int {
        self.epoch_secs * NANOS_PER_SEC + self.subsec_nanos
    }

    /// Seconds since the epoch as a local clock without a zone would count
    /// them.
    pub open spec fn local_secs(self) -> int {
        self.epoch_secs + self.utc_offset_secs
    }

    /// `self` shows the same local time of day as `earlier`, one civil day
    /// later.
    pub open spec fn is_day_after(self, earlier: LocalTime) -> bool {
        &&& self.local_secs() == earlier.local_secs() + SECS_PER_DAY
        &&& self.subsec_nanos == earlier.subsec_nanos
    }

    /// The calendar day of the reading is the one on which its instant
    /// falls at its offset.
    pub open spec fn shows_civil_date(self) -> bool {
        &&& self.date.year == civil_year(self.local_secs())
        &&& self.date.month == civil_month(self.local_secs())
        &&& self.date.day == civil_day(self.local_secs())
    }
}

/// Where `absolute` lies on the monotonic clock, given that the wall clock
/// showed `wall_now` at the monotonic instant `instant_now`. All three are in
/// nanoseconds.
pub open spec fn anchored(instant_now: int, wall_now: int, absolute: int) -> int {
    instant_now + (absolute - wall_now)
}

/// Whether a count of nanoseconds is an instant that `Monotonic` can hold.
pub open spec fn representable(nanos: int) -> bool {
    i64::MIN <= nanos <= i64::MAX
}

/// Where the instant `epoch_secs` seconds after the Unix epoch lies on the
/// monotonic clock, given that the wall clock showed `wall_now` at the
/// monotonic instant `instant_now`.
pub open spec fn anchored_epoch(instant_now: int, wall_now: LocalTime, epoch_secs: int) -> int {
    anchored(instant_now, wall_now.epoch_nanos(), epoch_secs * NANOS_PER_SEC)
}

/// Carries the absolute instant `epoch_secs` seconds after the Unix epoch
/// over to the monotonic clock, anchored at the pair (`instant_now`,
/// `wall_now`) read at one moment. `None` if the instant lies beyond what
/// `Monotonic` can hold.
pub fn anchor(instant_now: Monotonic, wall_now: &LocalTime, epoch_secs: u64) -> (r: Option<
    Monotonic,
>)
    ensures
        match r {
            Some(at) => at@ == anchored_epoch(instant_now@, *wall_now, epoch_secs as int),
            None => !representable(anchored_epoch(instant_now@, *wall_now, epoch_secs as int)),
        },
{
    let wall: i128 = (wall_now.epoch_secs as i128) * NANOS_PER_SEC + (wall_now.subsec_nanos as i128);
    let absolute: i128 = (epoch_secs as i128) * NANOS_PER_SEC;
    let base: i128 = instant_now.nanos as i128;
    let at: i128 = if absolute > wall {
        base + (absolute - wall)
    } else {
        base - (wall - absolute)
    };
    if at < (i64::MIN as i128) || at > (i64::MAX as i128) {
        None
    } else {
        Some(Monotonic { nanos: at as i64 })
    }
}

/// The same local time of day on the following civil day.
///
/// Calls chrono's `DateTime::<Local>::checked_add_days` with one day, on the
/// date-time rebuilt from the seconds, nanoseconds and offset of `now`; the
/// calendar day of `now` is not looked at. chrono adds the day to the local
/// date, keeps the time of day, and resolves the result in the machine's time
/// zone; it gives `None` where that local time does not exist, is ambiguous
/// or is out of chrono's range. The contract claims what holds in every zone:
/// the local clock has advanced by exactly one day, and the calendar day of
/// the result is the one chrono's `year`, `month` and `day` give for it.
/// Which offset the result has, and so which instant it is, is left open.
/// Nothing of this was proved.
#[verifier::external_body]
pub(crate) fn next_day(now: &LocalTime) -> (r: Option<LocalTime>)
    ensures
        r matches Some(t) ==> {
            &&& t.is_day_after(*now)
            &&& t.date.year == civil_year(now.local_secs() + SECS_PER_DAY)
            &&& t.date.month == civil_month(now.local_secs() + SECS_PER_DAY)
            &&& t.date.day == civil_day(now.local_secs() + SECS_PER_DAY)
        },
{
    let utc = chrono::DateTime::from_timestamp(now.epoch_secs, now.subsec_nanos)?;
    let offset = chrono::FixedOffset::east_opt(now.utc_offset_secs)?;
    let local = chrono::DateTime::<chrono::Local>::from_naive_utc_and_offset(utc.naive_utc(), offset);
    let next = local.checked_add_days(chrono::Days::new(1))?;
    Some(LocalTime {
        date: CalendarDate { year: next.year(), month: next.month(), day: next.day() },
        epoch_secs: next.timestamp(),
        subsec_nanos: next.timestamp_subsec_nanos(),
        utc_offset_secs: next.offset().local_minus_utc(),
    })
}

} // verus!
