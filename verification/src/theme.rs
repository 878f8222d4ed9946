//! The day window: sunrise and sunset of one calendar day at one place, held
//! as deadlines on the monotonic clock.

use crate::clock::{anchor, anchored_epoch, next_day, representable};
use crate::clock::{CalendarDate, LocalTime, Monotonic, NANOS_PER_SEC};
use vstd::prelude::*;

verus! {

/// Why sunrise and sunset could not be turned into deadlines.
#[derive(Clone, Copy, Debug, PartialEq, Eq, Structural)]
pub enum TimeComputationError {
    /// Sunrise or sunset lies before the Unix epoch.
    NegativeOrOverflow,
    /// A deadline lies beyond what the monotonic clock can represent.
    ClockAnchorFailure,
}

/// What can go wrong with a day window.
#[derive(Clone, Copy, Debug, PartialEq, Eq, Structural)]
pub enum DayWindowError {
    /// Building the window failed.
    Time(TimeComputationError),
    /// The window was computed for another calendar day than today.
    StaleWindow,
    /// Sunrise and sunset of the window have both passed.
    AllDeadlinesElapsed,
    /// The day after the window's day cannot be had.
    DateOverflow,
}

/// What a day window holds, with its deadlines as nanoseconds on the
/// monotonic clock.
pub struct DayWindow {
    /// The wall-clock reading the window was built at.
    pub last_update: LocalTime,
    /// Sunrise, on the monotonic clock.
    pub sunrise: int,
    /// Sunset, on the monotonic clock.
    pub sunset: int,
    /// Latitude of the observer, as the caller encodes it.
    pub latitude: u64,
    /// Longitude of the observer, as the caller encodes it.
    pub longitude: u64,
}

impl DayWindow {
    /// The calendar day that sunrise and sunset were computed for.
    pub open spec fn reference_date(self) -> CalendarDate {
        self.last_update.date
    }

    /// The window for an observer at (`latitude`, `longitude`), built at the
    /// wall-clock reading `now` taken at the monotonic instant `instant_now`,
    /// from that day's sunrise and sunset in seconds since the Unix epoch.
    pub open spec fn construct(
        latitude: u64,
        longitude: u64,
        now: LocalTime,
        instant_now: int,
        sunrise_epoch: int,
        sunset_epoch: int,
    ) -> Result<DayWindow, TimeComputationError> {
        let sunrise = anchored_epoch(instant_now, now, sunrise_epoch);
        let sunset = anchored_epoch(instant_now, now, sunset_epoch);
        if sunrise_epoch < 0 || sunset_epoch < 0 {
            Err(TimeComputationError::NegativeOrOverflow)
        } else if !representable(sunrise) || !representable(sunset) {
            Err(TimeComputationError::ClockAnchorFailure)
        } else {
            Ok(DayWindow { last_update: now, sunrise, sunset, latitude, longitude })
        }
    }

    /// Whether it is dark at the monotonic instant `now` of the day `today`:
    /// strictly before sunrise, or at or after sunset. A window of another
    /// day gives no answer.
    pub open spec fn is_dark(self, today: CalendarDate, now: int) -> Result<bool, DayWindowError> {
        if today != self.reference_date() {
            Err(DayWindowError::StaleWindow)
        } else {
            Ok(now < self.sunrise || now >= self.sunset)
        }
    }

    /// The nearer of sunrise and sunset that is not before `now`.
    pub open spec fn next(self, now: int) -> Result<int, DayWindowError> {
        if now <= self.sunrise && (self.sunset < now || self.sunrise <= self.sunset) {
            Ok(self.sunrise)
        } else if now <= self.sunset {
            Ok(self.sunset)
        } else {
            Err(DayWindowError::AllDeadlinesElapsed)
        }
    }

    /// The window and the deadline after asking for the next deadline at
    /// `now` and, if none is left, replacing the window by the one built at
    /// the reading `tomorrow` from that day's sunrise and sunset. A failure
    /// to build leaves the window as it was.
    pub open spec fn update_next(
        self,
        now: int,
        tomorrow: LocalTime,
        sunrise_epoch: int,
        sunset_epoch: int,
    ) -> (DayWindow, Result<int, DayWindowError>) {
        if self.next(now) is Ok {
            (self, self.next(now))
        } else {
            match DayWindow::construct(
                self.latitude,
                self.longitude,
                tomorrow,
                now,
                sunrise_epoch,
                sunset_epoch,
            ) {
                Ok(fresh) => (fresh, fresh.next(now)),
                Err(e) => (self, Err(DayWindowError::Time(e))),
            }
        }
    }
}

/// What a window says of the time to come.
#[derive(Clone, Copy, Debug, PartialEq, Eq, Structural)]
pub enum Refresh {
    /// A deadline of the window is still ahead, or just reached.
    Deadline(Monotonic),
    /// Both deadlines have passed: the window must be rebuilt at this reading
    /// of the next day.
    NextDay(LocalTime),
}

impl Refresh {
    /// Turns the outcome of advancing a reading by one day into the request
    /// to rebuild, or into the error for a day that cannot be had.
    pub fn from_next_day(tomorrow: Option<LocalTime>) -> (r: Result<Refresh, DayWindowError>)
        ensures
            r == (match tomorrow {
                Some(t) => Ok::<Refresh, DayWindowError>(Refresh::NextDay(t)),
                None => Err(DayWindowError::DateOverflow),
            }),
    {
        match tomorrow {
            Some(t) => Ok(Refresh::NextDay(t)),
            None => Err(DayWindowError::DateOverflow),
        }
    }
}

/// Sunrise and sunset of one calendar day at one place, as deadlines on the
/// monotonic clock.
///
/// The deadlines are fixed when the window is built. A window is never
/// adjusted: `update_next` replaces it as a whole.
#[derive(Debug)]
pub struct SunriseSunset {
    last_update: LocalTime,
    sunrise: Monotonic,
    sunset: Monotonic,
    lat: u64,
    long: u64,
}

impl View for SunriseSunset {
    type V = DayWindow;

    closed spec fn view(&self) -> DayWindow {
        DayWindow {
            last_update: self.last_update,
            sunrise: self.sunrise@,
            sunset: self.sunset@,
            latitude: self.lat,
            longitude: self.long,
        }
    }
}

impl SunriseSunset {
    /// Builds the window for an observer at (`lat`, `long`) from the day's
    /// sunrise and sunset, in seconds since the Unix epoch.
    ///
    /// `now` and `instant_now` are the wall clock and the monotonic clock
    /// read at one moment; `now.date` is the day the two epochs belong to.
    /// The coordinates are only kept.
    pub fn new(
        lat: u64,
        long: u64,
        now: LocalTime,
        instant_now: Monotonic,
        sunrise_epoch: i64,
        sunset_epoch: i64,
    ) -> (r: Result<Self, TimeComputationError>)
        ensures
            ({
                let built = DayWindow::construct(
                    lat,
                    long,
                    now,
                    instant_now@,
                    sunrise_epoch as int,
                    sunset_epoch as int,
                );
                match r {
                    Ok(w) => built == Ok::<DayWindow, TimeComputationError>(w@),
                    Err(e) => built == Err::<DayWindow, TimeComputationError>(e),
                }
            }),
    {
        if sunrise_epoch < 0 || sunset_epoch < 0 {
            return Err(TimeComputationError::NegativeOrOverflow);
        }
        let sunrise = match anchor(instant_now, &now, sunrise_epoch as u64) {
            Some(at) => at,
            None => {
                return Err(TimeComputationError::ClockAnchorFailure);
            },
        };
        let sunset = match anchor(instant_now, &now, sunset_epoch as u64) {
            Some(at) => at,
            None => {
                return Err(TimeComputationError::ClockAnchorFailure);
            },
        };
        Ok(SunriseSunset { last_update: now, sunrise, sunset, lat, long })
    }

    /// Whether it is dark at the monotonic instant `instant_now` of the local
    /// calendar day `today`.
    pub fn is_dark(&self, today: CalendarDate, instant_now: Monotonic) -> (r: Result<
        bool,
        DayWindowError,
    >)
        ensures
            r == self@.is_dark(today, instant_now@),
    {
        if today != self.last_update.date {
            return Err(DayWindowError::StaleWindow);
        }
        Ok(instant_now.nanos < self.sunrise.nanos || instant_now.nanos >= self.sunset.nanos)
    }

    /// The next deadline of the window that has not passed at `instant_now`.
    pub fn next(&self, instant_now: Monotonic) -> (r: Result<Monotonic, DayWindowError>)
        ensures
            match r {
                Ok(d) => self@.next(instant_now@) == Ok::<int, DayWindowError>(d@),
                Err(e) => self@.next(instant_now@) == Err::<int, DayWindowError>(e),
            },
    {
        let now: i64 = instant_now.nanos;
        if now <= self.sunrise.nanos && (self.sunset.nanos < now || self.sunrise.nanos
            <= self.sunset.nanos) {
            Ok(self.sunrise)
        } else if now <= self.sunset.nanos {
            Ok(self.sunset)
        } else {
            Err(DayWindowError::AllDeadlinesElapsed)
        }
    }

    /// The next deadline if one is left; otherwise the reading of the next
    /// day at which the window must be rebuilt, or `DateOverflow` if there is
    /// no such reading.
    ///
    /// Which reading follows depends on the machine's time zone, so only its
    /// relation to the window's own reading is promised.
    pub fn refresh(&self, instant_now: Monotonic) -> (r: Result<Refresh, DayWindowError>)
        ensures
            match self@.next(instant_now@) {
                Ok(d) => r matches Ok(Refresh::Deadline(at)) && at@ == d,
                Err(_) => match r {
                    Ok(Refresh::NextDay(t)) => t.is_day_after(self@.last_update)
                        && t.shows_civil_date(),
                    Ok(Refresh::Deadline(_)) => false,
                    Err(e) => e == DayWindowError::DateOverflow,
                },
            },
    {
        match self.next(instant_now) {
            Ok(d) => Ok(Refresh::Deadline(d)),
            Err(_) => Refresh::from_next_day(next_day(&self.last_update)),
        }
    }

    /// The next deadline at `instant_now`, rolling over to the next day if
    /// the window has none left.
    ///
    /// With a deadline left, the window is untouched and `tomorrow` and the
    /// two epochs are not looked at. Otherwise the window is rebuilt for the
    /// same place at the reading `tomorrow`, anchored at `instant_now`, from
    /// that day's sunrise and sunset, and the new window is asked. If it
    /// cannot be built, the old window stays.
    pub fn update_next(
        &mut self,
        instant_now: Monotonic,
        tomorrow: LocalTime,
        sunrise_epoch: i64,
        sunset_epoch: i64,
    ) -> (r: Result<Monotonic, DayWindowError>)
        ensures
            ({
                let (window, deadline) = old(self)@.update_next(
                    instant_now@,
                    tomorrow,
                    sunrise_epoch as int,
                    sunset_epoch as int,
                );
                &&& final(self)@ == window
                &&& match r {
                    Ok(d) => deadline == Ok::<int, DayWindowError>(d@),
                    Err(e) => deadline == Err::<int, DayWindowError>(e),
                }
            }),
    {
        match self.next(instant_now) {
            Ok(d) => Ok(d),
            Err(_) => {
                match SunriseSunset::new(
                    self.lat,
                    self.long,
                    tomorrow,
                    instant_now,
                    sunrise_epoch,
                    sunset_epoch,
                ) {
                    Ok(fresh) => {
                        *self = fresh;
                        self.next(instant_now)
                    },
                    Err(e) => Err(DayWindowError::Time(e)),
                }
            },
        }
    }

    /// The calendar day that the window was computed for.
    pub fn reference_date(&self) -> (r: CalendarDate)
        ensures
            r == self@.reference_date(),
    {
        self.last_update.date
    }

    /// The wall-clock reading that the window was built at.
    pub fn last_update(&self) -> (r: LocalTime)
        ensures
            r == self@.last_update,
    {
        self.last_update
    }

    /// Sunrise of the window's day, on the monotonic clock.
    pub fn sunrise_deadline(&self) -> (r: Monotonic)
        ensures
            r@ == self@.sunrise,
    {
        self.sunrise
    }

    /// Sunset of the window's day, on the monotonic clock.
    pub fn sunset_deadline(&self) -> (r: Monotonic)
        ensures
            r@ == self@.sunset,
    {
        self.sunset
    }

    /// Latitude of the observer, as it was handed in.
    pub fn latitude(&self) -> (r: u64)
        ensures
            r == self@.latitude,
    {
        self.lat
    }

    /// Longitude of the observer, as it was handed in.
    pub fn longitude(&self) -> (r: u64)
        ensures
            r == self@.longitude,
    {
        self.long
    }
}

/// The earlier of two absolute instants that are not before `wall_now`, if
/// there is one.
pub open spec fn nearest_upcoming(wall_now: int, first: int, second: int) -> Option<int> {
    if wall_now <= first && (second < wall_now || first <= second) {
        Some(first)
    } else if wall_now <= second {
        Some(second)
    } else {
        None
    }
}

/// Anchoring keeps distances. A window asked for its next deadline at the
/// very instant it was built at answers with the nearer of sunrise and sunset
/// that the wall clock has not passed, exactly as far ahead on the monotonic
/// clock as that instant is ahead on the wall clock; it has no deadline left
/// exactly when the wall clock has passed both.
pub proof fn anchoring_round_trip(
    latitude: u64,
    longitude: u64,
    now: LocalTime,
    instant_now: int,
    sunrise_epoch: int,
    sunset_epoch: int,
)
    requires
        DayWindow::construct(latitude, longitude, now, instant_now, sunrise_epoch, sunset_epoch)
            is Ok,
    ensures
        ({
            let window = DayWindow::construct(
                latitude,
                longitude,
                now,
                instant_now,
                sunrise_epoch,
                sunset_epoch,
            )->Ok_0;
            let upcoming = nearest_upcoming(
                now.epoch_nanos(),
                sunrise_epoch * NANOS_PER_SEC,
                sunset_epoch * NANOS_PER_SEC,
            );
            match upcoming {
                Some(absolute) => window.next(instant_now) == Ok::<int, DayWindowError>(
                    instant_now + (absolute - now.epoch_nanos()),
                ),
                None => window.next(instant_now) == Err::<int, DayWindowError>(
                    DayWindowError::AllDeadlinesElapsed,
                ),
            }
        }),
{
}

/// An instant strictly ahead on the wall clock gives a deadline strictly
/// ahead on the monotonic clock, by the same number of nanoseconds.
pub proof fn future_instant_gives_future_deadline(
    latitude: u64,
    longitude: u64,
    now: LocalTime,
    instant_now: int,
    sunrise_epoch: int,
    sunset_epoch: int,
)
    requires
        DayWindow::construct(latitude, longitude, now, instant_now, sunrise_epoch, sunset_epoch)
            is Ok,
        now.epoch_nanos() < sunrise_epoch * NANOS_PER_SEC || now.epoch_nanos() < sunset_epoch
            * NANOS_PER_SEC,
    ensures
        ({
            let window = DayWindow::construct(
                latitude,
                longitude,
                now,
                instant_now,
                sunrise_epoch,
                sunset_epoch,
            )->Ok_0;
            &&& window.next(instant_now) matches Ok(deadline)
            &&& deadline >= instant_now
            &&& deadline - instant_now == sunrise_epoch * NANOS_PER_SEC - now.epoch_nanos()
                || deadline - instant_now == sunset_epoch * NANOS_PER_SEC - now.epoch_nanos()
            &&& now.epoch_nanos() < sunrise_epoch * NANOS_PER_SEC && sunrise_epoch <= sunset_epoch
                ==> deadline - instant_now == sunrise_epoch * NANOS_PER_SEC - now.epoch_nanos()
                && deadline > instant_now
        }),
{
}

/// The next deadline is the least of sunrise and sunset that is not before
/// `now`, and there is none exactly when both are before `now`.
pub proof fn next_is_the_nearest_left(window: DayWindow, now: int)
    ensures
        match window.next(now) {
            Ok(deadline) => {
                &&& deadline == window.sunrise || deadline == window.sunset
                &&& now <= deadline
                &&& now <= window.sunrise ==> deadline <= window.sunrise
                &&& now <= window.sunset ==> deadline <= window.sunset
            },
            Err(e) => {
                &&& e == DayWindowError::AllDeadlinesElapsed
                &&& window.sunrise < now
                &&& window.sunset < now
            },
        },
{
}

/// Dark and light change only at a deadline. From `now` until just before
/// the next deadline the answer stays what it is at `now`; once no deadline
/// is left it never changes again.
pub proof fn verdict_holds_until_next_deadline(
    window: DayWindow,
    today: CalendarDate,
    now: int,
    later: int,
)
    requires
        now <= later,
        window.next(now) matches Ok(deadline) ==> later < deadline,
    ensures
        window.is_dark(today, later) == window.is_dark(today, now),
{
}

/// The boundary is lopsided. On the window's own day the instant of sunset
/// is already dark; the instant of sunrise is light, provided that sunrise
/// comes before sunset.
pub proof fn darkness_boundary(window: DayWindow)
    ensures
        window.is_dark(window.reference_date(), window.sunset) == Ok::<bool, DayWindowError>(true),
        window.sunrise < window.sunset ==> window.is_dark(window.reference_date(), window.sunrise)
            == Ok::<bool, DayWindowError>(false),
{
}

/// A window never answers for another day than its own, whatever the
/// instant.
pub proof fn stale_window_is_refused(window: DayWindow, today: CalendarDate, now: int)
    requires
        today != window.reference_date(),
    ensures
        window.is_dark(today, now) == Err::<bool, DayWindowError>(DayWindowError::StaleWindow),
{
}

/// Rolling over replaces the window as a whole and only when it is spent:
/// with a deadline left nothing changes; without one, a window that can be
/// built for `tomorrow` takes over with the same coordinates, and one that
/// cannot leaves the old window in place.
pub proof fn rollover_replaces_spent_window(
    window: DayWindow,
    now: int,
    tomorrow: LocalTime,
    sunrise_epoch: int,
    sunset_epoch: int,
)
    ensures
        ({
            let (after, deadline) = window.update_next(now, tomorrow, sunrise_epoch, sunset_epoch);
            let fresh = DayWindow::construct(
                window.latitude,
                window.longitude,
                tomorrow,
                now,
                sunrise_epoch,
                sunset_epoch,
            );
            &&& window.next(now) is Ok ==> after == window && deadline == window.next(now)
            &&& window.next(now) is Err && fresh is Err ==> after == window && deadline is Err
            &&& window.next(now) is Err && fresh is Ok ==> {
                &&& after.last_update == tomorrow
                &&& after.latitude == window.latitude
                &&& after.longitude == window.longitude
                &&& deadline == after.next(now)
            }
        }),
{
}

} // verus!
