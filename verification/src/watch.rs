//! The watcher's decisions: what each event of the loop does to its state,
//! and which theme command it calls for.
//!
//! The loop itself belongs to the caller. Before it waits, it asks `plan`
//! what to wait for; when an event has won, it hands the event to
//! `watch_theme` and carries out the action that comes back.

use crate::clock::{CalendarDate, LocalTime, Monotonic};
use crate::theme::{DayWindow, DayWindowError, Refresh, SunriseSunset};
use vstd::prelude::*;

verus! {

/// The theme settings as the configuration store holds them.
#[derive(Clone, Copy, Debug, PartialEq, Eq, Structural)]
pub struct ThemeModeState {
    /// Whether the theme may be switched automatically.
    pub auto_switch_enabled: bool,
    /// Whether the dark theme is in effect.
    pub is_dark: bool,
}

impl ThemeModeState {
    /// The settings after the theme has been set to dark or to light.
    pub open spec fn applied(self, is_dark: bool) -> ThemeModeState {
        ThemeModeState { auto_switch_enabled: self.auto_switch_enabled, is_dark }
    }

    /// Sets the theme to dark or to light, and tells whether that changed
    /// anything.
    pub fn apply(&mut self, is_dark: bool) -> (changed: bool)
        ensures
            *final(self) == old(self).applied(is_dark),
            changed == (old(self).is_dark != is_dark),
    {
        let changed = self.is_dark != is_dark;
        self.is_dark = is_dark;
        changed
    }
}

/// One resolved position of the observer, with the wall-clock reading it was
/// resolved at and that day's sunrise and sunset there, in seconds since the
/// Unix epoch.
#[derive(Clone, Copy, Debug, PartialEq, Eq, Structural)]
pub struct LocationFix {
    /// Latitude, as the caller encodes it.
    pub latitude: u64,
    /// Longitude, as the caller encodes it.
    pub longitude: u64,
    /// The wall clock when the position was resolved.
    pub now: LocalTime,
    /// Sunrise on the day `now.date` at this position.
    pub sunrise_epoch: i64,
    /// Sunset on the day `now.date` at this position.
    pub sunset_epoch: i64,
}

/// What can wake the watcher.
#[derive(Clone, Copy, Debug, PartialEq, Eq, Structural)]
pub enum Event {
    /// The stored settings changed; these are the settings now.
    ConfigChanged(ThemeModeState),
    /// The channel that announces setting changes is gone.
    CommandChannelClosed,
    /// The deadline that the watcher slept for has come.
    DeadlineFired,
    /// The observer has moved.
    LocationChanged(LocationFix),
    /// The observer has moved, but the new position could not be resolved.
    LocationUnavailable,
    /// The location service will report nothing more.
    LocationStreamClosed,
}

/// What the caller does after an event.
#[derive(Clone, Copy, Debug, PartialEq, Eq, Structural)]
pub enum Action {
    /// Nothing.
    Idle,
    /// Set the theme: dark if `true`, light if `false`.
    Apply(bool),
}

/// What the caller waits for besides setting changes and location updates.
#[derive(Clone, Copy, Debug, PartialEq, Eq, Structural)]
pub enum Plan {
    /// No timer.
    Idle,
    /// A timer that fires at this instant.
    WakeAt(Monotonic),
    /// Nothing yet: the window is spent. The caller works out sunrise and
    /// sunset of `tomorrow.date` at these coordinates and calls `roll_over`.
    Recompute { tomorrow: LocalTime, latitude: u64, longitude: u64 },
}

/// Why the watcher gives up.
#[derive(Clone, Copy, Debug, PartialEq, Eq, Structural)]
pub enum WatchError {
    /// Setting changes can no longer arrive.
    CommandChannelClosed,
    /// Location updates can no longer arrive.
    LocationStreamClosed,
    /// The day window could not be carried forward.
    Window(DayWindowError),
}

/// What the watcher knows: the settings as last seen, and the day window if
/// the observer's position is known.
pub struct WatchModel {
    /// The settings as last seen or set.
    pub mode: ThemeModeState,
    /// The day window, if there is one.
    pub window: Option<DayWindow>,
}

impl WatchModel {
    /// Dark or light by the window, if there is one and it is of today.
    pub open spec fn verdict(self, today: CalendarDate, now: int) -> Option<bool> {
        match self.window {
            Some(w) => match w.is_dark(today, now) {
                Ok(dark) => Some(dark),
                Err(_) => None,
            },
            None => None,
        }
    }

    /// Calls for the window's verdict to be applied, if it has one.
    pub open spec fn settle(self, today: CalendarDate, now: int) -> (WatchModel, Action) {
        match self.verdict(today, now) {
            Some(dark) => (
                WatchModel { mode: self.mode.applied(dark), window: self.window },
                Action::Apply(dark),
            ),
            None => (self, Action::Idle),
        }
    }

    /// The state and the action after `event`, on the day `today` at the
    /// monotonic instant `now`; or the reason to stop.
    pub open spec fn after(self, event: Event, today: CalendarDate, now: int) -> Result<
        (WatchModel, Action),
        WatchError,
    > {
        match event {
            Event::CommandChannelClosed => Err(WatchError::CommandChannelClosed),
            Event::LocationStreamClosed => Err(WatchError::LocationStreamClosed),
            Event::ConfigChanged(pushed) => {
                let reconciled = WatchModel { mode: pushed, window: self.window };
                if self.mode.auto_switch_enabled && !pushed.auto_switch_enabled {
                    Ok(reconciled.settle(today, now))
                } else {
                    Ok((reconciled, Action::Idle))
                }
            },
            Event::DeadlineFired => {
                if self.mode.auto_switch_enabled {
                    Ok(self.settle(today, now))
                } else {
                    Ok((self, Action::Idle))
                }
            },
            Event::LocationUnavailable => Ok((self, Action::Idle)),
            Event::LocationChanged(fix) => {
                match DayWindow::construct(
                    fix.latitude,
                    fix.longitude,
                    fix.now,
                    now,
                    fix.sunrise_epoch as int,
                    fix.sunset_epoch as int,
                ) {
                    Ok(w) => Ok(WatchModel { mode: self.mode, window: Some(w) }.settle(today, now)),
                    Err(_) => Ok((self, Action::Idle)),
                }
            },
        }
    }

}

/// The watcher's state between two events.
#[derive(Debug)]
pub struct ThemeWatch {
    mode: ThemeModeState,
    window: Option<SunriseSunset>,
}

impl View for ThemeWatch {
    type V = WatchModel;

    closed spec fn view(&self) -> WatchModel {
        WatchModel {
            mode: self.mode,
            window: match self.window {
                Some(w) => Some(w@),
                None => None,
            },
        }
    }
}

impl ThemeWatch {
    /// A watcher that has read the settings and knows no position yet.
    pub fn new(mode: ThemeModeState) -> (r: Self)
        ensures
            r@ == (WatchModel { mode, window: None }),
    {
        ThemeWatch { mode, window: None }
    }

    /// The settings as the watcher last saw or set them.
    pub fn mode(&self) -> (r: ThemeModeState)
        ensures
            r == self@.mode,
    {
        self.mode
    }

    /// The day window, if the observer's position is known.
    pub fn window(&self) -> (r: Option<&SunriseSunset>)
        ensures
            match r {
                Some(w) => self@.window == Some(w@),
                None => self@.window is None,
            },
    {
        self.window.as_ref()
    }

    fn settle(&mut self, today: CalendarDate, instant_now: Monotonic) -> (r: Action)
        ensures
            (final(self)@, r) == old(self)@.settle(today, instant_now@),
    {
        let verdict = match &self.window {
            Some(w) => w.is_dark(today, instant_now),
            None => Err(DayWindowError::StaleWindow),
        };
        match verdict {
            Ok(dark) => {
                self.mode.apply(dark);
                Action::Apply(dark)
            },
            Err(_) => Action::Idle,
        }
    }

    /// What to wait for at `instant_now`.
    ///
    /// Without a window there is no timer. With one, its next deadline sets
    /// the timer, which is armed only while switching is automatic. A spent
    /// window asks to be rebuilt for the next day; that there is no next day
    /// ends the watch. Which reading of the next day is asked for depends on
    /// the machine's time zone, so only its relation to the window's own
    /// reading is promised.
    pub fn plan(&self, instant_now: Monotonic) -> (r: Result<Plan, WatchError>)
        ensures
            match self@.window {
                None => r == Ok::<Plan, WatchError>(Plan::Idle),
                Some(w) => match w.next(instant_now@) {
                    Ok(d) => match r {
                        Ok(Plan::WakeAt(at)) => self@.mode.auto_switch_enabled && at@ == d,
                        Ok(Plan::Idle) => !self@.mode.auto_switch_enabled,
                        _ => false,
                    },
                    Err(_) => match r {
                        Ok(Plan::Recompute { tomorrow, latitude, longitude }) => {
                            &&& tomorrow.is_day_after(w.last_update)
                            &&& tomorrow.shows_civil_date()
                            &&& latitude == w.latitude
                            &&& longitude == w.longitude
                        },
                        Ok(_) => false,
                        Err(e) => e == WatchError::Window(DayWindowError::DateOverflow),
                    },
                },
            },
    {
        match &self.window {
            None => Ok(Plan::Idle),
            Some(w) => match w.refresh(instant_now) {
                Ok(Refresh::Deadline(at)) => {
                    if self.mode.auto_switch_enabled {
                        Ok(Plan::WakeAt(at))
                    } else {
                        Ok(Plan::Idle)
                    }
                },
                Ok(Refresh::NextDay(tomorrow)) => Ok(
                    Plan::Recompute { tomorrow, latitude: w.latitude(), longitude: w.longitude() },
                ),
                Err(e) => Err(WatchError::Window(e)),
            },
        }
    }

    /// Carries a spent window over to the next day and says what to wait for
    /// then.
    ///
    /// `tomorrow` is the reading that `plan` asked for, and the two epochs
    /// are sunrise and sunset of its day at the window's coordinates. The
    /// window is replaced as `SunriseSunset::update_next` says. A window
    /// that cannot be carried forward ends the watch. Without a window there
    /// is nothing to do.
    pub fn roll_over(
        &mut self,
        instant_now: Monotonic,
        tomorrow: LocalTime,
        sunrise_epoch: i64,
        sunset_epoch: i64,
    ) -> (r: Result<Plan, WatchError>)
        ensures
            final(self)@.mode == old(self)@.mode,
            match old(self)@.window {
                None => final(self)@.window is None && r == Ok::<Plan, WatchError>(Plan::Idle),
                Some(w) => {
                    let (after, deadline) = w.update_next(
                        instant_now@,
                        tomorrow,
                        sunrise_epoch as int,
                        sunset_epoch as int,
                    );
                    &&& final(self)@.window == Some(after)
                    &&& match deadline {
                        Ok(d) => match r {
                            Ok(Plan::WakeAt(at)) => old(self)@.mode.auto_switch_enabled && at@ == d,
                            Ok(Plan::Idle) => !old(self)@.mode.auto_switch_enabled,
                            _ => false,
                        },
                        Err(e) => r == Err::<Plan, WatchError>(WatchError::Window(e)),
                    }
                },
            },
    {
        let armed = self.mode.auto_switch_enabled;
        match &mut self.window {
            None => Ok(Plan::Idle),
            Some(w) => match w.update_next(instant_now, tomorrow, sunrise_epoch, sunset_epoch) {
                Ok(at) => {
                    if armed {
                        Ok(Plan::WakeAt(at))
                    } else {
                        Ok(Plan::Idle)
                    }
                },
                Err(e) => Err(WatchError::Window(e)),
            },
        }
    }
}

/// One turn of the watcher: takes the event that woke it, on the local
/// calendar day `today` at the monotonic instant `instant_now`, brings the
/// state up to date, and returns the theme command to carry out, or the
/// reason to stop. A watcher that stops is left as it was.
///
/// A closed channel or stream stops the watch. A change of settings is taken
/// over; if it switches automatic mode off, the window's verdict is applied
/// one last time. A fired deadline applies the verdict while switching is
/// automatic. A new position replaces the window and applies the new verdict
/// at once; if no window can be built for it, or the position could not be
/// resolved, everything stays as it was. A window of another day than
/// `today` has no verdict, and nothing is applied.
pub fn watch_theme(
    watch: &mut ThemeWatch,
    event: Event,
    today: CalendarDate,
    instant_now: Monotonic,
) -> (r: Result<Action, WatchError>)
    ensures
        match old(watch)@.after(event, today, instant_now@) {
            Ok((state, action)) => final(watch)@ == state && r == Ok::<Action, WatchError>(action),
            Err(e) => final(watch)@ == old(watch)@ && r == Err::<Action, WatchError>(e),
        },
{
    match event {
        Event::CommandChannelClosed => Err(WatchError::CommandChannelClosed),
        Event::LocationStreamClosed => Err(WatchError::LocationStreamClosed),
        Event::ConfigChanged(pushed) => {
            let was_automatic = watch.mode.auto_switch_enabled;
            watch.mode = pushed;
            if was_automatic && !pushed.auto_switch_enabled {
                Ok(watch.settle(today, instant_now))
            } else {
                Ok(Action::Idle)
            }
        },
        Event::DeadlineFired => {
            if watch.mode.auto_switch_enabled {
                Ok(watch.settle(today, instant_now))
            } else {
                Ok(Action::Idle)
            }
        },
        Event::LocationUnavailable => Ok(Action::Idle),
        Event::LocationChanged(fix) => {
            match SunriseSunset::new(
                fix.latitude,
                fix.longitude,
                fix.now,
                instant_now,
                fix.sunrise_epoch,
                fix.sunset_epoch,
            ) {
                Ok(w) => {
                    watch.window = Some(w);
                    Ok(watch.settle(today, instant_now))
                },
                Err(_) => Ok(Action::Idle),
            }
        },
    }
}

/// Setting the theme twice to the same value leaves the settings as setting
/// it once does, and the second time changes nothing: dark stays what was
/// asked for, and automatic mode is never touched.
pub proof fn apply_is_idempotent(state: ThemeModeState, is_dark: bool)
    ensures
        state.applied(is_dark).applied(is_dark) == state.applied(is_dark),
        state.applied(is_dark).is_dark == is_dark,
        state.applied(is_dark).auto_switch_enabled == state.auto_switch_enabled,
{
}

/// Whatever the event, a command to set the theme carries the verdict of the
/// window that the watcher holds afterwards, and the watcher's record of the
/// settings agrees with it.
pub proof fn apply_carries_verdict(state: WatchModel, event: Event, today: CalendarDate, now: int)
    ensures
        state.after(event, today, now) matches Ok((next, Action::Apply(dark))) ==> {
            &&& next.verdict(today, now) == Some(dark)
            &&& next.mode.is_dark == dark
            &&& next.mode.auto_switch_enabled == (match event {
                Event::ConfigChanged(pushed) => pushed.auto_switch_enabled,
                _ => state.mode.auto_switch_enabled,
            })
        },
{
}

/// While switching is not automatic, a deadline changes nothing and calls
/// for nothing.
pub proof fn manual_mode_ignores_deadlines(state: WatchModel, today: CalendarDate, now: int)
    requires
        !state.mode.auto_switch_enabled,
    ensures
        state.after(Event::DeadlineFired, today, now) == Ok::<(WatchModel, Action), WatchError>(
            (state, Action::Idle),
        ),
{
}

/// Switching automatic mode off settles the theme once: the window's verdict
/// of that moment is applied if there is one, and no deadline applies
/// anything after that, on any day at any instant.
pub proof fn switching_off_settles_once(
    state: WatchModel,
    pushed: ThemeModeState,
    today: CalendarDate,
    now: int,
    later_day: CalendarDate,
    later: int,
)
    requires
        state.mode.auto_switch_enabled,
        !pushed.auto_switch_enabled,
    ensures
        state.after(Event::ConfigChanged(pushed), today, now) matches Ok((next, action)) && {
            &&& action == (match state.verdict(today, now) {
                Some(dark) => Action::Apply(dark),
                None => Action::Idle,
            })
            &&& next.window == state.window
            &&& next.after(Event::DeadlineFired, later_day, later) == Ok::<
                (WatchModel, Action),
                WatchError,
            >((next, Action::Idle))
        },
{
}

/// A new position takes effect at once: if a window can be built for it, the
/// watcher holds that window afterwards, and on the window's own day its
/// verdict is applied without waiting for a deadline, whether or not
/// switching is automatic.
pub proof fn new_position_applies_at_once(state: WatchModel, fix: LocationFix, now: int)
    requires
        DayWindow::construct(
            fix.latitude,
            fix.longitude,
            fix.now,
            now,
            fix.sunrise_epoch as int,
            fix.sunset_epoch as int,
        ) is Ok,
    ensures
        ({
            let fresh = DayWindow::construct(
                fix.latitude,
                fix.longitude,
                fix.now,
                now,
                fix.sunrise_epoch as int,
                fix.sunset_epoch as int,
            )->Ok_0;
            let dark = now < fresh.sunrise || now >= fresh.sunset;
            state.after(Event::LocationChanged(fix), fix.now.date, now) == Ok::<
                (WatchModel, Action),
                WatchError,
            >((WatchModel { mode: state.mode.applied(dark), window: Some(fresh) }, Action::Apply(dark)))
        }),
{
}

/// A deadline that fires twice at one instant asks for the same command
/// both times, and the second time leaves the watcher as the first did.
pub proof fn repeated_deadline_is_idempotent(state: WatchModel, today: CalendarDate, now: int)
    ensures
        state.after(Event::DeadlineFired, today, now) matches Ok((once, action)) && once.after(
            Event::DeadlineFired,
            today,
            now,
        ) == Ok::<(WatchModel, Action), WatchError>((once, action)),
{
}

} // verus!
