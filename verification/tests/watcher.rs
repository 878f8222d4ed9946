use theme_watch::clock::{CalendarDate, LocalTime, Monotonic};
use theme_watch::theme::{DayWindowError, TimeComputationError};
use theme_watch::watch::{
    watch_theme, Action, Event, LocationFix, Plan, ThemeModeState, ThemeWatch, WatchError,
};

const SEC: i64 = 1_000_000_000;
const HOUR: i64 = 3_600;

/// 2024-03-20T00:00:00Z.
const MIDNIGHT: i64 = 1_710_892_800;

fn today() -> CalendarDate {
    CalendarDate { year: 2024, month: 3, day: 20 }
}

fn reading(epoch_secs: i64) -> LocalTime {
    LocalTime { date: today(), epoch_secs, subsec_nanos: 0, utc_offset_secs: 0 }
}

fn at(nanos: i64) -> Monotonic {
    Monotonic { nanos }
}

fn settings(auto_switch_enabled: bool, is_dark: bool) -> ThemeModeState {
    ThemeModeState { auto_switch_enabled, is_dark }
}

#[allow(deprecated)]
fn fix_at(latitude: f64, longitude: f64, now: LocalTime) -> LocationFix {
    let (sunrise_epoch, sunset_epoch) =
        sunrise::sunrise_sunset(latitude, longitude, now.date.year, now.date.month, now.date.day);
    LocationFix {
        latitude: latitude.to_bits(),
        longitude: longitude.to_bits(),
        now,
        sunrise_epoch,
        sunset_epoch,
    }
}

/// A fix taken at `hour` o'clock UTC where the sun rises at six and sets at
/// eighteen.
fn plain_fix(hour: i64) -> LocationFix {
    LocationFix {
        latitude: 1,
        longitude: 2,
        now: reading(MIDNIGHT + hour * HOUR),
        sunrise_epoch: MIDNIGHT + 6 * HOUR,
        sunset_epoch: MIDNIGHT + 18 * HOUR,
    }
}

/// A watcher that got `plain_fix(hour)` at the monotonic instant 0.
fn watcher(auto_switch_enabled: bool, hour: i64) -> ThemeWatch {
    let dark = hour < 6 || hour >= 18;
    let mut watch = ThemeWatch::new(settings(auto_switch_enabled, dark));
    let first = watch_theme(&mut watch, Event::LocationChanged(plain_fix(hour)), today(), at(0));
    assert_eq!(first, Ok(Action::Apply(dark)));
    watch
}

#[test]
fn a_new_watcher_has_no_window_and_no_timer() {
    let watch = ThemeWatch::new(settings(true, false));
    assert!(watch.window().is_none());
    assert_eq!(watch.mode(), settings(true, false));
    assert_eq!(watch.plan(at(0)), Ok(Plan::Idle));
    assert_eq!(watch.plan(at(i64::MAX)), Ok(Plan::Idle));
}

#[test]
fn without_a_window_nothing_is_applied() {
    let mut watch = ThemeWatch::new(settings(true, false));
    assert_eq!(watch_theme(&mut watch, Event::DeadlineFired, today(), at(0)), Ok(Action::Idle));
    let off = Event::ConfigChanged(settings(false, false));
    assert_eq!(watch_theme(&mut watch, off, today(), at(0)), Ok(Action::Idle));
    assert_eq!(watch.mode(), settings(false, false));
    assert_eq!(watch.roll_over(at(0), reading(MIDNIGHT), 1, 2), Ok(Plan::Idle));
    assert!(watch.window().is_none());
}

#[test]
fn toggling_off_at_night_applies_dark_once() {
    let mut watch = watcher(true, 4);
    let night = at(HOUR * SEC);
    let off = Event::ConfigChanged(settings(false, true));
    assert_eq!(watch_theme(&mut watch, off, today(), night), Ok(Action::Apply(true)));
    assert_eq!(watch.mode(), settings(false, true));
    assert_eq!(watch_theme(&mut watch, Event::DeadlineFired, today(), night), Ok(Action::Idle));
    assert_eq!(watch_theme(&mut watch, off, today(), night), Ok(Action::Idle));
    let sunrise = at(2 * HOUR * SEC);
    assert_eq!(watch_theme(&mut watch, Event::DeadlineFired, today(), sunrise), Ok(Action::Idle));
    assert_eq!(watch.mode(), settings(false, true));
    assert_eq!(watch.plan(night), Ok(Plan::Idle));
    let on = Event::ConfigChanged(settings(true, true));
    assert_eq!(watch_theme(&mut watch, on, today(), night), Ok(Action::Idle));
    assert_eq!(watch.plan(night), Ok(Plan::WakeAt(sunrise)));
    assert_eq!(watch_theme(&mut watch, Event::DeadlineFired, today(), sunrise), Ok(Action::Apply(false)));
}

#[test]
fn toggling_off_by_day_applies_light() {
    let mut watch = watcher(true, 12);
    let off = Event::ConfigChanged(settings(false, true));
    assert_eq!(watch_theme(&mut watch, off, today(), at(0)), Ok(Action::Apply(false)));
    assert_eq!(watch.mode(), settings(false, false));
}

#[test]
fn toggling_off_with_a_stale_window_applies_nothing() {
    let mut watch = watcher(true, 12);
    let tomorrow = CalendarDate { year: 2024, month: 3, day: 21 };
    let off = Event::ConfigChanged(settings(false, true));
    assert_eq!(watch_theme(&mut watch, off, tomorrow, at(0)), Ok(Action::Idle));
    assert_eq!(watch.mode(), settings(false, true));
}

#[test]
fn a_change_that_keeps_automatic_mode_applies_nothing() {
    let mut watch = watcher(true, 12);
    let manual_dark = Event::ConfigChanged(settings(true, true));
    assert_eq!(watch_theme(&mut watch, manual_dark, today(), at(0)), Ok(Action::Idle));
    assert_eq!(watch.mode(), settings(true, true));
    let mut watch = watcher(false, 12);
    let on = Event::ConfigChanged(settings(true, false));
    assert_eq!(watch_theme(&mut watch, on, today(), at(0)), Ok(Action::Idle));
    let still_off = Event::ConfigChanged(settings(false, false));
    let mut watch = watcher(false, 12);
    assert_eq!(watch_theme(&mut watch, still_off, today(), at(0)), Ok(Action::Idle));
}

#[test]
fn a_deadline_applies_the_verdict_of_its_instant() {
    let mut watch = watcher(true, 4);
    let sunrise = at(2 * HOUR * SEC);
    let sunset = at(14 * HOUR * SEC);
    assert_eq!(watch.plan(at(0)), Ok(Plan::WakeAt(sunrise)));
    assert_eq!(watch_theme(&mut watch, Event::DeadlineFired, today(), sunrise), Ok(Action::Apply(false)));
    assert_eq!(watch.mode(), settings(true, false));
    assert_eq!(watch.plan(at(sunrise.nanos + 1)), Ok(Plan::WakeAt(sunset)));
    assert_eq!(watch_theme(&mut watch, Event::DeadlineFired, today(), sunset), Ok(Action::Apply(true)));
    assert_eq!(watch.mode(), settings(true, true));
}

#[test]
fn a_deadline_fired_twice_applies_the_same_value() {
    let mut watch = watcher(true, 4);
    let sunset = at(14 * HOUR * SEC);
    assert_eq!(watch_theme(&mut watch, Event::DeadlineFired, today(), sunset), Ok(Action::Apply(true)));
    let once = watch.mode();
    assert_eq!(watch_theme(&mut watch, Event::DeadlineFired, today(), sunset), Ok(Action::Apply(true)));
    assert_eq!(watch.mode(), once);
}

#[test]
fn a_deadline_on_another_day_applies_nothing() {
    let mut watch = watcher(true, 4);
    let tomorrow = CalendarDate { year: 2024, month: 3, day: 21 };
    assert_eq!(watch_theme(&mut watch, Event::DeadlineFired, tomorrow, at(0)), Ok(Action::Idle));
    assert_eq!(watch.mode(), settings(true, true));
}

#[test]
fn applying_the_same_value_twice_changes_nothing_the_second_time() {
    let mut state = settings(true, false);
    assert!(state.apply(true));
    assert_eq!(state, settings(true, true));
    assert!(!state.apply(true));
    assert_eq!(state, settings(true, true));
    assert!(state.apply(false));
    assert!(!state.apply(false));
    assert_eq!(state, settings(true, false));
}

#[test]
fn closed_channels_stop_the_watch() {
    let mut watch = watcher(true, 12);
    assert_eq!(
        watch_theme(&mut watch, Event::CommandChannelClosed, today(), at(0)),
        Err(WatchError::CommandChannelClosed)
    );
    assert_eq!(
        watch_theme(&mut watch, Event::LocationStreamClosed, today(), at(0)),
        Err(WatchError::LocationStreamClosed)
    );
    assert_eq!(watch.mode(), settings(true, false));
    assert!(watch.window().is_some());
}

#[test]
fn location_change_at_noon_applies_night_at_once() {
    let noon = LocalTime { date: today(), epoch_secs: MIDNIGHT + 12 * HOUR, subsec_nanos: 0, utc_offset_secs: 0 };
    let mut watch = ThemeWatch::new(settings(true, false));
    let here = fix_at(0.0, 0.0, noon);
    assert_eq!(watch_theme(&mut watch, Event::LocationChanged(here), today(), at(0)), Ok(Action::Apply(false)));
    assert_eq!(watch.window().unwrap().is_dark(today(), at(0)), Ok(false));

    let antipode = fix_at(0.0, 180.0, noon);
    let moved = watch_theme(&mut watch, Event::LocationChanged(antipode), today(), at(5 * SEC));
    assert_eq!(moved, Ok(Action::Apply(true)));
    assert_eq!(watch.mode(), settings(true, true));
    let window = watch.window().unwrap();
    assert_eq!(f64::from_bits(window.longitude()), 180.0);
    assert_eq!(window.is_dark(today(), at(5 * SEC)), Ok(true));
}

#[test]
fn a_new_position_is_applied_even_in_manual_mode() {
    let mut watch = ThemeWatch::new(settings(false, false));
    let night = Event::LocationChanged(plain_fix(20));
    assert_eq!(watch_theme(&mut watch, night, today(), at(0)), Ok(Action::Apply(true)));
    assert_eq!(watch.mode(), settings(false, true));
    assert_eq!(watch.plan(at(0)).map(|p| p == Plan::Idle || matches!(p, Plan::Recompute { .. })), Ok(true));
}

#[test]
fn a_fix_that_gives_no_window_keeps_the_old_one() {
    let mut watch = watcher(true, 12);
    let old = watch.window().unwrap().last_update();
    let mut bad = plain_fix(20);
    bad.latitude = 99;
    bad.sunrise_epoch = -1;
    assert_eq!(watch_theme(&mut watch, Event::LocationChanged(bad), today(), at(0)), Ok(Action::Idle));
    assert_eq!(watch.window().unwrap().last_update(), old);
    assert_eq!(watch.window().unwrap().latitude(), 1);
    assert_eq!(watch.mode(), settings(true, false));

    let mut none = ThemeWatch::new(settings(true, false));
    assert_eq!(watch_theme(&mut none, Event::LocationChanged(bad), today(), at(0)), Ok(Action::Idle));
    assert!(none.window().is_none());
}

#[test]
fn an_unresolved_position_changes_nothing() {
    let mut watch = watcher(true, 12);
    assert_eq!(watch_theme(&mut watch, Event::LocationUnavailable, today(), at(0)), Ok(Action::Idle));
    assert_eq!(watch.mode(), settings(true, false));
    assert_eq!(watch.window().unwrap().latitude(), 1);
}

#[test]
fn a_fix_on_another_day_than_today_replaces_the_window_and_applies_nothing() {
    let mut watch = watcher(true, 12);
    let tomorrow = CalendarDate { year: 2024, month: 3, day: 21 };
    let mut fix = plain_fix(20);
    fix.longitude = 77;
    assert_eq!(watch_theme(&mut watch, Event::LocationChanged(fix), tomorrow, at(0)), Ok(Action::Idle));
    assert_eq!(watch.window().unwrap().longitude(), 77);
}

#[test]
fn the_timer_is_armed_only_in_automatic_mode() {
    let watch = watcher(false, 4);
    assert_eq!(watch.plan(at(0)), Ok(Plan::Idle));
    let watch = watcher(true, 4);
    assert_eq!(watch.plan(at(0)), Ok(Plan::WakeAt(at(2 * HOUR * SEC))));
    assert_eq!(watch.plan(at(14 * HOUR * SEC)), Ok(Plan::WakeAt(at(14 * HOUR * SEC))));
}

#[test]
fn fresh_day_rollover_schedules_the_next_sunrise() {
    let four = LocalTime { date: today(), epoch_secs: MIDNIGHT + 4 * HOUR, subsec_nanos: 0, utc_offset_secs: 0 };
    let mut watch = ThemeWatch::new(settings(true, true));
    let fix = fix_at(0.0, 0.0, four);
    assert_eq!(watch_theme(&mut watch, Event::LocationChanged(fix), today(), at(0)), Ok(Action::Apply(true)));
    let sunset = watch.window().unwrap().sunset_deadline();
    assert_eq!(watch_theme(&mut watch, Event::DeadlineFired, today(), sunset), Ok(Action::Apply(true)));

    let just_after = at(sunset.nanos + 1);
    let (tomorrow, latitude, longitude) = match watch.plan(just_after) {
        Ok(Plan::Recompute { tomorrow, latitude, longitude }) => (tomorrow, latitude, longitude),
        other => panic!("expected a request to recompute, got {:?}", other),
    };
    assert_eq!(tomorrow.date, CalendarDate { year: 2024, month: 3, day: 21 });
    assert_eq!(tomorrow.epoch_secs + i64::from(tomorrow.utc_offset_secs), MIDNIGHT + 28 * HOUR);
    assert_eq!(latitude, 0.0f64.to_bits());
    assert_eq!(longitude, 0.0f64.to_bits());

    let next = fix_at(f64::from_bits(latitude), f64::from_bits(longitude), tomorrow);
    assert!(next.sunrise_epoch > tomorrow.epoch_secs);
    let plan = watch.roll_over(just_after, tomorrow, next.sunrise_epoch, next.sunset_epoch);
    let sunrise = at(just_after.nanos + (next.sunrise_epoch - tomorrow.epoch_secs) * SEC);
    assert_eq!(plan, Ok(Plan::WakeAt(sunrise)));
    let window = watch.window().unwrap();
    assert_eq!(window.reference_date(), tomorrow.date);
    assert_eq!(window.sunrise_deadline(), sunrise);
    assert_eq!(watch.mode(), settings(true, true));
    assert_eq!(watch.plan(just_after), Ok(Plan::WakeAt(sunrise)));
}

#[test]
fn roll_over_leaves_a_live_window_alone() {
    let mut watch = watcher(true, 4);
    let tomorrow = LocalTime {
        date: CalendarDate { year: 2024, month: 3, day: 21 },
        epoch_secs: MIDNIGHT + 28 * HOUR,
        subsec_nanos: 0,
        utc_offset_secs: 0,
    };
    let plan = watch.roll_over(at(0), tomorrow, MIDNIGHT + 30 * HOUR, MIDNIGHT + 42 * HOUR);
    assert_eq!(plan, Ok(Plan::WakeAt(at(2 * HOUR * SEC))));
    assert_eq!(watch.window().unwrap().reference_date(), today());
}

#[test]
fn roll_over_in_manual_mode_sets_no_timer() {
    let mut watch = watcher(false, 4);
    let spent = at(14 * HOUR * SEC + 1);
    let tomorrow = LocalTime {
        date: CalendarDate { year: 2024, month: 3, day: 21 },
        epoch_secs: MIDNIGHT + 28 * HOUR,
        subsec_nanos: 0,
        utc_offset_secs: 0,
    };
    let plan = watch.roll_over(spent, tomorrow, MIDNIGHT + 30 * HOUR, MIDNIGHT + 42 * HOUR);
    assert_eq!(plan, Ok(Plan::Idle));
    assert_eq!(watch.window().unwrap().reference_date(), tomorrow.date);
}

#[test]
fn a_window_that_cannot_be_carried_forward_stops_the_watch() {
    let mut watch = watcher(true, 20);
    let tomorrow = LocalTime {
        date: CalendarDate { year: 2024, month: 3, day: 21 },
        epoch_secs: MIDNIGHT + 44 * HOUR,
        subsec_nanos: 0,
        utc_offset_secs: 0,
    };
    let spent = watch.roll_over(at(0), tomorrow, MIDNIGHT + 30 * HOUR, MIDNIGHT + 42 * HOUR);
    assert_eq!(spent, Err(WatchError::Window(DayWindowError::AllDeadlinesElapsed)));

    let mut watch = watcher(true, 20);
    let negative = watch.roll_over(at(0), tomorrow, -1, MIDNIGHT + 42 * HOUR);
    assert_eq!(
        negative,
        Err(WatchError::Window(DayWindowError::Time(TimeComputationError::NegativeOrOverflow)))
    );
    let far = watch.roll_over(at(i64::MAX), tomorrow, MIDNIGHT + 50 * HOUR, MIDNIGHT + 60 * HOUR);
    assert_eq!(
        far,
        Err(WatchError::Window(DayWindowError::Time(TimeComputationError::ClockAnchorFailure)))
    );
    assert_eq!(watch.window().unwrap().reference_date(), today());
}

#[test]
fn a_watch_at_the_end_of_the_calendar_stops_with_date_overflow() {
    let last_day = LocalTime {
        date: CalendarDate { year: 262_142, month: 12, day: 31 },
        epoch_secs: 8_210_266_876_799,
        subsec_nanos: 0,
        utc_offset_secs: 0,
    };
    let fix = LocationFix {
        latitude: 0,
        longitude: 0,
        now: last_day,
        sunrise_epoch: 8_210_266_876_000,
        sunset_epoch: 8_210_266_876_001,
    };
    let mut watch = ThemeWatch::new(settings(true, false));
    let first = watch_theme(&mut watch, Event::LocationChanged(fix), last_day.date, at(0));
    assert_eq!(first, Ok(Action::Apply(true)));
    assert_eq!(watch.plan(at(0)), Err(WatchError::Window(DayWindowError::DateOverflow)));
}
