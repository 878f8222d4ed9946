//! Automatic dark and light theme switching by sunrise and sunset.
//!
//! The crate decides, for an observer at known coordinates, whether the
//! desktop should show its dark or its light theme, and when that answer can
//! next change. Sunrise and sunset are handed in as seconds since the Unix
//! epoch; the crate anchors them to a monotonic clock, classifies instants as
//! dark or light, rolls a window over to the next day, and folds the events
//! of the watcher's loop into theme commands.
//!
//! Everything here works on plain values. Reading the clocks, talking to the
//! configuration store and the location service, sleeping, and evaluating the
//! astronomical formula are the caller's part.

pub mod clock;
pub mod theme;
pub mod watch;
