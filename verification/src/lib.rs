//! A terminal progress-rendering engine.
//!
//! The library keeps the full state of one or more progress bars, decides
//! when a redraw may happen, and renders each bar to a plain text line.
//! It never touches a clock or an output stream itself: callers pass in
//! timestamps (nanoseconds from any monotone origin) and write the returned
//! lines wherever they like, so everything here is verified.

pub mod bar;
pub mod multibar;
pub mod template;
pub mod throttle;
pub mod time;
pub mod units;
