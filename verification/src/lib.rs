//! Progress tracking for personal goals.
//!
//! A target is a goal that is reached either by logging a number of entries
//! or by logging a value that climbs towards the target value. This crate
//! holds the rules: what a target's current value and completion ratio are,
//! how an animated bar walks towards that ratio, and when the loop that
//! draws the dashboard stops. Every amount is an integer count of
//! thousandths, so that every result is exact.
pub mod dates;
pub mod progress_records;
pub mod progress_bar;
pub mod records;
pub mod render_loop;
pub mod tables;
pub mod targets;
pub mod text;
