//! Computes the time of solar events — sunrise, sunset, the three kinds of
//! dawn and dusk, or an arbitrary solar elevation — for a geographic position
//! and a calendar date.
//!
//! Verus has no floating-point arithmetic, so every IEEE-754 binary64 value
//! crosses this crate's boundary as its 64-bit pattern, held in a `u64`. The
//! crate verifies everything about those patterns that does not require
//! evaluating real arithmetic: validation of coordinates, the calendar
//! conversion from a civil date to seconds since the UNIX epoch, the target
//! angle and polarity of each solar event, the sign of the hour angle, and
//! the "no such event today" decision, which IEEE-754 signals through NaN.
//! The trigonometric pipeline itself runs outside the crate and feeds its
//! intermediate results back in as bit patterns.

pub mod calendar;
pub mod coordinates;
pub mod double;
pub mod event;
pub mod hourangle;
pub mod solar_day;

pub use calendar::Date;
pub use coordinates::Coordinates;
pub use event::DawnType;
pub use event::SolarEvent;
pub use solar_day::SolarDay;
