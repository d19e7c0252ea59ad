//! A full day at a specific location.
//!
//! The aggregate precomputes, once per location and date, the two per-day
//! invariants of the solar computation — the Julian day of solar transit
//! and the sun's declination — and answers event queries against them. It
//! is an immutable value: the altitude override copies the receiver and
//! replaces one field.
//!
//! Transit and declination come out of the trigonometric pipeline as
//! binary64 bit patterns and stay opaque here. What the aggregate decides,
//! and what is verified, is the outcome of a query: an event has a time
//! exactly when its hour angle is a number, and no time when it is NaN —
//! polar day and polar night are absent results, not errors.

use vstd::prelude::*;

use crate::coordinates::Coordinates;
use crate::coordinates::valid_latitude_bits;
use crate::double::is_nan_bits;

verus! {

/// Bit pattern of positive zero, the default observer altitude in meters.
pub const ZERO_ALTITUDE: u64 = 0;

/// A full day at a specific location: the precomputed solar transit and
/// declination, with the latitude and observer altitude of the query
/// point. All four fields are binary64 bit patterns.
#[derive(Debug, Clone, Copy, PartialEq, Eq, Structural)]
pub struct SolarDay {
    /// Latitude of the location, in degrees.
    pub lat: u64,
    /// Observer altitude above sea level, in meters.
    pub altitude: u64,
    /// Julian day of local true solar noon.
    pub solar_transit: u64,
    /// The sun's declination on this day, in radians.
    pub declination: u64,
}

impl SolarDay {
    /// Assemble a day from the validated position and the precomputed
    /// transit and declination. The observer altitude defaults to zero.
    pub fn new(coord: &Coordinates, solar_transit: u64, declination: u64) -> (s: SolarDay)
        ensures
            s.lat == coord.lat_bits(),
            valid_latitude_bits(s.lat),
            s.altitude == ZERO_ALTITUDE,
            s.solar_transit == solar_transit,
            s.declination == declination,
    {
        SolarDay { lat: coord.lat(), altitude: ZERO_ALTITUDE, solar_transit, declination }
    }

    /// Specify the altitude of the observer, in meters. Returns a new
    /// value; the receiver is unchanged.
    pub fn with_altitude(self, altitude: u64) -> (s: SolarDay)
        ensures
            s.lat == self.lat,
            s.altitude == altitude,
            s.solar_transit == self.solar_transit,
            s.declination == self.declination,
    {
        SolarDay { altitude, ..self }
    }

    /// Decide the outcome of an event query.
    ///
    /// `signed_hour_angle` is the bit pattern of the event's signed hour
    /// angle for this day, and `timestamp` the UNIX timestamp obtained
    /// from it and the solar transit. The event occurs exactly when the
    /// hour angle is a number: NaN means the sun never reaches the target
    /// angle on this day — polar day or polar night — and yields absence.
    pub fn event_time(&self, signed_hour_angle: u64, timestamp: i64) -> (r: Option<i64>)
        ensures
            r == if is_nan_bits(signed_hour_angle) {
                Option::<i64>::None
            } else {
                Option::<i64>::Some(timestamp)
            },
    {
        if crate::double::is_nan(signed_hour_angle) {
            None
        } else {
            Some(timestamp)
        }
    }
}

} // verus!
