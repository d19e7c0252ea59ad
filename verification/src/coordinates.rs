//! A validated pair of geographic coordinates.
//!
//! Latitude and longitude arrive as binary64 bit patterns. Their range
//! checks are exact bit-pattern logic: for every non-NaN binary64 value,
//! clearing the sign bit yields the encoding of the absolute value, and on
//! those encodings the unsigned integer order is the order of the absolute
//! values. So `|lat| <= 90` holds exactly when the magnitude bits are at
//! most the pattern of 90.0, and likewise for `|lon| <= 180`; NaN and the
//! infinities are rejected alongside the out-of-range values.

use vstd::prelude::*;

use crate::double::is_nan_bits;
use crate::double::magnitude_bits;

verus! {

/// Bit pattern of 90.0, the largest valid latitude magnitude.
pub const MAX_LATITUDE: u64 = 0x4056_8000_0000_0000;

/// Bit pattern of 180.0, the largest valid longitude magnitude.
pub const MAX_LONGITUDE: u64 = 0x4066_8000_0000_0000;

/// A latitude is valid when it is not NaN and its absolute value is at
/// most 90 degrees.
pub open spec fn valid_latitude_bits(b: u64) -> bool {
    !is_nan_bits(b) && magnitude_bits(b) <= MAX_LATITUDE
}

/// A longitude is valid when it is not NaN and its absolute value is at
/// most 180 degrees.
pub open spec fn valid_longitude_bits(b: u64) -> bool {
    !is_nan_bits(b) && magnitude_bits(b) <= MAX_LONGITUDE
}

/// A valid pair of geographic coordinates, in degrees, held as binary64
/// bit patterns.
#[derive(Debug, Clone, Copy, PartialEq, Eq, Structural)]
pub struct Coordinates {
    lat: u64,
    lon: u64,
}

impl Coordinates {
    /// Both components of a constructed pair are always in range.
    #[verifier::type_invariant]
    spec fn inv(self) -> bool {
        valid_latitude_bits(self.lat) && valid_longitude_bits(self.lon)
    }

    /// The latitude pattern.
    pub closed spec fn lat_bits(self) -> u64 {
        self.lat
    }

    /// The longitude pattern.
    pub closed spec fn lon_bits(self) -> u64 {
        self.lon
    }

    /// Both components of a constructed pair are in range.
    pub open spec fn wf(self) -> bool {
        valid_latitude_bits(self.lat_bits()) && valid_longitude_bits(self.lon_bits())
    }

    /// Validate a latitude / longitude pair given in degrees.
    ///
    /// Returns `None` exactly when a component is NaN or out of range
    /// (`|lat| > 90` or `|lon| > 180`).
    pub fn new(lat: u64, lon: u64) -> (r: Option<Coordinates>)
        ensures
            r is Some <==> valid_latitude_bits(lat) && valid_longitude_bits(lon),
            r matches Some(c) ==> c.lat_bits() == lat && c.lon_bits() == lon && c.wf(),
    {
        if crate::double::is_nan(lat) || crate::double::is_nan(lon) {
            return None;
        }
        if lat & crate::double::MAGNITUDE_MASK > MAX_LATITUDE {
            return None;
        }
        if lon & crate::double::MAGNITUDE_MASK > MAX_LONGITUDE {
            return None;
        }
        Some(Coordinates { lat, lon })
    }

    /// Get the latitude component, in degrees, as a bit pattern.
    pub fn lat(&self) -> (r: u64)
        ensures
            r == self.lat_bits(),
            valid_latitude_bits(r),
    {
        proof {
            use_type_invariant(self);
        }
        self.lat
    }

    /// Get the longitude component, in degrees, as a bit pattern.
    pub fn lon(&self) -> (r: u64)
        ensures
            r == self.lon_bits(),
            valid_longitude_bits(r),
    {
        proof {
            use_type_invariant(self);
        }
        self.lon
    }
}

} // verus!
