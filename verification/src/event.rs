//! The closed set of solar events and their target angles.
//!
//! Every event maps to a target depression angle below the horizon (in
//! radians, held as a binary64 bit pattern) and a polarity: morning events
//! lie before solar transit, evening events after. The angles are fixed
//! constants of the model — 50 arc minutes for sunrise and sunset (solar
//! radius plus mean refraction), 6, 12 and 18 degrees for the three kinds
//! of twilight — except for `Elevation`, which carries a caller-supplied
//! angle.

use vstd::prelude::*;

verus! {

/// Bit pattern of 5/6 degree in radians: the depression of the sun's
/// centre at sunrise and sunset, accounting for the solar radius and for
/// mean atmospheric refraction.
pub const SUNRISE_SUNSET_ANGLE: u64 = 0x3F8D_C975_B934_5B5F;

/// Bit pattern of 6 degrees in radians: the depression at civil twilight.
pub const CIVIL_ANGLE: u64 = 0x3FBA_CEE9_F37B_EBD6;

/// Bit pattern of 12 degrees in radians: the depression at nautical
/// twilight.
pub const NAUTICAL_ANGLE: u64 = 0x3FCA_CEE9_F37B_EBD6;

/// Bit pattern of 18 degrees in radians: the depression at astronomical
/// twilight.
pub const ASTRONOMICAL_ANGLE: u64 = 0x3FD4_1B2F_769C_F0E0;

/// Type of dawn or dusk computation.
///
/// When in doubt, `Civil` is usually the wanted one.
#[derive(Debug, Clone, Copy, PartialEq, Eq, PartialOrd, Ord, Hash, Structural)]
pub enum DawnType {
    /// Civil twilight: the sun is at most 6 degrees below the horizon and
    /// there is enough light for most outdoor activities.
    Civil,
    /// Nautical twilight: the sun is at most 12 degrees below the horizon
    /// and the horizon at sea is still distinguishable.
    Nautical,
    /// Astronomical twilight: the sun is at most 18 degrees below the
    /// horizon; beyond it the sky is fully dark.
    Astronomical,
}

/// The depression angle of a kind of twilight, as a bit pattern.
pub open spec fn dawn_angle_bits(t: DawnType) -> u64 {
    match t {
        DawnType::Civil => CIVIL_ANGLE,
        DawnType::Nautical => NAUTICAL_ANGLE,
        DawnType::Astronomical => ASTRONOMICAL_ANGLE,
    }
}

impl DawnType {
    /// The depression angle of this kind of twilight, in radians, as a bit
    /// pattern.
    pub fn positive_angle(&self) -> (r: u64)
        ensures
            r == dawn_angle_bits(*self),
    {
        match self {
            DawnType::Civil => CIVIL_ANGLE,
            DawnType::Nautical => NAUTICAL_ANGLE,
            DawnType::Astronomical => ASTRONOMICAL_ANGLE,
        }
    }
}

/// Common solar events.
#[derive(Debug, Clone, Copy, PartialEq, Eq, Structural)]
pub enum SolarEvent {
    /// The upper rim of the sun appears on the horizon in the morning.
    Sunrise,
    /// The sun disappears below the horizon in the evening.
    Sunset,
    /// The beginning of twilight before sunrise.
    Dawn(DawnType),
    /// The end of twilight after sunset.
    Dusk(DawnType),
    /// The sun reaches a given depression angle.
    Elevation {
        /// The depression angle, in radians, as a binary64 bit pattern.
        /// Negative values are elevations above the horizon.
        elevation: u64,
        /// `true` for the morning crossing, `false` for the evening one.
        morning: bool,
    },
}

/// The target depression angle of an event, as a bit pattern.
pub open spec fn event_angle_bits(e: SolarEvent) -> u64 {
    match e {
        SolarEvent::Sunrise | SolarEvent::Sunset => SUNRISE_SUNSET_ANGLE,
        SolarEvent::Dawn(t) | SolarEvent::Dusk(t) => dawn_angle_bits(t),
        SolarEvent::Elevation { elevation, .. } => elevation,
    }
}

/// Whether an event lies before solar transit.
pub open spec fn event_is_morning(e: SolarEvent) -> bool {
    match e {
        SolarEvent::Sunrise | SolarEvent::Dawn(_) => true,
        SolarEvent::Sunset | SolarEvent::Dusk(_) => false,
        SolarEvent::Elevation { morning, .. } => morning,
    }
}

impl SolarEvent {
    /// The target depression angle of this event, in radians, as a bit
    /// pattern.
    pub fn angle(&self) -> (r: u64)
        ensures
            r == event_angle_bits(*self),
    {
        match self {
            SolarEvent::Sunrise | SolarEvent::Sunset => SUNRISE_SUNSET_ANGLE,
            SolarEvent::Dusk(t) | SolarEvent::Dawn(t) => t.positive_angle(),
            SolarEvent::Elevation { elevation, .. } => *elevation,
        }
    }

    /// Whether this event lies before solar transit. Dawn is morning
    /// twilight and dusk evening twilight, matching everyday usage.
    pub fn is_morning(&self) -> (r: bool)
        ensures
            r == event_is_morning(*self),
    {
        matches!(
            self,
            SolarEvent::Sunrise | SolarEvent::Dawn(_) | SolarEvent::Elevation { morning: true, .. }
        )
    }
}

} // verus!
