//! Polarity of the hour angle.
//!
//! The spherical-trigonometry inversion yields the unsigned hour angle of
//! an event: `acos` of a quotient, a value in `[0, pi]`, or NaN when the
//! event never occurs. That evaluation is real arithmetic and happens
//! outside the crate; what is verified here is the signed half of the
//! solver. A morning event lies before solar transit, so its hour angle is
//! the exact negation of the unsigned one — a sign-bit flip of the
//! pattern — while an evening event keeps it unchanged.

use vstd::prelude::*;

use crate::double::is_nan_bits;
use crate::double::lemma_negate_involutive;
use crate::double::lemma_negate_preserves_nan;
use crate::double::negate;
use crate::double::negated_bits;
use crate::event::SolarEvent;
use crate::event::event_angle_bits;
use crate::event::event_is_morning;

verus! {

/// The signed hour angle of an event, given the unsigned one: negated for
/// a morning event, unchanged for an evening one.
pub open spec fn signed_hour_angle_bits(unsigned: u64, e: SolarEvent) -> u64 {
    if event_is_morning(e) {
        negated_bits(unsigned)
    } else {
        unsigned
    }
}

/// Apply an event's polarity to the unsigned hour angle.
///
/// `unsigned` is the bit pattern of `acos(numerator / denominator)` for
/// this event's target angle: a value in `[0, pi]`, or NaN when the sun
/// never reaches the target angle on that day.
pub fn signed_hour_angle(unsigned: u64, event: &SolarEvent) -> (r: u64)
    ensures
        r == signed_hour_angle_bits(unsigned, *event),
        is_nan_bits(r) == is_nan_bits(unsigned),
{
    proof {
        lemma_negate_preserves_nan(unsigned);
    }
    if event.is_morning() {
        negate(unsigned)
    } else {
        unsigned
    }
}

/// Sunrise and sunset are exact negations of each other.
///
/// Both events share the target angle, so from the same latitude,
/// declination and observer altitude the unsigned hour angle is the same
/// value; sunrise, a morning event, negates it, and sunset keeps it. The
/// two signed hour angles therefore differ in the sign bit alone,
/// whatever the unsigned value — a number or NaN. In particular one is
/// NaN exactly when the other is: on a polar day or in a polar night the
/// two events are absent together.
pub proof fn lemma_sunrise_sunset_opposite(unsigned: u64)
    ensures
        event_angle_bits(SolarEvent::Sunrise) == event_angle_bits(SolarEvent::Sunset),
        signed_hour_angle_bits(unsigned, SolarEvent::Sunrise) == negated_bits(
            signed_hour_angle_bits(unsigned, SolarEvent::Sunset),
        ),
        signed_hour_angle_bits(unsigned, SolarEvent::Sunset) == negated_bits(
            signed_hour_angle_bits(unsigned, SolarEvent::Sunrise),
        ),
        is_nan_bits(signed_hour_angle_bits(unsigned, SolarEvent::Sunrise)) == is_nan_bits(
            signed_hour_angle_bits(unsigned, SolarEvent::Sunset),
        ),
{
    lemma_negate_involutive(unsigned);
    lemma_negate_preserves_nan(unsigned);
}

/// Dawn and dusk of one kind of twilight share the target angle and have
/// opposite polarity, so their signed hour angles are exact negations as
/// well.
pub proof fn lemma_dawn_dusk_opposite(unsigned: u64, t: crate::event::DawnType)
    ensures
        event_angle_bits(SolarEvent::Dawn(t)) == event_angle_bits(SolarEvent::Dusk(t)),
        signed_hour_angle_bits(unsigned, SolarEvent::Dawn(t)) == negated_bits(
            signed_hour_angle_bits(unsigned, SolarEvent::Dusk(t)),
        ),
{
}

} // verus!
