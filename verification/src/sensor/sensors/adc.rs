//! Analog channel shared by the light sensor and the wind vane.
use vstd::prelude::*;

verus! {

/// ADC reading per light-level step (full light reads about 2600).
pub const LIGHT_STEP: u16 = 26;

/// Light level for a raw ADC reading: the reading divided by 26, rounded
/// down, and clamped to the range of a byte.
pub open spec fn spec_light_level(raw: u16) -> u8 {
    if raw / 26 > 255 {
        255
    } else {
        (raw / 26) as u8
    }
}

/// The light level is the number of whole 26-count steps in the reading,
/// up to the largest byte.
pub proof fn law_light_level_counts_steps(raw: u16)
    ensures
        raw < 26 * 256 ==> spec_light_level(raw) * 26 <= raw < (spec_light_level(raw) + 1) * 26,
        raw >= 26 * 256 ==> spec_light_level(raw) == 255,
{
}

/// Converts a raw ADC reading of the light sensor into a light level.
pub fn light_level(raw: u16) -> (level: u8)
    ensures
        level == spec_light_level(raw),
        raw < 26 * 256 ==> level * 26 <= raw < (level + 1) * 26,
        raw >= 26 * 256 ==> level == 255,
{
    proof {
        law_light_level_counts_steps(raw);
    }
    let steps = raw / LIGHT_STEP;
    if steps > 255 {
        255
    } else {
        steps as u8
    }
}

} // verus!
