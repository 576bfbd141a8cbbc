//! Colour-temperature bounds shared by every part of the night light.

use vstd::prelude::*;

verus! {

/// Lowest temperature callers may request, in Kelvin.
pub const MIN_KELVIN: u32 = 1000;

/// Neutral daylight temperature: applying it leaves the screen untinted.
pub const NEUTRAL_KELVIN: u32 = 6500;

/// Highest temperature callers may request, in Kelvin.
pub const MAX_KELVIN: u32 = 10000;

/// The temperature that is actually applied for a requested one: the request
/// held to `[MIN_KELVIN, MAX_KELVIN]`.
pub open spec fn clamped_kelvin(kelvin: int) -> int {
    if kelvin < MIN_KELVIN {
        MIN_KELVIN as int
    } else if kelvin > MAX_KELVIN {
        MAX_KELVIN as int
    } else {
        kelvin
    }
}

/// Holds a requested temperature to the supported range.
pub fn clamp_kelvin(kelvin: u32) -> (res: u32)
    ensures
        res == clamped_kelvin(kelvin as int),
        MIN_KELVIN <= res <= MAX_KELVIN,
{
    if kelvin < MIN_KELVIN {
        MIN_KELVIN
    } else if kelvin > MAX_KELVIN {
        MAX_KELVIN
    } else {
        kelvin
    }
}

} // verus!
