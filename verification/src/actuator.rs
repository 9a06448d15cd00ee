//! Actuator level derivation.
//!
//! The waveform generator itself is a hardware peripheral; writing its
//! compare register happens outside the library. What is verified here is
//! the pre-scaling the control loop owes that peripheral: the linear map
//! from a full-range sensor sample to the actuator's 8-bit level.

use vstd::prelude::*;

verus! {

/// Largest raw sample the analog peripheral can produce (10-bit resolution).
pub const MAX_SAMPLE: u16 = 1023;

/// Largest level the actuator accepts (8-bit proportional value).
pub const MAX_LEVEL: u8 = 255;

/// The actuator level derived from a sample: `sample * 255 / 1023`.
pub open spec fn spec_level(sample: u16) -> int {
    sample * 255 / 1023
}

/// The derived level always fits the actuator's 8-bit width.
pub proof fn lemma_level_fits(sample: u16)
    requires
        sample <= MAX_SAMPLE,
    ensures
        0 <= spec_level(sample) <= 255,
{
    vstd::arithmetic::mul::lemma_mul_inequality(sample as int, 1023, 255);
    vstd::arithmetic::div_mod::lemma_div_is_ordered(sample * 255, 260865int, 1023);
    vstd::arithmetic::div_mod::lemma_div_pos_is_pos(sample * 255, 1023);
    vstd::arithmetic::mul::lemma_mul_nonnegative(sample as int, 255);
}

/// The actuator level is a monotonic non-decreasing function of the sample
/// across the full sensor range.
pub proof fn lemma_level_monotonic(a: u16, b: u16)
    requires
        a <= b,
        b <= MAX_SAMPLE,
    ensures
        spec_level(a) <= spec_level(b),
{
    vstd::arithmetic::mul::lemma_mul_inequality(a as int, b as int, 255);
    vstd::arithmetic::div_mod::lemma_div_is_ordered(a * 255, b * 255, 1023);
}

/// Map a raw sample to the actuator level by linear scaling over the full
/// sensor range: 0 maps to 0 and 1023 maps to 255.
pub fn scale_level(sample: u16) -> (r: u8)
    requires
        sample <= MAX_SAMPLE,
    ensures
        r == spec_level(sample),
{
    proof {
        lemma_level_fits(sample);
    }
    ((sample as u32) * 255 / 1023) as u8
}

} // verus!
