//! The numeric guards of the order-arrival model.
//!
//! A resting quote at distance `d` from the mid-price is hit with intensity
//! `rate * exp(-k * d)`, and over a step of length `dt` it is filled with
//! probability `1 - exp(-intensity * dt)`. The exponentials are evaluated by
//! the caller; what is decided here is whether an intensity may be used at
//! all, and which probability is handed to the Bernoulli draw.

use vstd::prelude::*;
use crate::binary64::{Binary64, ONE_BITS, unit, lemma_fields, lemma_magnitude_order,
    lemma_magnitude_zero, lemma_one_is_unit};
use crate::error::SimError;

verus! {

/// The nearest point of the interval from zero to one. Zero and one are
/// given by their positive patterns.
pub open spec fn clamped(raw: Binary64) -> Binary64 {
    if raw.scaled() <= 0 {
        Binary64 { bits: 0 }
    } else if raw.scaled() >= unit() {
        Binary64 { bits: ONE_BITS }
    } else {
        raw
    }
}

/// Every value that is not NaN is clamped into the unit interval.
pub proof fn lemma_clamped_in_unit_interval(raw: Binary64)
    requires
        !raw.nan(),
    ensures
        clamped(raw).in_unit_interval(),
        raw.in_unit_interval() ==> clamped(raw).scaled() == raw.scaled(),
{
    lemma_one_is_unit();
    let zero = Binary64 { bits: 0 };
    assert(zero.exponent() == 0 && zero.fraction() == 0);
    vstd::arithmetic::power2::lemma_pow2_pos(1074);
}

/// Passes a fill intensity on if it is finite.
pub fn checked_intensity(intensity: Binary64) -> (r: Result<Binary64, SimError>)
    ensures
        intensity.finite() ==> r == Ok::<Binary64, SimError>(intensity),
        !intensity.finite() ==> r == Err::<Binary64, SimError>(SimError::NumericFault),
{
    if intensity.is_finite() {
        Ok(intensity)
    } else {
        Err(SimError::NumericFault)
    }
}

/// Turns the raw value of `1 - exp(-intensity * dt)` into the probability of
/// a fill: a NaN is a numeric fault, anything else is clamped into `[0, 1]`.
pub fn clamp_probability(raw: Binary64) -> (r: Result<Binary64, SimError>)
    ensures
        raw.nan() ==> r == Err::<Binary64, SimError>(SimError::NumericFault),
        !raw.nan() ==> r == Ok::<Binary64, SimError>(clamped(raw)),
        r matches Ok(p) ==> p.in_unit_interval(),
{
    if raw.is_nan() {
        return Err(SimError::NumericFault);
    }
    let one = Binary64::one();
    proof {
        lemma_clamped_in_unit_interval(raw);
        lemma_fields(raw);
        lemma_fields(one);
        lemma_magnitude_zero(raw);
        lemma_magnitude_order(raw, one);
        lemma_magnitude_order(one, raw);
    }
    if raw.is_sign_negative() || raw.to_bits() == 0 {
        Ok(Binary64::zero())
    } else if raw.to_bits() >= ONE_BITS {
        Ok(one)
    } else {
        Ok(raw)
    }
}

} // verus!
