//! The quotes of one step.
//!
//! With mid-price `s`, inventory `q`, risk aversion `g`, volatility `v`,
//! liquidity `k` and time `t` elapsed of the horizon `T`, the quoting policy
//! centres its quotes on the reservation price `s - q * g * v^2 * (T - t)`
//! and sets them half a spread away on either side, where the spread is
//! `g * v^2 * max(T - t, floor) + (2 / g) * ln(1 + g / k)`. The arithmetic
//! is the caller's. Decided here are the floor under the time that is left,
//! and that quotes are accepted only if each of their values is finite.

use vstd::prelude::*;
use crate::binary64::{Binary64, lemma_fields, lemma_magnitude_order, lemma_magnitude_zero};
use crate::error::SimError;

verus! {

/// Pattern of the least time to the horizon that a spread is computed
/// with: the binary64 value nearest to one hundredth.
pub const HORIZON_FLOOR_BITS: u64 = 0x3f84_7ae1_47ae_147b;

/// The floor as a value.
pub open spec fn horizon_floor() -> Binary64 {
    Binary64 { bits: HORIZON_FLOOR_BITS }
}

/// The time to the horizon that the spread is computed with: the time that
/// is left, but no less than the floor, so that the spread keeps a positive
/// risk term up to the horizon and beyond it. A time that is NaN or infinite
/// is a numeric fault.
pub fn floored_time_left(left: Binary64) -> (r: Result<Binary64, SimError>)
    ensures
        left.finite() ==> r == Ok::<Binary64, SimError>(left.larger(horizon_floor())),
        !left.finite() ==> r == Err::<Binary64, SimError>(SimError::NumericFault),
        r matches Ok(used) ==> used.finite() && used.positive() && horizon_floor().le(used),
{
    if !left.is_finite() {
        return Err(SimError::NumericFault);
    }
    let floor = Binary64::from_bits(HORIZON_FLOOR_BITS);
    proof {
        lemma_fields(floor);
        lemma_magnitude_zero(floor);
        lemma_fields(left);
        lemma_magnitude_order(floor, left);
    }
    Ok(left.max(floor))
}

/// The values that the quoting policy derives for one step.
#[derive(Clone, Copy, Debug, PartialEq, Eq, Structural)]
pub struct QuoteSet {
    /// Mid-price shifted against the inventory held.
    pub reservation_price: Binary64,
    /// Price at which the agent offers to buy.
    pub bid: Binary64,
    /// Price at which the agent offers to sell.
    pub ask: Binary64,
    /// Distance between ask and bid.
    pub spread: Binary64,
}

impl QuoteSet {
    /// Each of the four values is finite.
    pub open spec fn finite(self) -> bool {
        &&& self.reservation_price.finite()
        &&& self.bid.finite()
        &&& self.ask.finite()
        &&& self.spread.finite()
    }

    /// Each of the four values is finite.
    pub fn is_finite(&self) -> (r: bool)
        ensures
            r == self.finite(),
    {
        self.reservation_price.is_finite() && self.bid.is_finite() && self.ask.is_finite()
            && self.spread.is_finite()
    }

    /// Passes the quotes on if each value is finite.
    pub fn checked(self) -> (r: Result<QuoteSet, SimError>)
        ensures
            self.finite() ==> r == Ok::<QuoteSet, SimError>(self),
            !self.finite() ==> r == Err::<QuoteSet, SimError>(SimError::NumericFault),
    {
        if self.is_finite() {
            Ok(self)
        } else {
            Err(SimError::NumericFault)
        }
    }
}

} // verus!
