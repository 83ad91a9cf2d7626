//! The parameters of a batch of simulation runs.

use vstd::prelude::*;
use crate::binary64::Binary64;
use crate::error::SimError;

verus! {

/// The named values that configure a batch, as the caller supplies them.
#[derive(Clone, Copy, Debug, PartialEq, Eq, Structural)]
pub struct ParameterValues {
    /// Initial mid-price.
    pub s0: Binary64,
    /// Time horizon of one run.
    pub horizon: Binary64,
    /// Length of one step.
    pub dt: Binary64,
    /// Risk aversion of the agent.
    pub risk_aversion: Binary64,
    /// Volatility of the mid-price.
    pub volatility: Binary64,
    /// Liquidity of the order book: decay of the fill intensity with the
    /// distance of a quote from the mid-price.
    pub liquidity: Binary64,
    /// Fill intensity of a quote at the mid-price.
    pub base_intensity: Binary64,
    /// Largest position that the agent may hold, long or short.
    pub inventory_cap: i32,
}

/// A real parameter is usable: finite and above zero.
pub open spec fn usable(value: Binary64) -> bool {
    value.finite() && value.positive()
}

impl ParameterValues {
    /// Every real value is finite and above zero, and the cap is above zero.
    pub open spec fn valid(self) -> bool {
        &&& usable(self.s0)
        &&& usable(self.horizon)
        &&& usable(self.dt)
        &&& usable(self.risk_aversion)
        &&& usable(self.volatility)
        &&& usable(self.liquidity)
        &&& usable(self.base_intensity)
        &&& self.inventory_cap > 0
    }
}

/// Decides whether a real parameter is usable.
fn is_usable(value: Binary64) -> (r: bool)
    ensures
        r == usable(value),
{
    value.is_finite() && value.is_positive()
}

/// Parameters that were found valid. They are fixed once constructed and
/// shared by all runs of a batch.
#[derive(Clone, Copy, Debug)]
pub struct SimulationParameters {
    values: ParameterValues,
}

impl View for SimulationParameters {
    type V = ParameterValues;

    closed spec fn view(&self) -> ParameterValues {
        self.values
    }
}

impl SimulationParameters {
    #[verifier::type_invariant]
    spec fn well_formed(self) -> bool {
        self.values.valid()
    }

    /// Accepts the values if each real value is finite and above zero and
    /// the cap is above zero. Nothing that was accepted here is refused as an
    /// invalid parameter later.
    pub fn new(values: ParameterValues) -> (r: Result<SimulationParameters, SimError>)
        ensures
            values.valid() ==> r is Ok && r->Ok_0@ == values,
            !values.valid() ==> r == Err::<SimulationParameters, SimError>(
                SimError::InvalidParameter,
            ),
    {
        if is_usable(values.s0) && is_usable(values.horizon) && is_usable(values.dt) && is_usable(
            values.risk_aversion,
        ) && is_usable(values.volatility) && is_usable(values.liquidity) && is_usable(
            values.base_intensity,
        ) && values.inventory_cap > 0 {
            Ok(SimulationParameters { values })
        } else {
            Err(SimError::InvalidParameter)
        }
    }

    /// All values at once.
    pub fn values(&self) -> (values: ParameterValues)
        ensures
            values == self@,
            values.valid(),
    {
        proof {
            use_type_invariant(self);
        }
        self.values
    }

    /// The inventory cap: a positive number.
    pub fn inventory_cap(&self) -> (cap: i32)
        ensures
            cap == self@.inventory_cap,
            cap > 0,
    {
        proof {
            use_type_invariant(self);
        }
        self.values.inventory_cap
    }
}

} // verus!
