//! The mid-price path of one run.

use vstd::prelude::*;
use crate::binary64::Binary64;
use crate::error::SimError;
use crate::params::{ParameterValues, SimulationParameters};

verus! {

/// Every value is finite.
pub open spec fn all_finite(values: Seq<Binary64>) -> bool {
    forall|i: int| 0 <= i < values.len() ==> (#[trigger] values[i]).finite()
}

/// Finite values stay finite when a finite value is added.
pub proof fn lemma_push_keeps_finite(values: Seq<Binary64>, next: Binary64)
    requires
        all_finite(values),
        next.finite(),
    ensures
        all_finite(values.push(next)),
{
    assert forall|i: int| 0 <= i < values.push(next).len() implies (#[trigger] values.push(
        next,
    )[i]).finite() by {
        if i < values.len() {
            assert(values.push(next)[i] == values[i]);
        }
    }
}

/// A sampled mid-price path: the initial price, then one price per step.
/// Its length is fixed when it is made, and every price on it is finite.
/// Prices may be negative: no floor is enforced.
#[derive(Debug)]
pub struct PricePath {
    values: Vec<Binary64>,
}

impl View for PricePath {
    type V = Seq<Binary64>;

    closed spec fn view(&self) -> Seq<Binary64> {
        self.values@
    }
}

impl PricePath {
    #[verifier::type_invariant]
    spec fn well_formed(self) -> bool {
        self.values@.len() > 0 && all_finite(self.values@)
    }

    /// Takes sampled prices as a path. Without an initial price there is no
    /// path; a price that is NaN or infinite is a numeric fault.
    pub fn from_values(values: Vec<Binary64>) -> (r: Result<PricePath, SimError>)
        ensures
            values@.len() == 0 ==> r == Err::<PricePath, SimError>(SimError::InvalidParameter),
            values@.len() > 0 && !all_finite(values@) ==> r == Err::<PricePath, SimError>(
                SimError::NumericFault,
            ),
            values@.len() > 0 && all_finite(values@) ==> r is Ok && r->Ok_0@ == values@,
    {
        if values.len() == 0 {
            return Err(SimError::InvalidParameter);
        }
        let mut i: usize = 0;
        while i < values.len()
            invariant
                i <= values.len(),
                forall|j: int| 0 <= j < i ==> (#[trigger] values@[j]).finite(),
            decreases values.len() - i,
        {
            if !values[i].is_finite() {
                return Err(SimError::NumericFault);
            }
            i = i + 1;
        }
        Ok(PricePath { values })
    }

    /// The number of prices fits a machine word.
    pub proof fn lemma_length_fits(&self)
        ensures
            self@.len() <= usize::MAX,
    {
        assert(self.values.len() == self.values@.len());
    }

    /// Number of prices: one more than the number of steps.
    pub fn len(&self) -> (len: usize)
        ensures
            len == self@.len(),
            len > 0,
            all_finite(self@),
    {
        proof {
            use_type_invariant(self);
        }
        self.values.len()
    }

    /// Number of steps.
    pub fn steps(&self) -> (steps: usize)
        ensures
            steps == self@.len() - 1,
    {
        proof {
            use_type_invariant(self);
        }
        self.values.len() - 1
    }

    /// The price before step `index`; with `index` the number of steps, the
    /// final price.
    pub fn price(&self, index: usize) -> (price: Binary64)
        requires
            index < self@.len(),
        ensures
            price == self@[index as int],
            price.finite(),
    {
        proof {
            use_type_invariant(self);
        }
        self.values[index]
    }

    /// All prices, the initial price first.
    pub fn values(&self) -> (values: &Vec<Binary64>)
        ensures
            values@ == self@,
    {
        &self.values
    }
}

/// A mid-price path in the making.
pub struct PathDraft {
    /// The prices so far, the initial price first.
    pub values: Seq<Binary64>,
    /// Number of prices that the caller supplied.
    pub supplied: nat,
    /// Number of steps that are generated after them.
    pub steps: nat,
}

impl PathDraft {
    /// Every price is there: the supplied ones and one for each step.
    pub open spec fn complete(self) -> bool {
        self.values.len() == self.supplied + self.steps
    }

    /// What holds of every draft.
    pub open spec fn valid(self) -> bool {
        &&& 1 <= self.supplied <= self.values.len() <= self.supplied + self.steps
        &&& all_finite(self.values)
    }
}

/// A path can be generated from these: supplied prices, at least one and
/// each finite, a finite step length above zero, and a finite volatility
/// that is not below zero.
pub open spec fn generable(prefix: Seq<Binary64>, dt: Binary64, volatility: Binary64) -> bool {
    &&& prefix.len() > 0
    &&& all_finite(prefix)
    &&& dt.finite()
    &&& dt.positive()
    &&& volatility.finite()
    &&& volatility.scaled() >= 0
}

/// A path can be generated from valid parameters, and its volatility is not
/// zero: a parameter that was accepted is not refused when the path is made.
pub proof fn lemma_valid_parameters_generable(values: ParameterValues)
    requires
        values.valid(),
    ensures
        generable(seq![values.s0], values.dt, values.volatility),
        !values.volatility.zero_valued(),
{
    assert(seq![values.s0][0] == values.s0);
}

/// The path that stays at the last of the supplied prices.
pub open spec fn flat_path(prefix: Seq<Binary64>, steps: nat) -> Seq<Binary64> {
    Seq::new(
        prefix.len() + steps,
        |i: int|
            if i < prefix.len() {
                prefix[i]
            } else {
                prefix.last()
            },
    )
}

/// Builds a mid-price path step by step. Each generated price is the price
/// before it plus a normal increment with mean zero and standard deviation
/// `volatility * sqrt(dt)`: the builder shows the price to start from, and
/// the caller hands back the sum. With a volatility of zero there is nothing
/// to draw, and the path is complete from the start.
pub struct PathBuilder {
    values: Vec<Binary64>,
    supplied: usize,
    steps: usize,
}

impl View for PathBuilder {
    type V = PathDraft;

    closed spec fn view(&self) -> PathDraft {
        PathDraft {
            values: self.values@,
            supplied: self.supplied as nat,
            steps: self.steps as nat,
        }
    }
}

impl PathBuilder {
    #[verifier::type_invariant]
    spec fn well_formed(self) -> bool {
        self@.valid()
    }

    /// Starts a path of `steps` steps at `initial`: it will have `steps + 1`
    /// prices. It is refused as an invalid parameter unless the step length
    /// is finite and above zero, the initial price finite, and the
    /// volatility finite and not below zero. With a volatility of zero every entry of the path
    /// is the initial price.
    pub fn new(initial: Binary64, steps: usize, dt: Binary64, volatility: Binary64) -> (r: Result<
        PathBuilder,
        SimError,
    >)
        ensures
            !generable(seq![initial], dt, volatility) ==> r is Err && r->Err_0
                == SimError::InvalidParameter,
            generable(seq![initial], dt, volatility) ==> r is Ok && r->Ok_0@.steps == steps
                && r->Ok_0@.supplied == 1,
            generable(seq![initial], dt, volatility) && volatility.zero_valued() ==> r->Ok_0@.values
                == Seq::new((steps + 1) as nat, |i: int| initial) && r->Ok_0@.complete(),
            generable(seq![initial], dt, volatility) && !volatility.zero_valued()
                ==> r->Ok_0@.values == seq![initial],
    {
        let mut prefix: Vec<Binary64> = Vec::new();
        prefix.push(initial);
        proof {
            assert(prefix@ =~= seq![initial]);
            assert(flat_path(seq![initial], steps as nat) =~= Seq::new(
                (steps + 1) as nat,
                |i: int| initial,
            ));
        }
        PathBuilder::resume(prefix, steps, dt, volatility)
    }

    /// Starts a path of `steps` steps at the initial price of `params`: what
    /// `new` gives for their initial price, step length and volatility, which
    /// it never refuses.
    pub fn with_parameters(params: &SimulationParameters, steps: usize) -> (builder: PathBuilder)
        ensures
            generable(seq![params@.s0], params@.dt, params@.volatility),
            !params@.volatility.zero_valued(),
            builder@ == (PathDraft { values: seq![params@.s0], supplied: 1, steps: steps as nat }),
    {
        let values = params.values();
        proof {
            lemma_valid_parameters_generable(values);
        }
        let mut prices: Vec<Binary64> = Vec::new();
        prices.push(values.s0);
        proof {
            assert(prices@ =~= seq![params@.s0]);
        }
        PathBuilder { values: prices, supplied: 1, steps }
    }

    /// Goes on from prices that the caller supplies: they stay as they are,
    /// and `steps` prices are generated after the last of them. The call is
    /// refused as an invalid parameter unless there is a supplied price, each
    /// of them is finite, the step length is finite and above zero, and the
    /// volatility is finite and not below zero. With a volatility of zero every
    /// generated entry is the last supplied price.
    pub fn resume(prefix: Vec<Binary64>, steps: usize, dt: Binary64, volatility: Binary64) -> (r:
        Result<PathBuilder, SimError>)
        ensures
            !generable(prefix@, dt, volatility) ==> r is Err && r->Err_0
                == SimError::InvalidParameter,
            generable(prefix@, dt, volatility) ==> r is Ok && r->Ok_0@.steps == steps
                && r->Ok_0@.supplied == prefix@.len(),
            generable(prefix@, dt, volatility) && volatility.zero_valued() ==> r->Ok_0@.values
                == flat_path(prefix@, steps as nat) && r->Ok_0@.complete(),
            generable(prefix@, dt, volatility) && !volatility.zero_valued() ==> r->Ok_0@.values
                == prefix@,
    {
        if prefix.len() == 0 || !dt.is_finite() || !dt.is_positive() || !volatility.is_finite() {
            return Err(SimError::InvalidParameter);
        }
        let flat = volatility.is_zero();
        if volatility.is_sign_negative() && !flat {
            return Err(SimError::InvalidParameter);
        }
        let supplied = prefix.len();
        let mut k: usize = 0;
        while k < supplied
            invariant
                supplied == prefix@.len(),
                k <= supplied,
                forall|j: int| 0 <= j < k ==> (#[trigger] prefix@[j]).finite(),
            decreases supplied - k,
        {
            if !prefix[k].is_finite() {
                return Err(SimError::InvalidParameter);
            }
            k = k + 1;
        }
        let ghost given = prefix@;
        let mut values = prefix;
        if flat {
            let last = values[supplied - 1];
            let mut i: usize = 0;
            while i < steps
                invariant
                    i <= steps,
                    supplied == given.len(),
                    supplied > 0,
                    values@.len() == supplied + i,
                    last == given.last(),
                    forall|j: int| 0 <= j < supplied ==> #[trigger] values@[j] == given[j],
                    forall|j: int| supplied <= j < supplied + i ==> #[trigger] values@[j] == last,
                decreases steps - i,
            {
                values.push(last);
                i = i + 1;
            }
            proof {
                assert(values@ =~= flat_path(given, steps as nat));
            }
        }
        Ok(PathBuilder { values, supplied, steps })
    }

    /// Every price is there.
    pub fn is_complete(&self) -> (complete: bool)
        ensures
            complete == self@.complete(),
            self@.valid(),
    {
        proof {
            use_type_invariant(self);
        }
        self.values.len() - self.supplied >= self.steps
    }

    /// The price to which the next increment is added; none once the path is
    /// complete.
    pub fn pending(&self) -> (previous: Option<Binary64>)
        ensures
            self@.complete() ==> previous is None,
            !self@.complete() ==> previous == Some(self@.values.last()),
            previous matches Some(price) ==> price.finite(),
    {
        proof {
            use_type_invariant(self);
        }
        if self.values.len() - self.supplied >= self.steps {
            None
        } else {
            Some(self.values[self.values.len() - 1])
        }
    }

    /// Appends the next price. A price that is NaN or infinite is a numeric
    /// fault and ends the path.
    pub fn extend(self, next: Binary64) -> (r: Result<PathBuilder, SimError>)
        requires
            !self@.complete(),
        ensures
            next.finite() ==> r is Ok && r->Ok_0@ == (PathDraft {
                values: self@.values.push(next),
                ..self@
            }),
            !next.finite() ==> r is Err && r->Err_0 == SimError::NumericFault,
    {
        proof {
            use_type_invariant(&self);
        }
        if !next.is_finite() {
            return Err(SimError::NumericFault);
        }
        let PathBuilder { values, supplied, steps } = self;
        let mut values = values;
        values.push(next);
        Ok(PathBuilder { values, supplied, steps })
    }

    /// The finished path: the supplied prices and one price for each step.
    pub fn finish(self) -> (path: PricePath)
        requires
            self@.complete(),
        ensures
            path@ == self@.values,
            path@.len() == self@.supplied + self@.steps,
    {
        proof {
            use_type_invariant(&self);
        }
        PricePath { values: self.values }
    }
}

} // verus!
