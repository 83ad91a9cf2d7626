//! The Monte Carlo batch: many independent runs under one set of parameters.
//!
//! Each run starts from a fresh ledger. A finished run adds its terminal
//! profit and loss to the batch and widens the range of positions seen; the
//! cash and position of the run recorded last are kept beside them. A run
//! that ended in a numeric fault is never recorded: under
//! [`FaultPolicy::Skip`] it is counted and the batch goes on, under
//! [`FaultPolicy::Abort`] the batch stops for good.

use vstd::prelude::*;
use crate::binary64::Binary64;
use crate::error::SimError;
use crate::params::{ParameterValues, SimulationParameters};
use crate::path::PricePath;
use crate::runner::{RunRecord, RunResult, RunState, SimulationRunner};

verus! {

/// What a batch does about a run that ended in a numeric fault.
#[derive(Clone, Copy, Debug, PartialEq, Eq, Structural)]
pub enum FaultPolicy {
    /// The batch fails: nothing is recorded from then on.
    Abort,
    /// The run is left out and counted.
    Skip,
}

/// The state of a batch.
pub struct BatchState {
    /// The parameters of every run of the batch.
    pub parameters: ParameterValues,
    /// The inventory cap of every run of the batch: that of the parameters.
    pub cap: int,
    /// What happens on a numeric fault.
    pub policy: FaultPolicy,
    /// Terminal profit and loss of the runs recorded, in the order recorded.
    pub pnl: Seq<Binary64>,
    /// Number of runs left out after a numeric fault.
    pub skipped: nat,
    /// The batch failed.
    pub aborted: bool,
    /// The highest position held at any step of any run recorded.
    pub max_inventory: int,
    /// The lowest position held at any step of any run recorded.
    pub min_inventory: int,
    /// Final cash of the run recorded last.
    pub last_cash: Option<Binary64>,
    /// Final position of the run recorded last.
    pub last_inventory: Option<int>,
}

impl BatchState {
    /// A batch without runs.
    pub open spec fn empty(parameters: ParameterValues, policy: FaultPolicy) -> BatchState {
        BatchState {
            parameters,
            cap: parameters.inventory_cap as int,
            policy,
            pnl: Seq::<Binary64>::empty(),
            skipped: 0,
            aborted: false,
            max_inventory: 0,
            min_inventory: 0,
            last_cash: None,
            last_inventory: None,
        }
    }

    /// The batch takes the run: it has not failed, and the run was made under
    /// its cap.
    pub open spec fn accepts(self, run: RunRecord) -> bool {
        !self.aborted && run.cap == self.cap
    }

    /// The batch after a finished run was handed in.
    pub open spec fn record(self, run: RunRecord) -> BatchState {
        if self.accepts(run) {
            BatchState {
                pnl: self.pnl.push(run.pnl),
                max_inventory: if run.highest > self.max_inventory {
                    run.highest
                } else {
                    self.max_inventory
                },
                min_inventory: if run.lowest < self.min_inventory {
                    run.lowest
                } else {
                    self.min_inventory
                },
                last_cash: Some(run.cash),
                last_inventory: Some(run.inventory),
                ..self
            }
        } else {
            self
        }
    }

    /// The batch after a run ended in a numeric fault. The count of skipped
    /// runs stops at `limit`.
    pub open spec fn fault(self, limit: nat) -> BatchState {
        if self.aborted {
            self
        } else if self.policy == FaultPolicy::Skip {
            BatchState {
                skipped: if self.skipped < limit {
                    self.skipped + 1
                } else {
                    self.skipped
                },
                ..self
            }
        } else {
            BatchState { aborted: true, ..self }
        }
    }

    /// What holds of every batch.
    pub open spec fn valid(self) -> bool {
        &&& self.parameters.valid()
        &&& self.cap == self.parameters.inventory_cap
        &&& -self.cap <= self.min_inventory <= 0 <= self.max_inventory <= self.cap
        &&& forall|i: int| 0 <= i < self.pnl.len() ==> (#[trigger] self.pnl[i]).finite()
        &&& self.last_cash is Some <==> self.pnl.len() > 0
        &&& self.last_inventory is Some <==> self.pnl.len() > 0
        &&& self.last_cash matches Some(cash) ==> cash.finite()
        &&& self.last_inventory matches Some(inventory) ==> self.min_inventory <= inventory
            <= self.max_inventory
        &&& self.aborted ==> self.policy == FaultPolicy::Abort
    }
}

/// What survives a batch.
#[derive(Debug)]
pub struct BatchSummary {
    /// Terminal profit and loss of each run recorded.
    pub pnl: Vec<Binary64>,
    /// The highest position held at any step of any run recorded.
    pub max_inventory: i32,
    /// The lowest position held at any step of any run recorded.
    pub min_inventory: i32,
    /// Final cash of the run recorded last.
    pub final_cash: Option<Binary64>,
    /// Final position of the run recorded last.
    pub final_inventory: Option<i32>,
    /// Number of runs left out after a numeric fault.
    pub skipped: usize,
    /// The batch failed on a numeric fault.
    pub aborted: bool,
}

/// A batch in progress.
pub struct MonteCarloAggregator {
    params: SimulationParameters,
    cap: i32,
    policy: FaultPolicy,
    pnl: Vec<Binary64>,
    skipped: usize,
    aborted: bool,
    max_inventory: i32,
    min_inventory: i32,
    last: Option<(Binary64, i32)>,
}

impl View for MonteCarloAggregator {
    type V = BatchState;

    closed spec fn view(&self) -> BatchState {
        BatchState {
            parameters: self.params@,
            cap: self.cap as int,
            policy: self.policy,
            pnl: self.pnl@,
            skipped: self.skipped as nat,
            aborted: self.aborted,
            max_inventory: self.max_inventory as int,
            min_inventory: self.min_inventory as int,
            last_cash: match self.last {
                Some(pair) => Some(pair.0),
                None => None,
            },
            last_inventory: match self.last {
                Some(pair) => Some(pair.1 as int),
                None => None,
            },
        }
    }
}

impl MonteCarloAggregator {
    #[verifier::type_invariant]
    spec fn well_formed(self) -> bool {
        self@.valid()
    }

    /// A batch without runs.
    pub fn new(params: SimulationParameters, policy: FaultPolicy) -> (batch: MonteCarloAggregator)
        ensures
            batch@ == BatchState::empty(params@, policy),
    {
        let cap = params.values().inventory_cap;
        MonteCarloAggregator {
            params,
            cap,
            policy,
            pnl: Vec::new(),
            skipped: 0,
            aborted: false,
            max_inventory: 0,
            min_inventory: 0,
            last: None,
        }
    }

    /// A fresh run along `path` under the parameters of the batch, unless
    /// the batch failed.
    pub fn start_run(&self, path: PricePath, recording: bool) -> (run: Option<SimulationRunner>)
        ensures
            self@.aborted ==> run is None,
            !self@.aborted ==> run is Some && run->Some_0@ == RunState::initial(
                path@,
                self@.cap,
                self@.parameters.risk_aversion,
                recording,
            ),
    {
        proof {
            use_type_invariant(self);
        }
        if self.aborted {
            None
        } else {
            Some(SimulationRunner::new(&self.params, path, recording))
        }
    }

    /// Hands in a finished run. A batch that failed refuses it with
    /// `NumericFault`; a run made under another cap is refused with
    /// `InvalidParameter`. A refused run leaves the batch as it was.
    pub fn record(self, run: &RunResult) -> (next: (MonteCarloAggregator, Result<(), SimError>))
        ensures
            next.0@ == self@.record(run@),
            self@.aborted ==> next.1 == Err::<(), SimError>(SimError::NumericFault),
            !self@.aborted && run@.cap != self@.cap ==> next.1 == Err::<(), SimError>(
                SimError::InvalidParameter,
            ),
            self@.accepts(run@) ==> next.1 == Ok::<(), SimError>(()),
    {
        proof {
            use_type_invariant(&self);
        }
        if self.aborted {
            return (self, Err(SimError::NumericFault));
        }
        if run.inventory_cap() != self.cap {
            return (self, Err(SimError::InvalidParameter));
        }
        let ghost before = self@;
        let MonteCarloAggregator {
            params,
            cap,
            policy,
            pnl,
            skipped,
            aborted,
            max_inventory,
            min_inventory,
            last,
        } = self;
        let mut pnl = pnl;
        pnl.push(run.pnl());
        let inventory = run.inventory();
        let highest = run.highest_inventory();
        let lowest = run.lowest_inventory();
        let max_inventory = if highest > max_inventory {
            highest
        } else {
            max_inventory
        };
        let min_inventory = if lowest < min_inventory {
            lowest
        } else {
            min_inventory
        };
        let last = Some((run.cash(), inventory));
        proof {
            lemma_record_valid(before, run@);
            assert(pnl@ =~= before.record(run@).pnl);
        }
        let next = MonteCarloAggregator {
            params,
            cap,
            policy,
            pnl,
            skipped,
            aborted,
            max_inventory,
            min_inventory,
            last,
        };
        (next, Ok(()))
    }

    /// Reports that a run ended in a numeric fault. Under `Skip` the run is
    /// counted and the batch goes on; under `Abort`, and in a batch that
    /// failed before, the fault is handed back.
    pub fn fault(self) -> (next: (MonteCarloAggregator, Result<(), SimError>))
        ensures
            next.0@ == self@.fault(usize::MAX as nat),
            !self@.aborted && self@.policy == FaultPolicy::Skip ==> next.1 == Ok::<(), SimError>(
                (),
            ),
            self@.aborted || self@.policy == FaultPolicy::Abort ==> next.1 == Err::<(), SimError>(
                SimError::NumericFault,
            ),
    {
        proof {
            use_type_invariant(&self);
        }
        if self.aborted {
            return (self, Err(SimError::NumericFault));
        }
        let MonteCarloAggregator {
            params,
            cap,
            policy,
            pnl,
            skipped,
            aborted,
            max_inventory,
            min_inventory,
            last,
        } = self;
        match policy {
            FaultPolicy::Skip => {
                let skipped = if skipped < usize::MAX {
                    skipped + 1
                } else {
                    skipped
                };
                let next = MonteCarloAggregator {
                    params,
                    cap,
                    policy,
                    pnl,
                    skipped,
                    aborted,
                    max_inventory,
                    min_inventory,
                    last,
                };
                (next, Ok(()))
            },
            FaultPolicy::Abort => {
                let next = MonteCarloAggregator {
                    params,
                    cap,
                    policy,
                    pnl,
                    skipped,
                    aborted: true,
                    max_inventory,
                    min_inventory,
                    last,
                };
                (next, Err(SimError::NumericFault))
            },
        }
    }

    /// Number of runs recorded.
    pub fn recorded_runs(&self) -> (count: usize)
        ensures
            count == self@.pnl.len(),
    {
        self.pnl.len()
    }

    /// Number of runs left out after a numeric fault.
    pub fn skipped_runs(&self) -> (count: usize)
        ensures
            count == self@.skipped,
    {
        self.skipped
    }

    /// The highest position held at any step of any run recorded so far.
    pub fn max_inventory(&self) -> (highest: i32)
        ensures
            highest == self@.max_inventory,
            0 <= highest <= self@.cap,
    {
        proof {
            use_type_invariant(self);
        }
        self.max_inventory
    }

    /// The lowest position held at any step of any run recorded so far.
    pub fn min_inventory(&self) -> (lowest: i32)
        ensures
            lowest == self@.min_inventory,
            -self@.cap <= lowest <= 0,
    {
        proof {
            use_type_invariant(self);
        }
        self.min_inventory
    }

    /// The parameters of the batch.
    pub fn parameters(&self) -> (params: SimulationParameters)
        ensures
            params@ == self@.parameters,
    {
        self.params
    }

    /// The batch failed on a numeric fault.
    pub fn is_aborted(&self) -> (aborted: bool)
        ensures
            aborted == self@.aborted,
    {
        self.aborted
    }

    /// Closes the batch. Every profit and loss in the summary is finite, and
    /// the positions seen lie within the cap.
    pub fn finish(self) -> (summary: BatchSummary)
        ensures
            self@.valid(),
            summary.pnl@ == self@.pnl,
            forall|i: int| 0 <= i < summary.pnl@.len() ==> (#[trigger] summary.pnl@[i]).finite(),
            summary.max_inventory == self@.max_inventory,
            summary.min_inventory == self@.min_inventory,
            -self@.cap <= summary.min_inventory <= 0 <= summary.max_inventory <= self@.cap,
            summary.final_cash == self@.last_cash,
            summary.final_inventory is Some <==> self@.last_inventory is Some,
            summary.final_inventory matches Some(inventory) ==> self@.last_inventory == Some(
                inventory as int,
            ),
            summary.skipped == self@.skipped,
            summary.aborted == self@.aborted,
    {
        proof {
            use_type_invariant(&self);
        }
        let (final_cash, final_inventory) = match self.last {
            Some(pair) => (Some(pair.0), Some(pair.1)),
            None => (None, None),
        };
        BatchSummary {
            pnl: self.pnl,
            max_inventory: self.max_inventory,
            min_inventory: self.min_inventory,
            final_cash,
            final_inventory,
            skipped: self.skipped,
            aborted: self.aborted,
        }
    }
}

/// Recording the valid record of a run keeps a valid batch valid.
pub proof fn lemma_record_valid(batch: BatchState, run: RunRecord)
    requires
        batch.valid(),
        run.valid(),
    ensures
        batch.record(run).valid(),
{
    if batch.accepts(run) {
        let next = batch.record(run);
        assert forall|i: int| 0 <= i < next.pnl.len() implies (#[trigger] next.pnl[i]).finite() by {
            if i < batch.pnl.len() {
                assert(next.pnl[i] == batch.pnl[i]);
            }
        }
    }
}

/// A run that the batch takes widens the range of positions seen just
/// enough to hold its own: the range covers the run, never shrinks, and its
/// new ends are old ends or ends of the run.
pub proof fn lemma_record_widens(batch: BatchState, run: RunRecord)
    requires
        batch.accepts(run),
    ensures
        ({
            let next = batch.record(run);
            &&& next.min_inventory <= run.lowest
            &&& run.highest <= next.max_inventory
            &&& next.min_inventory <= batch.min_inventory
            &&& batch.max_inventory <= next.max_inventory
            &&& next.min_inventory == batch.min_inventory || next.min_inventory == run.lowest
            &&& next.max_inventory == batch.max_inventory || next.max_inventory == run.highest
            &&& next.pnl.len() == batch.pnl.len() + 1
            &&& next.pnl.last() == run.pnl
        }),
{
}

/// The order in which two runs are recorded does not matter to what the
/// batch reports of all runs: the range of positions, the profits and losses
/// as a collection, and the counts. Only the figures of the run recorded
/// last depend on it.
pub proof fn lemma_record_commutes(batch: BatchState, first: RunRecord, second: RunRecord)
    ensures
        ({
            let one = batch.record(first).record(second);
            let other = batch.record(second).record(first);
            &&& one.max_inventory == other.max_inventory
            &&& one.min_inventory == other.min_inventory
            &&& one.pnl.to_multiset() == other.pnl.to_multiset()
            &&& one.pnl.len() == other.pnl.len()
            &&& one.skipped == other.skipped
            &&& one.aborted == other.aborted
            &&& one.cap == other.cap
            &&& one.parameters == other.parameters
            &&& one.policy == other.policy
        }),
{
    broadcast use vstd::seq_lib::group_to_multiset_ensures;

    let one = batch.record(first).record(second);
    let other = batch.record(second).record(first);
    assert(one.pnl.to_multiset() =~= other.pnl.to_multiset());
}

} // verus!
