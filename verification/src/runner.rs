//! One simulated run as a state machine over the step index.
//!
//! A run walks along its mid-price path. Before step `i` it shows the
//! mid-price `path[i]`, the inventory and the cash held; the caller quotes
//! on them, draws the two arrivals and hands to the step the quotes, the
//! draws and the cash as it stands once the draws are settled. The step
//! settles the draws on the ledger and moves on. After the last step the run
//! is terminal and is closed. A run starts with no position and no cash. A
//! run that records keeps, for the start and for each step, the quotes, the
//! cash and the inventory, beside the mid-price path.

use vstd::prelude::*;
use crate::binary64::Binary64;
use crate::error::SimError;
use crate::ledger::{AgentState, CashFigures, FillDecision, Settlement, settled, settled_cash,
    settlement, within_cap, lemma_settled_within_cap};
use crate::path::lemma_push_keeps_finite;
use crate::params::SimulationParameters;
use crate::path::{PricePath, all_finite};
use crate::quoting::QuoteSet;

verus! {

/// What the caller hands to one step.
#[derive(Clone, Copy, Debug, PartialEq, Eq, Structural)]
pub struct StepInput {
    /// The quotes made on the mid-price and the inventory before the step.
    pub quotes: QuoteSet,
    /// The two arrival draws.
    pub decision: FillDecision,
    /// The cash as it stands after the step, for each way the draws can be
    /// settled at the quotes.
    pub figures: CashFigures,
}

/// Every quote set is finite.
pub open spec fn all_quotes_finite(quotes: Seq<QuoteSet>) -> bool {
    forall|i: int| 0 <= i < quotes.len() ==> (#[trigger] quotes[i]).finite()
}

/// `lowest` is the least and `highest` the greatest of the recorded
/// positions.
pub open spec fn trail_spans(trail: Seq<int>, lowest: int, highest: int) -> bool {
    &&& forall|i: int| 0 <= i < trail.len() ==> lowest <= #[trigger] trail[i] <= highest
    &&& exists|i: int| 0 <= i < trail.len() && #[trigger] trail[i] == lowest
    &&& exists|i: int| 0 <= i < trail.len() && #[trigger] trail[i] == highest
}

/// From one step to the next the position moves by one unit at most.
pub open spec fn trail_is_gradual(trail: Seq<int>) -> bool {
    forall|i: int| 0 < i < trail.len() ==> -1 <= #[trigger] trail[i] - trail[i - 1] <= 1
}

/// The state of a run.
pub struct RunState {
    /// The mid-price path: the initial price and one price per step.
    pub path: Seq<Binary64>,
    /// The inventory cap of the run.
    pub cap: int,
    /// Whether the run records its series.
    pub recording: bool,
    /// Number of steps taken so far.
    pub index: nat,
    /// The position held now.
    pub inventory: int,
    /// The cash held now.
    pub cash_held: Binary64,
    /// The risk aversion of the agent.
    pub risk_aversion: Binary64,
    /// The lowest position held so far.
    pub lowest: int,
    /// The highest position held so far.
    pub highest: int,
    /// The position at the start and after each step taken; empty when the
    /// run does not record.
    pub trail: Seq<int>,
    /// The quotes of each step taken; empty when the run does not record.
    pub quotes: Seq<QuoteSet>,
    /// The cash at the start and after each step taken; empty when the run
    /// does not record.
    pub cash: Seq<Binary64>,
}

impl RunState {
    /// The state before the first step: no position, no cash.
    pub open spec fn initial(
        path: Seq<Binary64>,
        cap: int,
        risk_aversion: Binary64,
        recording: bool,
    ) -> RunState {
        RunState {
            path,
            cap,
            recording,
            index: 0,
            inventory: 0,
            cash_held: Binary64 { bits: 0 },
            risk_aversion,
            lowest: 0,
            highest: 0,
            trail: if recording {
                seq![0int]
            } else {
                Seq::<int>::empty()
            },
            quotes: Seq::<QuoteSet>::empty(),
            cash: if recording {
                seq![Binary64 { bits: 0 }]
            } else {
                Seq::<Binary64>::empty()
            },
        }
    }

    /// Number of steps of the run.
    pub open spec fn steps(self) -> int {
        self.path.len() - 1
    }

    /// All steps were taken.
    pub open spec fn terminal(self) -> bool {
        self.index >= self.steps()
    }

    /// The cash legs that a step settles.
    pub open spec fn legs(self, input: StepInput) -> Settlement {
        settlement(self.inventory, input.decision, input.quotes.bid, input.quotes.ask, self.cap)
    }

    /// The cash after a step: the figure handed in for the legs that the
    /// step settles; the cash held if it settles none.
    pub open spec fn cash_after(self, input: StepInput) -> Binary64 {
        settled_cash(self.cash_held, self.legs(input), input.figures)
    }

    /// The step takes the input: its quotes are finite, and so is the cash
    /// after it.
    pub open spec fn takes(self, input: StepInput) -> bool {
        input.quotes.finite() && self.cash_after(input).finite()
    }

    /// The state after one more step. A terminal state stays as it is.
    pub open spec fn advance(self, input: StepInput) -> RunState {
        if self.terminal() {
            self
        } else {
            let inventory = settled(self.inventory, input.decision, self.cap);
            let cash = self.cash_after(input);
            RunState {
                index: self.index + 1,
                inventory,
                cash_held: cash,
                lowest: if inventory < self.lowest {
                    inventory
                } else {
                    self.lowest
                },
                highest: if inventory > self.highest {
                    inventory
                } else {
                    self.highest
                },
                trail: if self.recording {
                    self.trail.push(inventory)
                } else {
                    self.trail
                },
                quotes: if self.recording {
                    self.quotes.push(input.quotes)
                } else {
                    self.quotes
                },
                cash: if self.recording {
                    self.cash.push(cash)
                } else {
                    self.cash
                },
                ..self
            }
        }
    }

    /// The state after a sequence of steps, the first input first.
    pub open spec fn replay(self, inputs: Seq<StepInput>) -> RunState
        decreases inputs.len(),
    {
        if inputs.len() == 0 {
            self
        } else {
            self.replay(inputs.drop_last()).advance(inputs.last())
        }
    }

    /// What holds of every state that a run can reach.
    pub open spec fn valid(self) -> bool {
        &&& self.cap > 0
        &&& self.path.len() > 0
        &&& all_finite(self.path)
        &&& self.index <= self.steps()
        &&& -self.cap <= self.lowest <= self.inventory <= self.highest <= self.cap
        &&& self.lowest <= 0 <= self.highest
        &&& self.cash_held.finite()
        &&& self.index == 0 ==> self.inventory == 0 && self.cash_held == (Binary64 { bits: 0 })
        &&& all_quotes_finite(self.quotes)
        &&& all_finite(self.cash)
        &&& self.recording ==> {
            &&& self.trail.len() == self.index + 1
            &&& self.quotes.len() == self.index
            &&& self.cash.len() == self.index + 1
            &&& self.cash[0] == (Binary64 { bits: 0 })
            &&& self.cash[self.index as int] == self.cash_held
            &&& self.trail[0] == 0
            &&& self.trail[self.index as int] == self.inventory
            &&& trail_spans(self.trail, self.lowest, self.highest)
            &&& trail_is_gradual(self.trail)
        }
        &&& !self.recording ==> self.trail.len() == 0 && self.quotes.len() == 0 && self.cash.len()
            == 0
    }
}

/// What a finished run leaves behind.
pub struct RunRecord {
    /// Cash at the end of the run.
    pub cash: Binary64,
    /// Position at the end of the run.
    pub inventory: int,
    /// Terminal profit and loss, as the caller computed it. It is meant to
    /// be the cash plus the position marked at the final mid-price; of the
    /// figure itself only this is known: that it is finite.
    pub pnl: Binary64,
    /// The risk aversion of the agent.
    pub risk_aversion: Binary64,
    /// The lowest position held during the run.
    pub lowest: int,
    /// The highest position held during the run.
    pub highest: int,
    /// The inventory cap of the run.
    pub cap: int,
    /// The mid-price path of the run.
    pub prices: Seq<Binary64>,
    /// Whether the run recorded its series.
    pub recorded: bool,
    /// The position at the start and after each step.
    pub trail: Seq<int>,
    /// The quotes of each step, and those at the end of the run.
    pub quotes: Seq<QuoteSet>,
    /// The cash at the start and after each step.
    pub cash_trail: Seq<Binary64>,
}

impl RunRecord {
    /// Mid-price at the end of the run.
    pub open spec fn mid_price(self) -> Binary64 {
        self.prices.last()
    }

    /// What holds of the record of every finished run. A run without steps
    /// ends as it started, with no position and no cash. The series of a run
    /// that recorded are as long as its mid-price path and start with no
    /// position and no cash; those of a run that did not are empty.
    pub open spec fn valid(self) -> bool {
        &&& self.cash.finite()
        &&& self.pnl.finite()
        &&& self.prices.len() > 0
        &&& all_finite(self.prices)
        &&& -self.cap <= self.lowest <= self.inventory <= self.highest <= self.cap
        &&& self.lowest <= 0 <= self.highest
        &&& self.prices.len() == 1 ==> self.inventory == 0 && self.cash == (Binary64 { bits: 0 })
        &&& all_quotes_finite(self.quotes)
        &&& all_finite(self.cash_trail)
        &&& self.recorded ==> {
            &&& self.trail.len() == self.prices.len()
            &&& self.quotes.len() == self.prices.len()
            &&& self.cash_trail.len() == self.prices.len()
            &&& self.trail[0] == 0
            &&& self.cash_trail[0] == (Binary64 { bits: 0 })
            &&& self.trail.last() == self.inventory
            &&& self.cash_trail.last() == self.cash
            &&& trail_spans(self.trail, self.lowest, self.highest)
            &&& trail_is_gradual(self.trail)
        }
        &&& !self.recorded ==> self.trail.len() == 0 && self.quotes.len() == 0
            && self.cash_trail.len() == 0
    }
}

/// The record that closes `state` with the quotes at the end of the run and
/// the terminal profit and loss.
pub open spec fn closed_record(state: RunState, closing: QuoteSet, pnl: Binary64) -> RunRecord {
    RunRecord {
        cash: state.cash_held,
        inventory: state.inventory,
        pnl,
        risk_aversion: state.risk_aversion,
        lowest: state.lowest,
        highest: state.highest,
        cap: state.cap,
        prices: state.path,
        recorded: state.recording,
        trail: state.trail,
        quotes: if state.recording {
            state.quotes.push(closing)
        } else {
            state.quotes
        },
        cash_trail: state.cash,
    }
}

/// The result of a finished run.
#[derive(Debug)]
pub struct RunResult {
    agent: AgentState,
    pnl: Binary64,
    lowest: i32,
    highest: i32,
    cap: i32,
    path: PricePath,
    recorded: bool,
    trail: Vec<i32>,
    quotes: Vec<QuoteSet>,
    cash_trail: Vec<Binary64>,
}

impl View for RunResult {
    type V = RunRecord;

    closed spec fn view(&self) -> RunRecord {
        RunRecord {
            cash: self.agent@.cash,
            inventory: self.agent@.inventory,
            pnl: self.pnl,
            risk_aversion: self.agent@.risk_aversion,
            lowest: self.lowest as int,
            highest: self.highest as int,
            cap: self.cap as int,
            prices: self.path@,
            recorded: self.recorded,
            trail: self.trail@.map_values(|v: i32| v as int),
            quotes: self.quotes@,
            cash_trail: self.cash_trail@,
        }
    }
}

impl RunResult {
    #[verifier::type_invariant]
    spec fn well_formed(self) -> bool {
        self@.valid()
    }

    /// Cash at the end of the run: a finite value.
    pub fn cash(&self) -> (cash: Binary64)
        ensures
            cash == self@.cash,
            cash.finite(),
    {
        proof {
            use_type_invariant(self);
        }
        self.agent.cash()
    }

    /// Position at the end of the run, within the cap.
    pub fn inventory(&self) -> (inventory: i32)
        ensures
            inventory == self@.inventory,
            within_cap(inventory as int, self@.cap),
            self@.valid(),
    {
        proof {
            use_type_invariant(self);
        }
        self.agent.inventory()
    }

    /// Mid-price at the end of the run: a finite value.
    pub fn mid_price(&self) -> (mid_price: Binary64)
        ensures
            mid_price == self@.mid_price(),
            mid_price.finite(),
    {
        proof {
            use_type_invariant(self);
        }
        let len = self.path.len();
        self.path.price(len - 1)
    }

    /// Terminal profit and loss, as the caller computed it: a finite value.
    pub fn pnl(&self) -> (pnl: Binary64)
        ensures
            pnl == self@.pnl,
            pnl.finite(),
    {
        proof {
            use_type_invariant(self);
        }
        self.pnl
    }

    /// The lowest position held during the run: at most zero, at least minus
    /// the cap.
    pub fn lowest_inventory(&self) -> (lowest: i32)
        ensures
            lowest == self@.lowest,
            -self@.cap <= lowest <= 0,
    {
        proof {
            use_type_invariant(self);
        }
        self.lowest
    }

    /// The highest position held during the run: at least zero, at most the
    /// cap.
    pub fn highest_inventory(&self) -> (highest: i32)
        ensures
            highest == self@.highest,
            0 <= highest <= self@.cap,
    {
        proof {
            use_type_invariant(self);
        }
        self.highest
    }

    /// The inventory cap under which the run was made.
    pub fn inventory_cap(&self) -> (cap: i32)
        ensures
            cap == self@.cap,
    {
        self.cap
    }

    /// The risk aversion of the agent.
    pub fn risk_aversion(&self) -> (risk_aversion: Binary64)
        ensures
            risk_aversion == self@.risk_aversion,
    {
        self.agent.risk_aversion()
    }

    /// Whether the run recorded its series.
    pub fn is_recorded(&self) -> (recorded: bool)
        ensures
            recorded == self@.recorded,
    {
        self.recorded
    }

    /// The mid-price path of the run: one price more than the run had steps.
    pub fn mid_price_path(&self) -> (prices: &Vec<Binary64>)
        ensures
            prices@ == self@.prices,
            prices@.len() > 0,
    {
        proof {
            use_type_invariant(self);
        }
        self.path.values()
    }

    /// The recorded positions: as many as the path has prices, the first of
    /// them zero, each within the cap; none if the run did not record.
    pub fn inventory_path(&self) -> (path: &Vec<i32>)
        ensures
            path@.map_values(|v: i32| v as int) == self@.trail,
            self@.recorded ==> path@.len() == self@.prices.len() && path@[0] == 0,
            !self@.recorded ==> path@.len() == 0,
            forall|i: int| 0 <= i < path@.len() ==> within_cap(#[trigger] path@[i] as int, self@.cap),
    {
        proof {
            use_type_invariant(self);
            lemma_positions_within_cap(
                self.trail@,
                self@.trail,
                self@.lowest,
                self@.highest,
                self@.cap,
            );
        }
        &self.trail
    }

    /// The recorded quotes: as many as the path has prices, the last of them
    /// those at the end of the run; none if the run did not record.
    pub fn quote_path(&self) -> (quotes: &Vec<QuoteSet>)
        ensures
            quotes@ == self@.quotes,
            self@.recorded ==> quotes@.len() == self@.prices.len(),
            !self@.recorded ==> quotes@.len() == 0,
            all_quotes_finite(quotes@),
    {
        proof {
            use_type_invariant(self);
        }
        &self.quotes
    }

    /// The recorded cash: as many values as the path has prices, the first
    /// of them zero, the last of them the cash at the end of the run; none if
    /// the run did not record.
    pub fn cash_path(&self) -> (cash: &Vec<Binary64>)
        ensures
            cash@ == self@.cash_trail,
            self@.recorded ==> cash@.len() == self@.prices.len() && cash@[0] == (Binary64 {
                bits: 0,
            }) && cash@[0].zero_valued() && cash@.last() == self@.cash,
            !self@.recorded ==> cash@.len() == 0,
            all_finite(cash@),
    {
        proof {
            use_type_invariant(self);
        }
        &self.cash_trail
    }
}

/// A run in progress.
pub struct SimulationRunner {
    path: PricePath,
    cap: i32,
    recording: bool,
    index: usize,
    agent: AgentState,
    lowest: i32,
    highest: i32,
    trail: Vec<i32>,
    quotes: Vec<QuoteSet>,
    cash: Vec<Binary64>,
}

impl View for SimulationRunner {
    type V = RunState;

    closed spec fn view(&self) -> RunState {
        RunState {
            path: self.path@,
            cap: self.cap as int,
            recording: self.recording,
            index: self.index as nat,
            inventory: self.agent@.inventory,
            cash_held: self.agent@.cash,
            risk_aversion: self.agent@.risk_aversion,
            lowest: self.lowest as int,
            highest: self.highest as int,
            trail: self.trail@.map_values(|v: i32| v as int),
            quotes: self.quotes@,
            cash: self.cash@,
        }
    }
}

impl SimulationRunner {
    #[verifier::type_invariant]
    spec fn well_formed(self) -> bool {
        self@.valid()
    }

    /// A fresh run along `path` under the cap of `params`, for an agent of
    /// their risk aversion: no position, no cash, no step taken.
    pub fn new(params: &SimulationParameters, path: PricePath, recording: bool) -> (run:
        SimulationRunner)
        ensures
            run@ == RunState::initial(
                path@,
                params@.inventory_cap as int,
                params@.risk_aversion,
                recording,
            ),
            run@.valid(),
    {
        let cap = params.inventory_cap();
        let risk_aversion = params.values().risk_aversion;
        let len = path.len();
        let mut trail: Vec<i32> = Vec::new();
        let mut quotes: Vec<QuoteSet> = Vec::new();
        let mut cash: Vec<Binary64> = Vec::new();
        if recording {
            trail = Vec::with_capacity(len);
            quotes = Vec::with_capacity(len);
            cash = Vec::with_capacity(len);
            trail.push(0);
            cash.push(Binary64::zero());
        }
        proof {
            assert(trail@.map_values(|v: i32| v as int) =~= RunState::initial(
                path@,
                cap as int,
                risk_aversion,
                recording,
            ).trail);
            assert(cash@ =~= RunState::initial(path@, cap as int, risk_aversion, recording).cash);
            lemma_initial_valid(path@, cap as int, risk_aversion, recording);
        }
        SimulationRunner {
            path,
            cap,
            recording,
            index: 0,
            agent: AgentState::new(risk_aversion),
            lowest: 0,
            highest: 0,
            trail,
            quotes,
            cash,
        }
    }

    /// All steps were taken.
    pub fn is_terminal(&self) -> (terminal: bool)
        ensures
            terminal == self@.terminal(),
            terminal == (self@.index == self@.steps()),
    {
        proof {
            use_type_invariant(self);
        }
        self.index >= self.path.steps()
    }

    /// The risk aversion of the agent.
    pub fn risk_aversion(&self) -> (risk_aversion: Binary64)
        ensures
            risk_aversion == self@.risk_aversion,
    {
        self.agent.risk_aversion()
    }

    /// Whether the run records its series.
    pub fn is_recording(&self) -> (recording: bool)
        ensures
            recording == self@.recording,
    {
        self.recording
    }

    /// Number of steps of the run.
    pub fn steps(&self) -> (steps: usize)
        ensures
            steps == self@.steps(),
    {
        self.path.steps()
    }

    /// Number of steps taken so far.
    pub fn index(&self) -> (index: usize)
        ensures
            index == self@.index,
            index <= self@.steps(),
    {
        proof {
            use_type_invariant(self);
        }
        self.index
    }

    /// The mid-price to quote on in the next step; in a terminal run, the
    /// final mid-price.
    pub fn mid_price(&self) -> (mid_price: Binary64)
        ensures
            self@.index < self@.path.len(),
            mid_price == self@.path[self@.index as int],
            mid_price.finite(),
    {
        proof {
            use_type_invariant(self);
        }
        self.path.price(self.index)
    }

    /// The position held now: it is within the cap at every step of every
    /// run.
    pub fn inventory(&self) -> (inventory: i32)
        ensures
            inventory == self@.inventory,
            within_cap(inventory as int, self@.cap),
            self@.valid(),
    {
        proof {
            use_type_invariant(self);
        }
        self.agent.inventory()
    }

    /// The inventory cap of the run: a positive number.
    pub fn inventory_cap(&self) -> (cap: i32)
        ensures
            cap == self@.cap,
            cap > 0,
    {
        proof {
            use_type_invariant(self);
        }
        self.cap
    }

    /// The lowest position held so far.
    pub fn lowest_inventory(&self) -> (lowest: i32)
        ensures
            lowest == self@.lowest,
            -self@.cap <= lowest <= 0,
    {
        proof {
            use_type_invariant(self);
        }
        self.lowest
    }

    /// The highest position held so far.
    pub fn highest_inventory(&self) -> (highest: i32)
        ensures
            highest == self@.highest,
            0 <= highest <= self@.cap,
    {
        proof {
            use_type_invariant(self);
        }
        self.highest
    }

    /// The recorded positions: with recording on, one for the start and one
    /// for each step taken, each within the cap; otherwise none.
    pub fn inventory_path(&self) -> (path: &Vec<i32>)
        ensures
            path@.map_values(|v: i32| v as int) == self@.trail,
            self@.recording ==> path@.len() == self@.index + 1,
            !self@.recording ==> path@.len() == 0,
            forall|i: int| 0 <= i < path@.len() ==> within_cap(#[trigger] path@[i] as int, self@.cap),
    {
        proof {
            use_type_invariant(self);
            lemma_positions_within_cap(
                self.trail@,
                self@.trail,
                self@.lowest,
                self@.highest,
                self@.cap,
            );
        }
        &self.trail
    }

    /// The cash held now: zero before the first step, then what the fills
    /// taken have left.
    pub fn cash(&self) -> (cash: Binary64)
        ensures
            cash == self@.cash_held,
            cash.finite(),
            self@.index == 0 ==> cash == (Binary64 { bits: 0 }) && cash.zero_valued(),
    {
        proof {
            use_type_invariant(self);
            lemma_zero_pattern();
        }
        self.agent.cash()
    }

    /// Takes one step. The quotes were made on the mid-price and the
    /// inventory that the run showed, and the cash figures on the cash that
    /// it showed. The draws are settled at the quotes on the ledger: the
    /// position moves by the legs taken, the cash becomes the figure for
    /// those legs, and the legs come back with the next state. Quotes with a
    /// value that is NaN or infinite, and a cash after the step that is NaN or
    /// infinite, are a numeric fault and end the run.
    pub fn step(self, input: StepInput) -> (r: Result<(SimulationRunner, Settlement), SimError>)
        requires
            !self@.terminal(),
        ensures
            self@.takes(input) ==> r is Ok && r->Ok_0.0@ == self@.advance(input) && r->Ok_0.1
                == self@.legs(input),
            !self@.takes(input) ==> r is Err && r->Err_0 == SimError::NumericFault,
    {
        proof {
            use_type_invariant(&self);
        }
        if !input.quotes.is_finite() {
            return Err(SimError::NumericFault);
        }
        let ghost before = self@;
        proof {
            self.path.lemma_length_fits();
        }
        let SimulationRunner {
            path,
            cap,
            recording,
            index,
            agent,
            lowest,
            highest,
            trail,
            quotes,
            cash,
        } = self;
        let mut agent = agent;
        let mut trail = trail;
        let mut quotes = quotes;
        let mut cash = cash;
        let legs = match agent.apply(
            input.decision,
            input.quotes.bid,
            input.quotes.ask,
            input.figures,
            cap,
        ) {
            Ok(legs) => legs,
            Err(fault) => {
                return Err(fault);
            },
        };
        let inventory = agent.inventory();
        let lowest = if inventory < lowest {
            inventory
        } else {
            lowest
        };
        let highest = if inventory > highest {
            inventory
        } else {
            highest
        };
        if recording {
            trail.push(inventory);
            quotes.push(input.quotes);
            cash.push(agent.cash());
        }
        proof {
            lemma_advance_valid(before, input);
            assert(trail@.map_values(|v: i32| v as int) =~= before.advance(input).trail);
        }
        let next = SimulationRunner {
            path,
            cap,
            recording,
            index: index + 1,
            agent,
            lowest,
            highest,
            trail,
            quotes,
            cash,
        };
        Ok((next, legs))
    }

    /// Closes a terminal run with the position and the cash that the ledger
    /// holds. The caller hands in the quotes at the end of the run and the
    /// terminal profit and loss that it computed from the cash, the position
    /// and the final mid-price. If one of them is NaN or infinite, that is a
    /// numeric fault of the run. Of the profit and loss nothing else is
    /// asked: the figure is the caller's.
    pub fn finish(self, closing: QuoteSet, pnl: Binary64) -> (r: Result<RunResult, SimError>)
        requires
            self@.terminal(),
        ensures
            closing.finite() && pnl.finite() ==> r is Ok && r->Ok_0@ == closed_record(
                self@,
                closing,
                pnl,
            ) && r->Ok_0@.valid(),
            !(closing.finite() && pnl.finite()) ==> r is Err && r->Err_0
                == SimError::NumericFault,
    {
        proof {
            use_type_invariant(&self);
        }
        if !closing.is_finite() || !pnl.is_finite() {
            return Err(SimError::NumericFault);
        }
        let ghost before = self@;
        let SimulationRunner {
            path,
            cap,
            recording,
            index: _,
            agent,
            lowest,
            highest,
            trail,
            quotes,
            cash: cash_trail,
        } = self;
        let mut quotes = quotes;
        if recording {
            quotes.push(closing);
        }
        proof {
            lemma_closed_record_valid(before, closing, pnl);
            assert(quotes@ =~= closed_record(before, closing, pnl).quotes);
        }
        Ok(
            RunResult {
                agent,
                pnl,
                lowest,
                highest,
                cap,
                path,
                recorded: recording,
                trail,
                quotes,
                cash_trail,
            },
        )
    }
}

/// The zero pattern is finite and has the value zero.
pub proof fn lemma_zero_pattern()
    ensures
        (Binary64 { bits: 0 }).finite(),
        (Binary64 { bits: 0 }).zero_valued(),
{
    let zero = Binary64 { bits: 0 };
    assert(zero.exponent() == 0 && zero.fraction() == 0);
}

/// Recorded positions between `lowest` and `highest`, themselves within the
/// cap, are within the cap.
pub proof fn lemma_positions_within_cap(
    positions: Seq<i32>,
    trail: Seq<int>,
    lowest: int,
    highest: int,
    cap: int,
)
    requires
        trail == positions.map_values(|v: i32| v as int),
        -cap <= lowest,
        highest <= cap,
        forall|i: int| 0 <= i < trail.len() ==> lowest <= #[trigger] trail[i] <= highest,
    ensures
        forall|i: int| 0 <= i < positions.len() ==> within_cap(#[trigger] positions[i] as int, cap),
{
    assert forall|i: int| 0 <= i < positions.len() implies within_cap(
        #[trigger] positions[i] as int,
        cap,
    ) by {
        assert(trail[i] == positions[i] as int);
    }
}

/// Finite quotes stay finite when finite quotes are added.
pub proof fn lemma_push_keeps_quotes_finite(quotes: Seq<QuoteSet>, next: QuoteSet)
    requires
        all_quotes_finite(quotes),
        next.finite(),
    ensures
        all_quotes_finite(quotes.push(next)),
{
    assert forall|i: int| 0 <= i < quotes.push(next).len() implies (#[trigger] quotes.push(
        next,
    )[i]).finite() by {
        if i < quotes.len() {
            assert(quotes.push(next)[i] == quotes[i]);
        }
    }
}

/// A run starts in a valid state.
pub proof fn lemma_initial_valid(
    path: Seq<Binary64>,
    cap: int,
    risk_aversion: Binary64,
    recording: bool,
)
    requires
        cap > 0,
        path.len() > 0,
        all_finite(path),
    ensures
        RunState::initial(path, cap, risk_aversion, recording).valid(),
{
    let start = RunState::initial(path, cap, risk_aversion, recording);
    lemma_zero_pattern();
    if recording {
        assert(start.trail[0] == 0);
        assert(start.cash[0] == Binary64 { bits: 0 });
    }
}

/// A step that takes its input keeps a valid state valid.
pub proof fn lemma_advance_valid(state: RunState, input: StepInput)
    requires
        state.valid(),
        state.terminal() || state.takes(input),
    ensures
        state.advance(input).valid(),
{
    lemma_settled_within_cap(state.inventory, input.decision, state.cap);
    let next = state.advance(input);
    if state.recording && !state.terminal() {
        let low = choose|i: int|
            0 <= i < state.trail.len() && #[trigger] state.trail[i] == state.lowest;
        let high = choose|i: int|
            0 <= i < state.trail.len() && #[trigger] state.trail[i] == state.highest;
        let end = state.trail.len() as int;
        assert(next.trail[end] == next.inventory);
        assert(next.trail[low] == state.lowest);
        assert(next.trail[high] == state.highest);
        assert forall|i: int| 0 < i < next.trail.len() implies -1 <= #[trigger] next.trail[i]
            - next.trail[i - 1] <= 1 by {
            if i < end {
                assert(next.trail[i] == state.trail[i]);
                assert(next.trail[i - 1] == state.trail[i - 1]);
            } else {
                assert(next.trail[i - 1] == state.trail[end - 1]);
            }
        }
        assert forall|i: int| 0 <= i < next.trail.len() implies next.lowest
            <= #[trigger] next.trail[i] <= next.highest by {
            if i < end {
                assert(next.trail[i] == state.trail[i]);
            }
        }
        lemma_push_keeps_quotes_finite(state.quotes, input.quotes);
        lemma_push_keeps_finite(state.cash, next.cash_held);
        assert(next.cash[0] == state.cash[0]);
        assert(next.cash[end] == next.cash_held);
    }
}

/// A step that takes no fill leaves the cash as it was, whatever figures
/// were handed in; a step that takes a fill leaves the figure handed in for
/// exactly the legs taken.
pub proof fn lemma_cash_moves_with_fills(state: RunState, input: StepInput)
    requires
        !state.terminal(),
    ensures
        ({
            let legs = state.legs(input);
            let next = state.advance(input);
            &&& legs.bought_at is None && legs.sold_at is None ==> next.cash_held
                == state.cash_held && next.inventory == state.inventory
            &&& legs.bought_at is Some && legs.sold_at is None ==> next.cash_held
                == input.figures.bought && next.inventory == state.inventory + 1
            &&& legs.bought_at is None && legs.sold_at is Some ==> next.cash_held
                == input.figures.sold && next.inventory == state.inventory - 1
            &&& legs.bought_at is Some && legs.sold_at is Some ==> next.cash_held
                == input.figures.both && next.inventory == state.inventory
        }),
{
}

/// Closing a valid terminal state with finite values gives a valid record:
/// the series of a run that recorded are then as long as its mid-price path,
/// and the first position and the first cash on record are zero.
pub proof fn lemma_closed_record_valid(state: RunState, closing: QuoteSet, pnl: Binary64)
    requires
        state.valid(),
        state.terminal(),
        closing.finite(),
        pnl.finite(),
    ensures
        closed_record(state, closing, pnl).valid(),
{
    if state.recording {
        lemma_push_keeps_quotes_finite(state.quotes, closing);
    }
}

/// Each input is taken by the state that the inputs before it lead to.
pub open spec fn inputs_taken(start: RunState, inputs: Seq<StepInput>) -> bool
    decreases inputs.len(),
{
    if inputs.len() == 0 {
        true
    } else {
        let before = start.replay(inputs.drop_last());
        inputs_taken(start, inputs.drop_last()) && (before.terminal() || before.takes(
            inputs.last(),
        ))
    }
}

/// Replaying inputs that are taken from a valid state gives a valid state:
/// at every step of every run the position is within the cap and the cash is
/// finite. The run has then taken as many steps as inputs were handed in,
/// but no more than it has.
pub proof fn lemma_replay_valid(start: RunState, inputs: Seq<StepInput>)
    requires
        start.valid(),
        inputs_taken(start, inputs),
    ensures
        start.replay(inputs).valid(),
        within_cap(start.replay(inputs).inventory, start.cap),
        start.replay(inputs).path == start.path,
        start.replay(inputs).cap == start.cap,
        start.replay(inputs).recording == start.recording,
        start.replay(inputs).index == if start.index + inputs.len() <= start.steps() {
            start.index + inputs.len()
        } else {
            start.steps() as nat
        },
    decreases inputs.len(),
{
    if inputs.len() > 0 {
        let before = inputs.drop_last();
        lemma_replay_valid(start, before);
        lemma_advance_valid(start.replay(before), inputs.last());
    }
}

/// A recording run that was handed one input for each of its steps, each
/// of them taken, is terminal and has recorded as many positions and as many
/// cash figures as its path has prices: the first position and the first
/// cash zero, each position within the cap and next to or equal to the one
/// before it.
pub proof fn lemma_full_run_trail(
    path: Seq<Binary64>,
    cap: int,
    risk_aversion: Binary64,
    inputs: Seq<StepInput>,
)
    requires
        cap > 0,
        path.len() > 0,
        all_finite(path),
        inputs_taken(RunState::initial(path, cap, risk_aversion, true), inputs),
        inputs.len() == path.len() - 1,
    ensures
        ({
            let end = RunState::initial(path, cap, risk_aversion, true).replay(inputs);
            &&& end.terminal()
            &&& end.trail.len() == path.len()
            &&& end.trail[0] == 0
            &&& end.cash.len() == path.len()
            &&& end.cash[0] == (Binary64 { bits: 0 })
            &&& forall|i: int| 0 <= i < path.len() ==> within_cap(#[trigger] end.trail[i], cap)
            &&& trail_is_gradual(end.trail)
        }),
{
    lemma_initial_valid(path, cap, risk_aversion, true);
    lemma_replay_valid(RunState::initial(path, cap, risk_aversion, true), inputs);
}

} // verus!
