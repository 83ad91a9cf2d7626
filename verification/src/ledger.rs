//! The inventory ledger and its hard position limit.
//!
//! The ledger holds the signed position and the cash. A fill that would
//! carry the position beyond the cap, on either side, is dropped whole: no
//! error, no retry, no partial fill, position and cash as they were. A fill
//! that is taken moves the position by one unit and the cash by the price:
//! down by the bid for a unit bought, up by the ask for a unit sold. The sum
//! is the caller's arithmetic: with each offer it hands in the cash as it
//! stands once the offer is settled, and the ledger stores that figure if,
//! and only if, it takes the fill.

use vstd::prelude::*;
use crate::binary64::Binary64;
use crate::error::SimError;

verus! {

/// What the two arrival draws of one step offer.
#[derive(Clone, Copy, Debug, PartialEq, Eq, Structural)]
pub struct FillDecision {
    /// A market sell order hit the bid: the agent may buy one unit.
    pub buy_filled: bool,
    /// A market buy order lifted the ask: the agent may sell one unit.
    pub sell_filled: bool,
}

/// The cash legs of the fills that the ledger took.
#[derive(Clone, Copy, Debug, PartialEq, Eq, Structural)]
pub struct Settlement {
    /// One unit was bought: this price is to be paid.
    pub bought_at: Option<Binary64>,
    /// One unit was sold: this price is to be received.
    pub sold_at: Option<Binary64>,
}

/// The position lies within the symmetric cap.
pub open spec fn within_cap(inventory: int, cap: int) -> bool {
    -cap <= inventory <= cap
}

/// A buy is taken if the position after it does not exceed the cap.
pub open spec fn buy_accepted(inventory: int, cap: int) -> bool {
    inventory + 1 <= cap
}

/// A sell is taken if the position after it does not fall below minus the cap.
pub open spec fn sell_accepted(inventory: int, cap: int) -> bool {
    inventory - 1 >= -cap
}

/// The position after a buy was offered or not.
pub open spec fn after_buy(inventory: int, offered: bool, cap: int) -> int {
    if offered && buy_accepted(inventory, cap) {
        inventory + 1
    } else {
        inventory
    }
}

/// The position after a sell was offered or not.
pub open spec fn after_sell(inventory: int, offered: bool, cap: int) -> int {
    if offered && sell_accepted(inventory, cap) {
        inventory - 1
    } else {
        inventory
    }
}

/// The cash legs of a decision: the buy side is settled first, at the bid;
/// the sell side against the position that the buy side left, at the ask.
pub open spec fn settlement(
    inventory: int,
    decision: FillDecision,
    bid: Binary64,
    ask: Binary64,
    cap: int,
) -> Settlement {
    Settlement {
        bought_at: if decision.buy_filled && buy_accepted(inventory, cap) {
            Some(bid)
        } else {
            None
        },
        sold_at: if decision.sell_filled && sell_accepted(
            after_buy(inventory, decision.buy_filled, cap),
            cap,
        ) {
            Some(ask)
        } else {
            None
        },
    }
}

/// The position after a whole decision.
pub open spec fn settled(inventory: int, decision: FillDecision, cap: int) -> int {
    after_sell(after_buy(inventory, decision.buy_filled, cap), decision.sell_filled, cap)
}

/// The cash as the caller computed it for each way a decision can be
/// settled.
#[derive(Clone, Copy, Debug, PartialEq, Eq, Structural)]
pub struct CashFigures {
    /// The cash less the bid: one unit bought, none sold.
    pub bought: Binary64,
    /// The cash plus the ask: one unit sold, none bought.
    pub sold: Binary64,
    /// The cash less the bid plus the ask: one unit bought and one sold.
    pub both: Binary64,
}

/// The cash after the legs were settled: the figure for the legs taken, and
/// the cash as it was if none was taken.
pub open spec fn settled_cash(cash: Binary64, legs: Settlement, figures: CashFigures) -> Binary64 {
    if legs.bought_at is Some && legs.sold_at is Some {
        figures.both
    } else if legs.bought_at is Some {
        figures.bought
    } else if legs.sold_at is Some {
        figures.sold
    } else {
        cash
    }
}

/// A position within the cap stays within the cap, whatever is offered.
pub proof fn lemma_settled_within_cap(inventory: int, decision: FillDecision, cap: int)
    requires
        within_cap(inventory, cap),
    ensures
        within_cap(settled(inventory, decision, cap), cap),
{
}

/// The position moves by one unit for each cash leg: up for a unit bought,
/// down for a unit sold.
pub proof fn lemma_settled_follows_legs(
    inventory: int,
    decision: FillDecision,
    bid: Binary64,
    ask: Binary64,
    cap: int,
)
    ensures
        ({
            let legs = settlement(inventory, decision, bid, ask, cap);
            let bought: int = if legs.bought_at is Some {
                1
            } else {
                0
            };
            let sold: int = if legs.sold_at is Some {
                1
            } else {
                0
            };
            settled(inventory, decision, cap) == inventory + bought - sold
        }),
{
}

/// What the ledger holds.
pub struct LedgerState {
    /// The signed position.
    pub inventory: int,
    /// The cash.
    pub cash: Binary64,
    /// The risk aversion that the agent was made with.
    pub risk_aversion: Binary64,
}

/// The mutable state of the agent within one run: its position and its cash.
#[derive(Clone, Copy, Debug)]
pub struct AgentState {
    inventory: i32,
    cash: Binary64,
    risk_aversion: Binary64,
}

impl View for AgentState {
    type V = LedgerState;

    closed spec fn view(&self) -> LedgerState {
        LedgerState {
            inventory: self.inventory as int,
            cash: self.cash,
            risk_aversion: self.risk_aversion,
        }
    }
}

impl AgentState {
    /// A fresh state: no position and no cash.
    pub fn new(risk_aversion: Binary64) -> (state: AgentState)
        ensures
            state@.inventory == 0,
            state@.cash == (Binary64 { bits: 0 }),
            state@.cash.zero_valued(),
            state@.risk_aversion == risk_aversion,
    {
        AgentState { inventory: 0, cash: Binary64::zero(), risk_aversion }
    }

    /// The position held.
    pub fn inventory(&self) -> (inventory: i32)
        ensures
            inventory == self@.inventory,
    {
        self.inventory
    }

    /// The cash held; zero in a fresh state.
    pub fn cash(&self) -> (cash: Binary64)
        ensures
            cash == self@.cash,
    {
        self.cash
    }

    /// The risk aversion that the agent was made with.
    pub fn risk_aversion(&self) -> (risk_aversion: Binary64)
        ensures
            risk_aversion == self@.risk_aversion,
    {
        self.risk_aversion
    }

    /// Offers one unit to buy at `price`; `settled` is the cash less the
    /// price, as the caller computed it. If the ledger takes the unit, the
    /// position rises by one, the cash becomes `settled`, and the price comes
    /// back as the leg that was paid. If the unit would carry the position
    /// beyond the cap it is dropped, and nothing changes. A unit that would
    /// be taken with a cash that is NaN or infinite is a numeric fault, and
    /// nothing changes.
    pub fn execute_buy(&mut self, price: Binary64, settled: Binary64, inventory_cap: i32) -> (r:
        Result<Option<Binary64>, SimError>)
        ensures
            buy_accepted(old(self)@.inventory, inventory_cap as int) && settled.finite() ==> r
                == Ok::<Option<Binary64>, SimError>(Some(price)) && final(self)@ == (LedgerState {
                inventory: old(self)@.inventory + 1,
                cash: settled,
                ..old(self)@
            }),
            buy_accepted(old(self)@.inventory, inventory_cap as int) && !settled.finite() ==> r
                == Err::<Option<Binary64>, SimError>(SimError::NumericFault) && final(self)@
                == old(self)@,
            !buy_accepted(old(self)@.inventory, inventory_cap as int) ==> r == Ok::<
                Option<Binary64>,
                SimError,
            >(None) && final(self)@ == old(self)@,
    {
        if self.inventory < inventory_cap {
            if settled.is_finite() {
                self.inventory = self.inventory + 1;
                self.cash = settled;
                Ok(Some(price))
            } else {
                Err(SimError::NumericFault)
            }
        } else {
            Ok(None)
        }
    }

    /// Offers one unit to sell at `price`; `settled` is the cash plus the
    /// price, as the caller computed it. If the ledger takes the unit, the
    /// position falls by one, the cash becomes `settled`, and the price comes
    /// back as the leg that was received. If the unit would carry the
    /// position below minus the cap it is dropped, and nothing changes. A
    /// unit that would be taken with a cash that is NaN or infinite is a
    /// numeric fault, and nothing changes.
    pub fn execute_sell(&mut self, price: Binary64, settled: Binary64, inventory_cap: i32) -> (r:
        Result<Option<Binary64>, SimError>)
        ensures
            sell_accepted(old(self)@.inventory, inventory_cap as int) && settled.finite() ==> r
                == Ok::<Option<Binary64>, SimError>(Some(price)) && final(self)@ == (LedgerState {
                inventory: old(self)@.inventory - 1,
                cash: settled,
                ..old(self)@
            }),
            sell_accepted(old(self)@.inventory, inventory_cap as int) && !settled.finite() ==> r
                == Err::<Option<Binary64>, SimError>(SimError::NumericFault) && final(self)@
                == old(self)@,
            !sell_accepted(old(self)@.inventory, inventory_cap as int) ==> r == Ok::<
                Option<Binary64>,
                SimError,
            >(None) && final(self)@ == old(self)@,
    {
        if self.inventory as i64 - 1 >= -(inventory_cap as i64) {
            if settled.is_finite() {
                self.inventory = self.inventory - 1;
                self.cash = settled;
                Ok(Some(price))
            } else {
                Err(SimError::NumericFault)
            }
        } else {
            Ok(None)
        }
    }

    /// Applies the decision of one step: the buy side first, at the bid, then
    /// the sell side, at the ask, against the position that the buy side
    /// left. The position moves by the legs taken, and the cash becomes the
    /// figure that the caller computed for exactly those legs; with no leg
    /// taken it stays as it was. If that cash is NaN or infinite, the step is
    /// a numeric fault and nothing changes.
    pub fn apply(
        &mut self,
        decision: FillDecision,
        bid: Binary64,
        ask: Binary64,
        figures: CashFigures,
        inventory_cap: i32,
    ) -> (r: Result<Settlement, SimError>)
        ensures
            ({
                let legs = settlement(old(self)@.inventory, decision, bid, ask, inventory_cap as int);
                let cash = settled_cash(old(self)@.cash, legs, figures);
                &&& cash.finite() ==> r == Ok::<Settlement, SimError>(legs) && final(self)@ == (
                LedgerState {
                    inventory: settled(old(self)@.inventory, decision, inventory_cap as int),
                    cash,
                    ..old(self)@
                })
                &&& !cash.finite() ==> r == Err::<Settlement, SimError>(SimError::NumericFault)
                    && final(self)@ == old(self)@
            }),
            r is Ok && within_cap(old(self)@.inventory, inventory_cap as int) ==> within_cap(
                final(self)@.inventory,
                inventory_cap as int,
            ),
    {
        let bought = decision.buy_filled && self.inventory < inventory_cap;
        let held: i64 = if bought {
            self.inventory as i64 + 1
        } else {
            self.inventory as i64
        };
        let sold = decision.sell_filled && held - 1 >= -(inventory_cap as i64);
        let cash = if bought && sold {
            figures.both
        } else if bought {
            figures.bought
        } else if sold {
            figures.sold
        } else {
            self.cash
        };
        if !cash.is_finite() {
            return Err(SimError::NumericFault);
        }
        if bought {
            self.inventory = self.inventory + 1;
        }
        if sold {
            self.inventory = self.inventory - 1;
        }
        self.cash = cash;
        Ok(
            Settlement {
                bought_at: if bought {
                    Some(bid)
                } else {
                    None
                },
                sold_at: if sold {
                    Some(ask)
                } else {
                    None
                },
            },
        )
    }
}

} // verus!
