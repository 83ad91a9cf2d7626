use mm::binary64::Binary64;
use mm::error::SimError;
use mm::ledger::{AgentState, CashFigures, FillDecision, Settlement};

fn of(x: f64) -> Binary64 {
    Binary64::from_bits(x.to_bits())
}

fn back(v: Binary64) -> f64 {
    f64::from_bits(v.to_bits())
}

fn both() -> FillDecision {
    FillDecision { buy_filled: true, sell_filled: true }
}

fn buy() -> FillDecision {
    FillDecision { buy_filled: true, sell_filled: false }
}

fn sell() -> FillDecision {
    FillDecision { buy_filled: false, sell_filled: true }
}

fn none() -> FillDecision {
    FillDecision { buy_filled: false, sell_filled: false }
}

/// Offers a buy at `price`, with the cash that settling it would leave.
fn execute_buy(agent: &mut AgentState, price: f64, cap: i32) -> Option<Binary64> {
    let settled = back(agent.cash()) - price;
    agent.execute_buy(of(price), of(settled), cap).unwrap()
}

/// Offers a sell at `price`, with the cash that settling it would leave.
fn execute_sell(agent: &mut AgentState, price: f64, cap: i32) -> Option<Binary64> {
    let settled = back(agent.cash()) + price;
    agent.execute_sell(of(price), of(settled), cap).unwrap()
}

/// Applies a decision at the quotes, with the cash figures for each way it can
/// be settled.
fn apply(agent: &mut AgentState, decision: FillDecision, bid: f64, ask: f64, cap: i32) -> Settlement {
    let cash = back(agent.cash());
    let figures =
        CashFigures { bought: of(cash - bid), sold: of(cash + ask), both: of(cash - bid + ask) };
    agent.apply(decision, of(bid), of(ask), figures, cap).unwrap()
}

#[test]
fn fresh_state_holds_nothing() {
    let agent = AgentState::new(of(0.1));
    assert_eq!(agent.inventory(), 0);
    assert_eq!(agent.cash(), of(0.0));
    assert_eq!(back(agent.cash()), 0.0);
    assert!(agent.cash().is_zero());
    assert_eq!(agent.risk_aversion(), of(0.1));
    assert_eq!(back(agent.risk_aversion()), 0.1);
}

#[test]
fn one_buy_lowers_the_cash_by_the_price() {
    let mut agent = AgentState::new(of(0.5));
    assert_eq!(execute_buy(&mut agent, 99.5, 1000), Some(of(99.5)));
    assert_eq!(agent.inventory(), 1);
    assert_eq!(back(agent.cash()), -99.5);
    assert_eq!(back(agent.risk_aversion()), 0.5);
}

#[test]
fn sell_after_buy_leaves_ask_less_bid() {
    let mut agent = AgentState::new(of(0.5));
    assert_eq!(execute_buy(&mut agent, 100.0, 1000), Some(of(100.0)));
    assert_eq!(execute_sell(&mut agent, 101.0, 1000), Some(of(101.0)));
    assert_eq!(agent.inventory(), 0);
    assert_eq!(back(agent.cash()), 1.0);
}

#[test]
fn buy_beyond_the_cap_is_dropped_whole() {
    let mut agent = AgentState::new(of(0.5));
    for _ in 0..1000 {
        assert_eq!(execute_buy(&mut agent, 1.0, 1000), Some(of(1.0)));
    }
    assert_eq!(agent.inventory(), 1000);
    assert_eq!(back(agent.cash()), -1000.0);
    assert_eq!(execute_buy(&mut agent, 1.0, 1000), None);
    assert_eq!(agent.inventory(), 1000);
    assert_eq!(back(agent.cash()), -1000.0);
    // whatever figure comes with a dropped fill, nothing moves and nothing fails
    assert_eq!(agent.execute_buy(of(1.0), of(f64::NAN), 1000), Ok(None));
    assert_eq!(agent.execute_buy(of(1.0), of(7.0), 1000), Ok(None));
    assert_eq!(back(agent.cash()), -1000.0);
}

#[test]
fn sell_beyond_the_cap_is_dropped_whole() {
    let mut agent = AgentState::new(of(0.5));
    for _ in 0..1000 {
        assert_eq!(execute_sell(&mut agent, 1.0, 1000), Some(of(1.0)));
    }
    assert_eq!(agent.inventory(), -1000);
    assert_eq!(back(agent.cash()), 1000.0);
    assert_eq!(execute_sell(&mut agent, 1.0, 1000), None);
    assert_eq!(agent.inventory(), -1000);
    assert_eq!(back(agent.cash()), 1000.0);
    assert_eq!(agent.execute_sell(of(1.0), of(f64::INFINITY), 1000), Ok(None));
    assert_eq!(back(agent.cash()), 1000.0);
}

#[test]
fn fill_with_a_cash_that_is_not_finite_is_a_fault_and_moves_nothing() {
    for bad in [f64::NAN, f64::INFINITY, f64::NEG_INFINITY] {
        let mut agent = AgentState::new(of(0.5));
        execute_buy(&mut agent, 10.0, 5);
        assert_eq!(agent.execute_buy(of(10.0), of(bad), 5), Err(SimError::NumericFault));
        assert_eq!(agent.execute_sell(of(10.0), of(bad), 5), Err(SimError::NumericFault));
        assert_eq!((agent.inventory(), back(agent.cash())), (1, -10.0));
        let figures = CashFigures { bought: of(bad), sold: of(1.0), both: of(2.0) };
        assert_eq!(agent.apply(buy(), of(9.0), of(11.0), figures, 5), Err(SimError::NumericFault));
        assert_eq!((agent.inventory(), back(agent.cash())), (1, -10.0));
        // only the figure for the legs taken matters
        assert_eq!(
            agent.apply(sell(), of(9.0), of(11.0), figures, 5),
            Ok(Settlement { bought_at: None, sold_at: Some(of(11.0)) })
        );
        assert_eq!((agent.inventory(), back(agent.cash())), (0, 1.0));
        assert_eq!(
            agent.apply(none(), of(9.0), of(11.0), figures, 5),
            Ok(Settlement { bought_at: None, sold_at: None })
        );
        assert_eq!((agent.inventory(), back(agent.cash())), (0, 1.0));
    }
}

#[test]
fn buy_raises_inventory_and_pays_the_bid() {
    let mut agent = AgentState::new(of(0.1));
    let legs = apply(&mut agent, buy(), 99.0, 101.0, 5);
    assert_eq!(agent.inventory(), 1);
    assert_eq!(back(agent.cash()), -99.0);
    assert_eq!(legs, Settlement { bought_at: Some(of(99.0)), sold_at: None });
}

#[test]
fn sell_lowers_inventory_and_receives_the_ask() {
    let mut agent = AgentState::new(of(0.1));
    let legs = apply(&mut agent, sell(), 99.0, 101.0, 5);
    assert_eq!(agent.inventory(), -1);
    assert_eq!(back(agent.cash()), 101.0);
    assert_eq!(legs, Settlement { bought_at: None, sold_at: Some(of(101.0)) });
}

#[test]
fn both_fills_leave_inventory_and_settle_both_legs() {
    let mut agent = AgentState::new(of(0.1));
    let legs = apply(&mut agent, both(), 99.0, 101.0, 5);
    assert_eq!(agent.inventory(), 0);
    assert_eq!(back(agent.cash()), 2.0);
    assert_eq!(legs, Settlement { bought_at: Some(of(99.0)), sold_at: Some(of(101.0)) });
}

#[test]
fn no_fill_changes_nothing() {
    let mut agent = AgentState::new(of(0.1));
    apply(&mut agent, buy(), 99.0, 101.0, 5);
    let legs = apply(&mut agent, none(), 99.0, 101.0, 5);
    assert_eq!(agent.inventory(), 1);
    assert_eq!(back(agent.cash()), -99.0);
    assert_eq!(legs, Settlement { bought_at: None, sold_at: None });
}

#[test]
fn buy_at_the_cap_is_dropped() {
    let mut agent = AgentState::new(of(0.1));
    for _ in 0..3 {
        assert_eq!(execute_buy(&mut agent, 10.0, 3), Some(of(10.0)));
    }
    assert_eq!((agent.inventory(), back(agent.cash())), (3, -30.0));
    assert_eq!(execute_buy(&mut agent, 10.0, 3), None);
    assert_eq!((agent.inventory(), back(agent.cash())), (3, -30.0));
    let legs = apply(&mut agent, both(), 99.0, 101.0, 3);
    assert_eq!(legs, Settlement { bought_at: None, sold_at: Some(of(101.0)) });
    assert_eq!((agent.inventory(), back(agent.cash())), (2, 71.0));
}

#[test]
fn sell_at_the_floor_is_dropped() {
    let mut agent = AgentState::new(of(0.1));
    for _ in 0..3 {
        assert_eq!(execute_sell(&mut agent, 10.0, 3), Some(of(10.0)));
    }
    assert_eq!((agent.inventory(), back(agent.cash())), (-3, 30.0));
    assert_eq!(execute_sell(&mut agent, 10.0, 3), None);
    assert_eq!((agent.inventory(), back(agent.cash())), (-3, 30.0));
    // the buy side is settled first, so the sell finds room again
    let legs = apply(&mut agent, both(), 99.0, 101.0, 3);
    assert_eq!(legs, Settlement { bought_at: Some(of(99.0)), sold_at: Some(of(101.0)) });
    assert_eq!((agent.inventory(), back(agent.cash())), (-3, 32.0));
}

#[test]
fn inventory_never_leaves_the_cap() {
    let cap = 4;
    let mut agent = AgentState::new(of(0.1));
    let script = [buy(), buy(), both(), buy(), buy(), buy(), buy(), sell(), sell(), sell(), sell(),
        sell(), sell(), sell(), sell(), sell(), sell(), both(), none(), buy()];
    let expected = [1, 2, 2, 3, 4, 4, 4, 3, 2, 1, 0, -1, -2, -3, -4, -4, -4, -4, -4, -3];
    let mut cash = 0.0;
    for (decision, want) in script.iter().zip(expected.iter()) {
        let legs = apply(&mut agent, *decision, 1.0, 2.0, cap);
        if legs.bought_at.is_some() {
            cash -= 1.0;
        }
        if legs.sold_at.is_some() {
            cash += 2.0;
        }
        assert_eq!(agent.inventory(), *want);
        assert!(agent.inventory().abs() <= cap);
        assert_eq!(back(agent.cash()), cash);
    }
}

#[test]
fn extreme_caps_do_not_overflow() {
    let mut agent = AgentState::new(of(0.1));
    assert_eq!(execute_buy(&mut agent, 1.0, i32::MAX), Some(of(1.0)));
    assert_eq!(execute_sell(&mut agent, 1.0, i32::MAX), Some(of(1.0)));
    assert_eq!(execute_sell(&mut agent, 1.0, i32::MAX), Some(of(1.0)));
    assert_eq!(agent.inventory(), -1);
    // a cap of zero or below admits no buy from a flat book
    let mut flat = AgentState::new(of(0.1));
    assert_eq!(execute_buy(&mut flat, 1.0, 0), None);
    assert_eq!(execute_sell(&mut flat, 1.0, 0), None);
    assert_eq!(execute_buy(&mut flat, 1.0, i32::MIN), None);
    assert_eq!(flat.inventory(), 0);
    assert_eq!(back(flat.cash()), 0.0);
}
