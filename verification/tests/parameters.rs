use mm::binary64::Binary64;
use mm::error::SimError;
use mm::params::{ParameterValues, SimulationParameters};
use mm::path::PathBuilder;

fn of(x: f64) -> Binary64 {
    Binary64::from_bits(x.to_bits())
}

fn defaults() -> ParameterValues {
    ParameterValues {
        s0: of(100.0),
        horizon: of(10.0),
        dt: of(0.005),
        risk_aversion: of(0.5),
        volatility: of(3.0),
        liquidity: of(0.1),
        base_intensity: of(280.0),
        inventory_cap: 1000,
    }
}

#[test]
fn positive_values_are_accepted_unchanged() {
    let params = SimulationParameters::new(defaults()).unwrap();
    assert_eq!(params.values(), defaults());
    assert_eq!(params.inventory_cap(), 1000);
    assert_eq!(f64::from_bits(params.values().dt.to_bits()), 0.005);
    assert_eq!(f64::from_bits(params.values().s0.to_bits()), 100.0);
}

#[test]
fn non_positive_step_is_rejected() {
    for dt in [0.0, -0.0, -0.005, f64::NEG_INFINITY, f64::NAN] {
        let values = ParameterValues { dt: of(dt), ..defaults() };
        assert_eq!(SimulationParameters::new(values).err(), Some(SimError::InvalidParameter));
    }
}

#[test]
fn non_positive_horizon_is_rejected() {
    for horizon in [0.0, -10.0, f64::NAN] {
        let values = ParameterValues { horizon: of(horizon), ..defaults() };
        assert_eq!(SimulationParameters::new(values).err(), Some(SimError::InvalidParameter));
    }
}

#[test]
fn non_positive_volatility_is_rejected() {
    for volatility in [0.0, -3.0, f64::NAN] {
        let values = ParameterValues { volatility: of(volatility), ..defaults() };
        assert_eq!(SimulationParameters::new(values).err(), Some(SimError::InvalidParameter));
    }
}

#[test]
fn non_positive_cap_is_rejected() {
    for cap in [0, -1, i32::MIN] {
        let values = ParameterValues { inventory_cap: cap, ..defaults() };
        assert_eq!(SimulationParameters::new(values).err(), Some(SimError::InvalidParameter));
    }
}

#[test]
fn every_real_parameter_must_be_positive() {
    let bad = of(-1.0);
    let cases = [
        ParameterValues { s0: bad, ..defaults() },
        ParameterValues { horizon: bad, ..defaults() },
        ParameterValues { dt: bad, ..defaults() },
        ParameterValues { risk_aversion: bad, ..defaults() },
        ParameterValues { volatility: bad, ..defaults() },
        ParameterValues { liquidity: bad, ..defaults() },
        ParameterValues { base_intensity: bad, ..defaults() },
    ];
    for values in cases {
        assert_eq!(SimulationParameters::new(values).err(), Some(SimError::InvalidParameter));
    }
}

#[test]
fn smallest_positive_values_are_accepted() {
    let tiny = Binary64::from_bits(1);
    let values = ParameterValues {
        s0: tiny,
        horizon: tiny,
        dt: tiny,
        risk_aversion: tiny,
        volatility: tiny,
        liquidity: tiny,
        base_intensity: tiny,
        inventory_cap: 1,
    };
    assert!(SimulationParameters::new(values).is_ok());
    let large = ParameterValues { s0: of(f64::MAX), inventory_cap: i32::MAX, ..defaults() };
    assert!(SimulationParameters::new(large).is_ok());
}

#[test]
fn infinite_values_are_rejected() {
    let cases = [
        ParameterValues { s0: of(f64::INFINITY), ..defaults() },
        ParameterValues { horizon: of(f64::INFINITY), ..defaults() },
        ParameterValues { dt: of(f64::INFINITY), ..defaults() },
        ParameterValues { risk_aversion: of(f64::INFINITY), ..defaults() },
        ParameterValues { volatility: of(f64::INFINITY), ..defaults() },
        ParameterValues { liquidity: of(f64::INFINITY), ..defaults() },
        ParameterValues { base_intensity: of(f64::INFINITY), ..defaults() },
        ParameterValues { horizon: of(f64::NEG_INFINITY), ..defaults() },
    ];
    for values in cases {
        assert_eq!(SimulationParameters::new(values).err(), Some(SimError::InvalidParameter));
    }
}

#[test]
fn accepted_parameters_always_start_a_path() {
    let tiny = Binary64::from_bits(1);
    let cases = [
        defaults(),
        ParameterValues { s0: of(f64::MAX), volatility: of(f64::MAX), dt: tiny, ..defaults() },
        ParameterValues { s0: tiny, volatility: tiny, dt: of(f64::MAX), ..defaults() },
    ];
    for values in cases {
        let params = SimulationParameters::new(values).unwrap();
        assert!(PathBuilder::new(values.s0, 7, values.dt, values.volatility).is_ok());
        let builder = PathBuilder::with_parameters(&params, 7);
        assert!(!builder.is_complete());
        assert_eq!(builder.pending(), Some(values.s0));
        let mut builder = builder;
        for _ in 0..7 {
            builder = builder.extend(values.s0).unwrap();
        }
        assert!(builder.is_complete());
        assert_eq!(builder.finish().len(), 8);
    }
    let none = PathBuilder::with_parameters(&SimulationParameters::new(defaults()).unwrap(), 0);
    assert!(none.is_complete());
    assert_eq!(none.finish().values(), &vec![of(100.0)]);
}
