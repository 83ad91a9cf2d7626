use mm::binary64::Binary64;
use mm::error::SimError;
use mm::path::{PathBuilder, PricePath};
use rand::rngs::StdRng;
use rand::SeedableRng;
use rand_distr::{Distribution, Normal};

fn of(x: f64) -> Binary64 {
    Binary64::from_bits(x.to_bits())
}

fn back(v: Binary64) -> f64 {
    f64::from_bits(v.to_bits())
}

fn generate(initial: f64, n: usize, dt: f64, volatility: f64, seed: u64) -> Result<PricePath, SimError> {
    let mut builder = PathBuilder::new(of(initial), n, of(dt), of(volatility))?;
    let normal = Normal::new(0.0, volatility * dt.sqrt()).map_err(|_| SimError::InvalidParameter)?;
    let mut rng = StdRng::seed_from_u64(seed);
    while let Some(previous) = builder.pending() {
        builder = builder.extend(of(back(previous) + normal.sample(&mut rng)))?;
    }
    assert!(builder.is_complete());
    Ok(builder.finish())
}

#[test]
fn zero_volatility_leaves_the_initial_price_everywhere() {
    for volatility in [0.0, -0.0] {
        for n in [0usize, 1, 10, 500] {
            let builder = PathBuilder::new(of(1000.0), n, of(0.02), of(volatility)).unwrap();
            assert!(builder.is_complete());
            assert_eq!(builder.pending(), None);
            let path = builder.finish();
            assert_eq!(path.len(), n + 1);
            assert!(path.values().iter().all(|v| *v == of(1000.0)));
            assert!(path.values().iter().all(|v| (back(*v) - 1000.0).abs() < 1e-8));
        }
    }
    let path = generate(0.0, 10, 1.0, 0.0, 3).unwrap();
    assert_eq!(path.values(), &vec![of(0.0); 11]);
}

#[test]
fn generated_path_has_one_price_more_than_steps() {
    for n in [0usize, 1, 2, 3, 50, 200, 1000] {
        let path = generate(100.0, n, 0.005, 2.0, n as u64).unwrap();
        assert_eq!(path.len(), n + 1);
        assert_eq!(path.steps(), n);
        assert_eq!(path.price(0), of(100.0));
    }
}

#[test]
fn each_price_is_the_one_before_plus_the_increment() {
    let mut builder = PathBuilder::new(of(100.0), 3, of(0.25), of(2.0)).unwrap();
    assert!(!builder.is_complete());
    assert_eq!(builder.pending(), Some(of(100.0)));
    builder = builder.extend(of(100.0 + 0.75)).unwrap();
    assert_eq!(builder.pending(), Some(of(100.75)));
    builder = builder.extend(of(100.75 - 2.5)).unwrap();
    assert_eq!(builder.pending(), Some(of(98.25)));
    builder = builder.extend(of(98.25 + 0.0)).unwrap();
    assert_eq!(builder.pending(), None);
    assert!(builder.is_complete());
    let path = builder.finish();
    assert_eq!(path.values(), &vec![of(100.0), of(100.75), of(98.25), of(98.25)]);
}

#[test]
fn increments_differ_with_positive_volatility() {
    let path = generate(0.0, 3, 1.0, 1.0, 99).unwrap();
    let x: Vec<f64> = path.values().iter().map(|v| back(*v)).collect();
    let steps = [x[1] - x[0], x[2] - x[1], x[3] - x[2]];
    assert!(steps[0] != steps[1] || steps[1] != steps[2]);
    assert!(x[1] != x[2] && x[2] != x[3]);
}

#[test]
fn prices_may_be_negative() {
    let mut builder = PathBuilder::new(of(1.0), 2, of(1.0), of(5.0)).unwrap();
    builder = builder.extend(of(-4.0)).unwrap();
    builder = builder.extend(of(-9.5)).unwrap();
    assert_eq!(builder.finish().values(), &vec![of(1.0), of(-4.0), of(-9.5)]);
}

#[test]
fn step_length_must_be_above_zero() {
    for dt in [0.0, -0.0, -0.005, f64::NEG_INFINITY, f64::NAN] {
        assert_eq!(
            PathBuilder::new(of(100.0), 10, of(dt), of(2.0)).err(),
            Some(SimError::InvalidParameter)
        );
        assert_eq!(
            PathBuilder::new(of(100.0), 10, of(dt), of(0.0)).err(),
            Some(SimError::InvalidParameter)
        );
    }
    assert!(PathBuilder::new(of(100.0), 10, of(f64::MIN_POSITIVE), of(2.0)).is_ok());
    assert!(PathBuilder::new(of(100.0), 10, of(f64::MAX), of(2.0)).is_ok());
    for volatility in [2.0, 0.0] {
        assert_eq!(
            PathBuilder::new(of(100.0), 10, of(f64::INFINITY), of(volatility)).err(),
            Some(SimError::InvalidParameter)
        );
        assert_eq!(
            PathBuilder::resume(vec![of(100.0)], 10, of(f64::INFINITY), of(volatility)).err(),
            Some(SimError::InvalidParameter)
        );
    }
}

#[test]
fn volatility_must_be_finite_and_not_below_zero() {
    for volatility in [-2.0, -1.0e-300, f64::NAN, f64::INFINITY, f64::NEG_INFINITY] {
        assert_eq!(
            PathBuilder::new(of(100.0), 10, of(0.005), of(volatility)).err(),
            Some(SimError::InvalidParameter)
        );
    }
}

#[test]
fn initial_price_must_be_finite() {
    for initial in [f64::NAN, f64::INFINITY, f64::NEG_INFINITY] {
        assert_eq!(
            PathBuilder::new(of(initial), 10, of(0.005), of(2.0)).err(),
            Some(SimError::InvalidParameter)
        );
    }
    assert!(PathBuilder::new(of(-100.0), 10, of(0.005), of(2.0)).is_ok());
}

#[test]
fn price_that_is_not_finite_ends_the_path() {
    for bad in [f64::NAN, f64::INFINITY, f64::NEG_INFINITY] {
        let builder = PathBuilder::new(of(100.0), 4, of(0.005), of(2.0)).unwrap();
        let builder = builder.extend(of(101.0)).unwrap();
        assert_eq!(builder.extend(of(bad)).err(), Some(SimError::NumericFault));
    }
}

#[test]
fn supplied_prices_are_kept_and_steps_follow_them() {
    let prefix = vec![of(0.0), of(10.0), of(20.0)];
    let mut builder = PathBuilder::resume(prefix, 3, of(1.0), of(1.0)).unwrap();
    assert!(!builder.is_complete());
    assert_eq!(builder.pending(), Some(of(20.0)));
    builder = builder.extend(of(20.5)).unwrap();
    builder = builder.extend(of(19.0)).unwrap();
    assert_eq!(builder.pending(), Some(of(19.0)));
    builder = builder.extend(of(21.25)).unwrap();
    assert!(builder.is_complete());
    let path = builder.finish();
    assert_eq!(path.len(), 6);
    assert_eq!(
        path.values(),
        &vec![of(0.0), of(10.0), of(20.0), of(20.5), of(19.0), of(21.25)]
    );
}

#[test]
fn supplied_prices_with_zero_volatility_stay_flat_after_the_last() {
    let prefix = vec![of(5.0), of(7.0)];
    let builder = PathBuilder::resume(prefix, 4, of(1.0), of(0.0)).unwrap();
    assert!(builder.is_complete());
    let path = builder.finish();
    assert_eq!(path.values(), &vec![of(5.0), of(7.0), of(7.0), of(7.0), of(7.0), of(7.0)]);
}

#[test]
fn supplied_prices_without_steps_are_the_path() {
    let builder = PathBuilder::resume(vec![of(1.0), of(2.0)], 0, of(1.0), of(3.0)).unwrap();
    assert!(builder.is_complete());
    assert_eq!(builder.pending(), None);
    assert_eq!(builder.finish().values(), &vec![of(1.0), of(2.0)]);
}

#[test]
fn supplied_prices_must_be_there_and_finite() {
    assert_eq!(
        PathBuilder::resume(Vec::new(), 3, of(1.0), of(1.0)).err(),
        Some(SimError::InvalidParameter)
    );
    for bad in [f64::NAN, f64::INFINITY] {
        assert_eq!(
            PathBuilder::resume(vec![of(1.0), of(bad), of(2.0)], 3, of(1.0), of(1.0)).err(),
            Some(SimError::InvalidParameter)
        );
    }
    assert_eq!(
        PathBuilder::resume(vec![of(1.0)], 3, of(0.0), of(1.0)).err(),
        Some(SimError::InvalidParameter)
    );
    assert_eq!(
        PathBuilder::resume(vec![of(1.0)], 3, of(1.0), of(-1.0)).err(),
        Some(SimError::InvalidParameter)
    );
}
