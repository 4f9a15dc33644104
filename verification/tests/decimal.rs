use governance::decimal::{Decimal, DECIMAL_FRACTIONAL};

#[test]
fn constructors_give_exact_atomics() {
    assert_eq!(Decimal::zero().atomics, 0);
    assert_eq!(Decimal::one().atomics, DECIMAL_FRACTIONAL);
    assert_eq!(Decimal::percent(50).atomics, 500_000_000_000_000_000);
    assert_eq!(Decimal::percent(100).atomics, DECIMAL_FRACTIONAL);
    assert_eq!(Decimal::percent(110).atomics, 1_100_000_000_000_000_000);
}

#[test]
fn from_ratio_rounds_down() {
    assert_eq!(Decimal::from_ratio(3, 4).atomics, 750_000_000_000_000_000);
    assert_eq!(Decimal::from_ratio(2, 1).atomics, 2_000_000_000_000_000_000);
    assert_eq!(Decimal::from_ratio(1, 3).atomics, 333_333_333_333_333_333);
}

#[test]
fn from_atomics_rescales() {
    assert_eq!(
        Decimal::from_atomics(11, 1).unwrap().atomics,
        1_100_000_000_000_000_000
    );
    assert_eq!(Decimal::from_atomics(5, 18).unwrap().atomics, 5);
    // More than 18 fractional places truncates toward zero.
    assert_eq!(Decimal::from_atomics(5, 20).unwrap().atomics, 0);
    assert_eq!(
        Decimal::from_atomics(1_234_567_890_123_456_789_012, 21).unwrap().atomics,
        1_234_567_890_123_456_789
    );
    // A value that cannot fit 18 fractional digits is refused.
    assert!(Decimal::from_atomics(u128::MAX, 0).is_none());
}

#[test]
fn is_zero_looks_at_the_value() {
    assert!(Decimal::zero().is_zero());
    assert!(!Decimal::percent(1).is_zero());
}
