use atomicx::float_cell;
use atomicx::AtomicFloat;
use atomicx::DivisionByZero;

#[test]
fn float_store_then_load_extremes() {
    let mut c = AtomicFloat::new(0.0f64.to_bits());
    for v in [1.5f64, -2.25, f64::INFINITY, f64::NEG_INFINITY, f64::MAX, f64::MIN] {
        c.store(v.to_bits());
        assert_eq!(f64::from_bits(c.load()), v);
    }
    c.store(f64::NAN.to_bits());
    assert!(f64::from_bits(c.load()).is_nan());
}

#[test]
fn float_default_is_positive_zero() {
    let c = AtomicFloat::default();
    assert_eq!(c.load(), 0.0f64.to_bits());
}

#[test]
fn float_swap_returns_previous() {
    let mut c = AtomicFloat::new(1.5f64.to_bits());
    let prev = c.swap(2.5f64.to_bits());
    assert_eq!(f64::from_bits(prev), 1.5);
    assert_eq!(f64::from_bits(c.load()), 2.5);
}

#[test]
fn float_add_via_swap_fetch_before() {
    // The IEEE-754 sum is computed outside the cell; the cell's swap hands
    // back the displaced pattern, giving fetch-before semantics.
    let mut c = AtomicFloat::new(1.5f64.to_bits());
    let cur = f64::from_bits(c.load());
    let prev = c.swap((cur + 2.0).to_bits());
    assert_eq!(f64::from_bits(prev), 1.5);
    assert_eq!(f64::from_bits(c.load()), 3.5);
}

#[test]
fn float_compare_exchange_hit() {
    let mut c = AtomicFloat::new(1.5f64.to_bits());
    let (ok, observed) = c.compare_exchange(1.5f64.to_bits(), 9.0f64.to_bits());
    assert!(ok);
    assert_eq!(f64::from_bits(observed), 1.5);
    assert_eq!(f64::from_bits(c.load()), 9.0);
}

#[test]
fn float_compare_exchange_miss() {
    let mut c = AtomicFloat::new(1.5f64.to_bits());
    let (ok, observed) = c.compare_exchange(2.5f64.to_bits(), 9.0f64.to_bits());
    assert!(!ok);
    assert_eq!(f64::from_bits(observed), 1.5);
    assert_eq!(f64::from_bits(c.load()), 1.5);
}

#[test]
fn float_compare_exchange_nan_never_matches() {
    let nan = f64::NAN.to_bits();
    let mut c = AtomicFloat::new(nan);
    let (ok, observed) = c.compare_exchange(nan, 1.0f64.to_bits());
    assert!(!ok);
    assert_eq!(observed, nan);
    assert_eq!(c.load(), nan);
}

#[test]
fn float_compare_exchange_signed_zeros_match() {
    let mut c = AtomicFloat::new((-0.0f64).to_bits());
    let (ok, observed) = c.compare_exchange(0.0f64.to_bits(), 4.0f64.to_bits());
    assert!(ok);
    assert_eq!(observed, (-0.0f64).to_bits());
    assert_eq!(f64::from_bits(c.load()), 4.0);
}

#[test]
fn float_div_by_zero_fails_and_leaves_value() {
    let mut c = AtomicFloat::new(3.0f64.to_bits());
    let q = (3.0f64 / 0.0).to_bits();
    assert_eq!(c.div(0.0f64.to_bits(), q), Err(DivisionByZero));
    assert_eq!(f64::from_bits(c.load()), 3.0);
    assert_eq!(c.div((-0.0f64).to_bits(), q), Err(DivisionByZero));
    assert_eq!(f64::from_bits(c.load()), 3.0);
}

#[test]
fn float_div_nonzero_installs_quotient() {
    let mut c = AtomicFloat::new(3.0f64.to_bits());
    let q = (3.0f64 / 2.0).to_bits();
    let prev = c.div(2.0f64.to_bits(), q).unwrap();
    assert_eq!(f64::from_bits(prev), 3.0);
    assert_eq!(f64::from_bits(c.load()), 1.5);
}

#[test]
fn float_export_import_round_trip_bit_for_bit() {
    // A quiet NaN with a payload: the round trip must keep the exact pattern.
    let pattern: u64 = 0x7ff8_0000_0000_abcd;
    let mut c = AtomicFloat::new(pattern);
    let raw = c.export();
    c.store(0);
    c.import(raw);
    assert_eq!(c.load(), pattern);
}

#[test]
fn float_bit_predicates() {
    assert!(float_cell::is_nan_bits(f64::NAN.to_bits()));
    assert!(!float_cell::is_nan_bits(f64::INFINITY.to_bits()));
    assert!(float_cell::is_zero_bits(0.0f64.to_bits()));
    assert!(float_cell::is_zero_bits((-0.0f64).to_bits()));
    assert!(!float_cell::is_zero_bits(f64::MIN_POSITIVE.to_bits()));
    assert!(float_cell::eq_bits(0.0f64.to_bits(), (-0.0f64).to_bits()));
    assert!(!float_cell::eq_bits(f64::NAN.to_bits(), f64::NAN.to_bits()));
    assert!(float_cell::eq_bits(2.5f64.to_bits(), 2.5f64.to_bits()));
    assert!(!float_cell::eq_bits(2.5f64.to_bits(), 2.0f64.to_bits()));
}
