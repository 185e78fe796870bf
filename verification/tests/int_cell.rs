use atomicx::AtomicInt;
use atomicx::DivisionByZero;

#[test]
fn int_store_then_load() {
    let mut c = AtomicInt::new(0);
    c.store(42);
    assert_eq!(c.load(), 42);
    c.store(i64::MIN);
    assert_eq!(c.load(), i64::MIN);
    c.store(i64::MAX);
    assert_eq!(c.load(), i64::MAX);
    c.store(-1);
    assert_eq!(c.load(), -1);
}

#[test]
fn int_default_is_zero() {
    let c = AtomicInt::default();
    assert_eq!(c.load(), 0);
}

#[test]
fn int_swap_returns_previous() {
    let mut c = AtomicInt::new(7);
    assert_eq!(c.swap(9), 7);
    assert_eq!(c.load(), 9);
}

#[test]
fn int_compare_exchange_hit() {
    let mut c = AtomicInt::new(5);
    assert_eq!(c.compare_exchange(5, 8), (true, 5));
    assert_eq!(c.load(), 8);
}

#[test]
fn int_compare_exchange_miss() {
    let mut c = AtomicInt::new(5);
    assert_eq!(c.compare_exchange(6, 8), (false, 5));
    assert_eq!(c.load(), 5);
}

#[test]
fn int_add_fetch_before() {
    let mut c = AtomicInt::new(10);
    assert_eq!(c.add(5), 10);
    assert_eq!(c.load(), 15);
}

#[test]
fn int_add_wraps_at_max() {
    let mut c = AtomicInt::new(i64::MAX);
    assert_eq!(c.add(1), i64::MAX);
    assert_eq!(c.load(), i64::MIN);
}

#[test]
fn int_sub_wraps_at_min() {
    let mut c = AtomicInt::new(i64::MIN);
    assert_eq!(c.sub(1), i64::MIN);
    assert_eq!(c.load(), i64::MAX);
}

#[test]
fn int_mul_fetch_before_and_wraps() {
    let mut c = AtomicInt::new(10);
    assert_eq!(c.mul(3), 10);
    assert_eq!(c.load(), 30);
    let mut w = AtomicInt::new(i64::MAX);
    assert_eq!(w.mul(2), i64::MAX);
    assert_eq!(w.load(), i64::MAX.wrapping_mul(2));
}

#[test]
fn int_div_by_zero_fails_and_leaves_value() {
    let mut c = AtomicInt::new(30);
    assert_eq!(c.div(0), Err(DivisionByZero));
    assert_eq!(c.load(), 30);
}

#[test]
fn int_div_truncates_toward_zero() {
    let mut c = AtomicInt::new(30);
    assert_eq!(c.div(5), Ok(30));
    assert_eq!(c.load(), 6);
    let mut n = AtomicInt::new(-7);
    assert_eq!(n.div(2), Ok(-7));
    assert_eq!(n.load(), -3);
    let mut p = AtomicInt::new(7);
    assert_eq!(p.div(-2), Ok(7));
    assert_eq!(p.load(), -3);
    let mut b = AtomicInt::new(-7);
    assert_eq!(b.div(-2), Ok(-7));
    assert_eq!(b.load(), 3);
}

#[test]
fn int_div_min_by_minus_one_wraps() {
    let mut c = AtomicInt::new(i64::MIN);
    assert_eq!(c.div(-1), Ok(i64::MIN));
    assert_eq!(c.load(), i64::MIN);
}

#[test]
fn int_inc_dec() {
    let mut c = AtomicInt::new(0);
    assert_eq!(c.inc(), 0);
    assert_eq!(c.load(), 1);
    assert_eq!(c.dec(), 1);
    assert_eq!(c.load(), 0);
}

#[test]
fn int_many_increments_count_exactly() {
    let mut c = AtomicInt::new(0);
    let n: i64 = 1000;
    for _ in 0..n {
        c.inc();
    }
    assert_eq!(c.load(), n);
}

#[test]
fn int_compound_assignments() {
    let mut c = AtomicInt::new(10);
    c.add_assign(5);
    assert_eq!(c.load(), 15);
    c.sub_assign(3);
    assert_eq!(c.load(), 12);
    c.mul_assign(2);
    assert_eq!(c.load(), 24);
    assert_eq!(c.div_assign(4), Ok(()));
    assert_eq!(c.load(), 6);
    assert_eq!(c.div_assign(0), Err(DivisionByZero));
    assert_eq!(c.load(), 6);
}

#[test]
fn int_text_and_repr() {
    let c = AtomicInt::new(30);
    assert_eq!(c.to_text(), "30");
    assert_eq!(c.repr(), "AtomicInt(30)");
    let z = AtomicInt::new(0);
    assert_eq!(z.to_text(), "0");
    let n = AtomicInt::new(-245);
    assert_eq!(n.to_text(), "-245");
    assert_eq!(n.repr(), "AtomicInt(-245)");
    let min = AtomicInt::new(i64::MIN);
    assert_eq!(min.to_text(), "-9223372036854775808");
    let max = AtomicInt::new(i64::MAX);
    assert_eq!(max.to_text(), "9223372036854775807");
}

#[test]
fn int_to_int_reads_current() {
    let c = AtomicInt::new(-9);
    assert_eq!(c.to_int(), -9);
}

#[test]
fn int_export_import_round_trip() {
    let mut c = AtomicInt::new(-123456789);
    let raw = c.export();
    c.store(0);
    c.import(raw);
    assert_eq!(c.load(), -123456789);
    let mut same = AtomicInt::new(i64::MIN);
    let r = same.export();
    same.import(r);
    assert_eq!(same.load(), i64::MIN);
}

#[test]
fn int_example_scenario() {
    let mut c = AtomicInt::new(10);
    assert_eq!(c.mul(3), 10);
    assert_eq!(c.load(), 30);
    assert_eq!(c.div(0), Err(DivisionByZero));
    assert_eq!(c.load(), 30);
    assert_eq!(c.div(5), Ok(30));
    assert_eq!(c.load(), 6);
}
