//! The 64-bit signed integer cell.
//!
//! Every read-modify-write operation has fetch-before semantics: it returns
//! the value the cell held immediately before the operation's own effect.
//! Add, subtract and multiply wrap on overflow (two's-complement wraparound,
//! as hardware fetch-add does); division truncates toward zero, wraps in the
//! single overflowing case (`i64::MIN / -1`), and is the only operation that
//! can fail, exactly when the divisor is zero.
use vstd::prelude::*;

use vstd::arithmetic::div_mod::{
    lemma_div_basics, lemma_div_is_strictly_smaller, lemma_div_nonincreasing, lemma_div_of0,
    lemma_div_pos_is_pos,
};
use vstd::wrapping::i64_specs;

use crate::step::{compare_exchange_step, export_step, import_step, load_step, store_step, swap_step};
use crate::text::{dec_str, push_dec_i64};
use crate::DivisionByZero;

verus! {

/// Truncating (round toward zero) division of `x` by nonzero `d`, defined
/// through Euclidean division of the magnitudes. Every quotient taken here is
/// of a nonnegative value by a positive one, where Euclidean and truncating
/// division agree.
pub open spec fn trunc_div(x: int, d: int) -> int
    recommends
        d != 0,
{
    if x >= 0 && d > 0 {
        x / d
    } else if x <= 0 && d < 0 {
        (-x) / (-d)
    } else if x < 0 {
        -((-x) / d)
    } else {
        -(x / (-d))
    }
}

/// The cell value after dividing by nonzero `d`: truncating division, where
/// the one overflowing quotient (`i64::MIN / -1`) wraps back to `i64::MIN`.
pub open spec fn div_step(cur: i64, d: i64) -> i64
    recommends
        d != 0,
{
    if cur == i64::MIN && d == -1 {
        i64::MIN
    } else {
        trunc_div(cur as int, d as int) as i64
    }
}

/// For nonzero `d`, the truncating quotient matches the sign/magnitude
/// formulas stated over `* -1`, and is zero when the dividend is.
proof fn lemma_trunc_div_cases(x: int, d: int)
    requires
        d != 0,
    ensures
        x == 0 ==> trunc_div(x, d) == 0,
        x > 0 && d > 0 ==> trunc_div(x, d) == x / d,
        x < 0 && d < 0 ==> trunc_div(x, d) == (x * -1) / (d * -1),
        x < 0 && d > 0 ==> trunc_div(x, d) == ((x * -1) / d) * -1,
        x > 0 && d < 0 ==> trunc_div(x, d) == (x / (d * -1)) * -1,
{
    if x == 0 {
        if d > 0 {
            lemma_div_of0(d);
        } else {
            lemma_div_of0(-d);
        }
    }
}

/// For any `i64` dividend and nonzero divisor other than the pair
/// (`i64::MIN`, `-1`), the truncating quotient fits in `i64`.
proof fn lemma_trunc_div_in_range(x: int, d: int)
    requires
        i64::MIN <= x <= i64::MAX,
        i64::MIN <= d <= i64::MAX,
        d != 0,
        !(x == i64::MIN && d == -1),
    ensures
        i64::MIN <= trunc_div(x, d) <= i64::MAX,
{
    let a: int = if x >= 0 { x } else { -x };
    let b: int = if d >= 0 { d } else { -d };
    lemma_div_pos_is_pos(a, b);
    lemma_div_nonincreasing(a, b);
    assert(0 <= a / b <= a);
    if trunc_div(x, d) >= 0 {
        // The positive quotients: `a / b` must stay at or below `i64::MAX`.
        if b == 1 {
            lemma_div_basics(a);
            assert(a / b == a);
            // With magnitude `a` above `i64::MAX`, the dividend is `i64::MIN`
            // and the divisor would have to be `-1`, which is excluded.
            assert(x > 0 && d > 0 ==> a <= i64::MAX);
            assert(x < 0 && d < 0 ==> d == -1 && x != i64::MIN);
        } else if a > 0 {
            lemma_div_is_strictly_smaller(a, b);
            assert(a / b < a);
        }
    }
}

/// A cell holding one 64-bit signed integer. The contracts describe the
/// linearized history of the cell: each operation states the value the cell
/// holds afterwards and the value it returns.
#[derive(Debug)]
pub struct AtomicInt {
    value: i64,
}

impl View for AtomicInt {
    type V = i64;

    closed spec fn view(&self) -> i64 {
        self.value
    }
}

impl Default for AtomicInt {
    /// A fresh cell without an explicit initial value holds zero.
    fn default() -> (r: Self)
        ensures
            r@ == 0i64,
    {
        AtomicInt { value: 0 }
    }
}

impl AtomicInt {
    /// A new cell holding `value`.
    pub fn new(value: i64) -> (r: Self)
        ensures
            r@ == value,
    {
        AtomicInt { value }
    }

    /// Returns the current value.
    pub fn load(&self) -> (r: i64)
        ensures
            r == load_step(self@),
    {
        self.value
    }

    /// Unconditionally replaces the value.
    pub fn store(&mut self, value: i64)
        ensures
            final(self)@ == store_step(old(self)@, value),
    {
        self.value = value;
    }

    /// Adds `value` with two's-complement wraparound; returns the value held
    /// immediately before the addition.
    pub fn add(&mut self, value: i64) -> (r: i64)
        ensures
            r == old(self)@,
            final(self)@ == i64_specs::wrapping_add(old(self)@, value),
    {
        let prev: i64 = self.value;
        self.value = prev.wrapping_add(value);
        prev
    }

    /// Subtracts `value` with two's-complement wraparound; returns the value
    /// held immediately before the subtraction.
    pub fn sub(&mut self, value: i64) -> (r: i64)
        ensures
            r == old(self)@,
            final(self)@ == i64_specs::wrapping_sub(old(self)@, value),
    {
        let prev: i64 = self.value;
        self.value = prev.wrapping_sub(value);
        prev
    }

    /// Unconditionally replaces the value, returning the previous one.
    pub fn swap(&mut self, value: i64) -> (r: i64)
        ensures
            (final(self)@, r) == swap_step(old(self)@, value),
    {
        let prev: i64 = self.value;
        self.value = value;
        prev
    }

    /// A single compare-exchange attempt: if the cell holds exactly
    /// `expected`, replaces it with `new` and reports success with the
    /// pre-swap value; otherwise changes nothing and reports failure with the
    /// actual current value. No retry loop: a caller wanting
    /// compare-and-loop-until-success loops itself.
    pub fn compare_exchange(&mut self, expected: i64, new: i64) -> (r: (bool, i64))
        ensures
            (final(self)@, r.0, r.1) == compare_exchange_step(old(self)@, expected, new),
    {
        let prev: i64 = self.value;
        if prev == expected {
            self.value = new;
            (true, prev)
        } else {
            (false, prev)
        }
    }

    /// Multiplies by `value` with two's-complement wraparound; returns the
    /// value held immediately before the multiplication.
    pub fn mul(&mut self, value: i64) -> (r: i64)
        ensures
            r == old(self)@,
            final(self)@ == i64_specs::wrapping_mul(old(self)@, value),
    {
        let prev: i64 = self.value;
        self.value = prev.wrapping_mul(value);
        prev
    }

    /// Divides by `value`, truncating toward zero (`i64::MIN / -1` wraps).
    /// Fails, and leaves the cell unchanged, exactly when `value` is zero;
    /// otherwise returns the value held immediately before the division.
    pub fn div(&mut self, value: i64) -> (r: Result<i64, DivisionByZero>)
        ensures
            value == 0 ==> r == Err::<i64, DivisionByZero>(DivisionByZero) && final(self)@ == old(
                self,
            )@,
            value != 0 ==> r == Ok::<i64, DivisionByZero>(old(self)@) && final(self)@ == div_step(
                old(self)@,
                value,
            ),
    {
        if value == 0 {
            Err(DivisionByZero)
        } else {
            let prev: i64 = self.value;
            let next: i64 = match prev.checked_div(value) {
                Some(q) => {
                    proof {
                        lemma_trunc_div_cases(prev as int, value as int);
                    }
                    q
                },
                None => {
                    // `checked_div` with a nonzero divisor refuses only the
                    // quotient that overflows `i64`, which is `i64::MIN / -1`;
                    // that quotient wraps back to `i64::MIN`.
                    proof {
                        lemma_trunc_div_cases(prev as int, value as int);
                        if !(prev == i64::MIN && value == -1) {
                            lemma_trunc_div_in_range(prev as int, value as int);
                        }
                    }
                    i64::MIN
                },
            };
            proof {
                assert(next == div_step(prev, value));
            }
            self.value = next;
            Ok(prev)
        }
    }

    /// Adds one; returns the value held immediately before.
    pub fn inc(&mut self) -> (r: i64)
        ensures
            r == old(self)@,
            final(self)@ == i64_specs::wrapping_add(old(self)@, 1),
    {
        self.add(1)
    }

    /// Subtracts one; returns the value held immediately before.
    pub fn dec(&mut self) -> (r: i64)
        ensures
            r == old(self)@,
            final(self)@ == i64_specs::wrapping_sub(old(self)@, 1),
    {
        self.sub(1)
    }

    /// Compound add: as `add`, with the previous value discarded.
    pub fn add_assign(&mut self, value: i64)
        ensures
            final(self)@ == i64_specs::wrapping_add(old(self)@, value),
    {
        let _: i64 = self.add(value);
    }

    /// Compound subtract: as `sub`, with the previous value discarded.
    pub fn sub_assign(&mut self, value: i64)
        ensures
            final(self)@ == i64_specs::wrapping_sub(old(self)@, value),
    {
        let _: i64 = self.sub(value);
    }

    /// Compound multiply: as `mul`, with the previous value discarded.
    pub fn mul_assign(&mut self, value: i64)
        ensures
            final(self)@ == i64_specs::wrapping_mul(old(self)@, value),
    {
        let _: i64 = self.mul(value);
    }

    /// Compound divide: as `div`, with the previous value discarded; fails on
    /// a zero divisor with the cell unchanged.
    pub fn div_assign(&mut self, value: i64) -> (r: Result<(), DivisionByZero>)
        ensures
            value == 0 ==> r == Err::<(), DivisionByZero>(DivisionByZero) && final(self)@ == old(
                self,
            )@,
            value != 0 ==> r == Ok::<(), DivisionByZero>(()) && final(self)@ == div_step(
                old(self)@,
                value,
            ),
    {
        match self.div(value) {
            Ok(_) => Ok(()),
            Err(e) => Err(e),
        }
    }

    /// Conversion to a plain integer: reads the current value.
    pub fn to_int(&self) -> (r: i64)
        ensures
            r == load_step(self@),
    {
        self.value
    }

    /// The decimal text of the current value.
    pub fn to_text(&self) -> (r: String)
        ensures
            r@ == dec_str(self@ as int),
    {
        crate::text::i64_to_dec(self.value)
    }

    /// The debug rendering `AtomicInt(<value>)`, read at call time.
    pub fn repr(&self) -> (r: String)
        ensures
            r@ == "AtomicInt("@ + dec_str(self@ as int) + ")"@,
    {
        let mut s: String = String::new();
        s.append("AtomicInt(");
        push_dec_i64(&mut s, self.value);
        s.append(")");
        proof {
            assert(s@ =~= "AtomicInt("@ + dec_str(self@ as int) + ")"@);
        }
        s
    }

    /// The raw state handed to the host for persistence: the current value.
    pub fn export(&self) -> (r: i64)
        ensures
            r == export_step(self@),
    {
        self.value
    }

    /// Restores a previously exported raw state.
    pub fn import(&mut self, raw: i64)
        ensures
            final(self)@ == import_step(raw),
    {
        self.value = raw;
    }
}

/// The spec-level value of `n` increments applied in some linearized order to
/// a cell holding `start`: each increment is a wrapping add of one.
pub open spec fn after_increments(start: i64, n: nat) -> i64
    decreases n,
{
    if n == 0 {
        start
    } else {
        i64_specs::wrapping_add(after_increments(start, (n - 1) as nat), 1)
    }
}

/// Law: `n` increments against a cell holding zero leave exactly `n` behind,
/// for any `n` that fits the type — in the linearized order of operations no
/// update is lost.
pub proof fn lemma_increments_from_zero(n: nat)
    requires
        n <= i64::MAX,
    ensures
        after_increments(0, n) == n,
    decreases n,
{
    if n > 0 {
        lemma_increments_from_zero((n - 1) as nat);
    }
}

/// Law: a load right after `add(v)` sees the prior value plus `v` under the
/// two's-complement wraparound rule, spelled out per overflow direction.
pub proof fn lemma_add_then_load(cur: i64, v: i64)
    ensures
        load_step(i64_specs::wrapping_add(cur, v)) == i64_specs::wrapping_add(cur, v),
        i64::MIN <= cur + v <= i64::MAX ==> i64_specs::wrapping_add(cur, v) == cur + v,
        cur + v > i64::MAX ==> i64_specs::wrapping_add(cur, v) == cur + v
            - 0x1_0000_0000_0000_0000,
        cur + v < i64::MIN ==> i64_specs::wrapping_add(cur, v) == cur + v
            + 0x1_0000_0000_0000_0000,
{
}

} // verus!
