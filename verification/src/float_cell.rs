//! The 64-bit IEEE-754 cell, stored and reasoned about as its bit pattern.
//!
//! Floating-point arithmetic itself is outside what the verifier accepts, so
//! this cell holds the `u64` bit pattern of an IEEE-754 binary64 value and
//! states its contracts over bit patterns. Everything the cell itself decides
//! — storage, exchange, the equality test of compare-exchange, the
//! zero-divisor guard of division — is defined here on bits and verified. The
//! arithmetic that produces a new bit pattern (sum, product, quotient) is the
//! caller's: the updating operations take the already-computed pattern and
//! state exactly when and how it is installed.
//!
//! On bit patterns, IEEE-754 equality is decidable exactly: a NaN (absolute
//! bits above the infinity pattern) equals nothing, the two zeros (absolute
//! bits zero) equal each other, and every other value has a unique pattern.
use vstd::prelude::*;

use crate::step::{export_step, import_step, load_step, store_step, swap_step};
use crate::DivisionByZero;

verus! {

/// The absolute-value bits: the pattern with the sign bit cleared.
pub open spec fn f64_abs_bits(bits: u64) -> u64 {
    bits & 0x7fff_ffff_ffff_ffff
}

/// Whether the pattern is a NaN: absolute bits strictly above the infinity
/// pattern (exponent all ones, significand nonzero).
pub open spec fn f64_bits_is_nan(bits: u64) -> bool {
    f64_abs_bits(bits) > 0x7ff0_0000_0000_0000
}

/// Whether the pattern is a zero, of either sign.
pub open spec fn f64_bits_is_zero(bits: u64) -> bool {
    f64_abs_bits(bits) == 0
}

/// IEEE-754 equality on bit patterns: false whenever either side is a NaN
/// (a NaN never equals anything, itself included); true for the two zeros,
/// whatever their signs; otherwise equality of the patterns, since every
/// remaining value has exactly one representation.
pub open spec fn f64_bits_eq(a: u64, b: u64) -> bool {
    !f64_bits_is_nan(a) && !f64_bits_is_nan(b) && (a == b || (f64_bits_is_zero(a)
        && f64_bits_is_zero(b)))
}

/// A compare-exchange attempt on a float cell goes by IEEE-754 equality, not
/// pattern equality: the cell's value afterwards, whether the swap happened,
/// and the pattern observed at decision time.
pub open spec fn float_compare_exchange_step(cur: u64, expected: u64, new: u64) -> (
    u64,
    bool,
    u64,
) {
    if f64_bits_eq(cur, expected) {
        (new, true, cur)
    } else {
        (cur, false, cur)
    }
}

/// Whether the pattern's absolute bits are those of `bits` with the sign
/// cleared, computed executably.
pub fn abs_bits(bits: u64) -> (r: u64)
    ensures
        r == f64_abs_bits(bits),
{
    bits & 0x7fff_ffff_ffff_ffff
}

/// Executable NaN test on a bit pattern.
pub fn is_nan_bits(bits: u64) -> (r: bool)
    ensures
        r == f64_bits_is_nan(bits),
{
    abs_bits(bits) > 0x7ff0_0000_0000_0000
}

/// Executable zero test on a bit pattern, covering both signs of zero.
pub fn is_zero_bits(bits: u64) -> (r: bool)
    ensures
        r == f64_bits_is_zero(bits),
{
    abs_bits(bits) == 0
}

/// Executable IEEE-754 equality on bit patterns.
pub fn eq_bits(a: u64, b: u64) -> (r: bool)
    ensures
        r == f64_bits_eq(a, b),
{
    !is_nan_bits(a) && !is_nan_bits(b) && (a == b || (is_zero_bits(a) && is_zero_bits(b)))
}

/// A cell holding the bit pattern of one IEEE-754 binary64 value. The
/// contracts describe the linearized history of the cell: each operation
/// states the pattern the cell holds afterwards and the pattern it returns,
/// bit for bit.
#[derive(Debug)]
pub struct AtomicFloat {
    bits: u64,
}

impl View for AtomicFloat {
    type V = u64;

    closed spec fn view(&self) -> u64 {
        self.bits
    }
}

impl Default for AtomicFloat {
    /// A fresh cell without an explicit initial value holds positive zero.
    fn default() -> (r: Self)
        ensures
            r@ == 0u64,
    {
        AtomicFloat { bits: 0 }
    }
}

impl AtomicFloat {
    /// A new cell holding the pattern `bits`.
    pub fn new(bits: u64) -> (r: Self)
        ensures
            r@ == bits,
    {
        AtomicFloat { bits }
    }

    /// Returns the current bit pattern.
    pub fn load(&self) -> (r: u64)
        ensures
            r == load_step(self@),
    {
        self.bits
    }

    /// Unconditionally replaces the pattern.
    pub fn store(&mut self, bits: u64)
        ensures
            final(self)@ == store_step(old(self)@, bits),
    {
        self.bits = bits;
    }

    /// Unconditionally replaces the pattern, returning the previous one. The
    /// fetch-before arithmetic operations are built on this: the caller
    /// computes the new pattern and receives the pattern it displaced.
    pub fn swap(&mut self, bits: u64) -> (r: u64)
        ensures
            (final(self)@, r) == swap_step(old(self)@, bits),
    {
        let prev: u64 = self.bits;
        self.bits = bits;
        prev
    }

    /// A single compare-exchange attempt under IEEE-754 equality: succeeds
    /// when the held value equals `expected` as a float — so never when
    /// `expected` is a NaN, and regardless of zero signs — and reports the
    /// pattern observed at decision time.
    pub fn compare_exchange(&mut self, expected: u64, new: u64) -> (r: (bool, u64))
        ensures
            (final(self)@, r.0, r.1) == float_compare_exchange_step(old(self)@, expected, new),
    {
        let prev: u64 = self.bits;
        if eq_bits(prev, expected) {
            self.bits = new;
            (true, prev)
        } else {
            (false, prev)
        }
    }

    /// Division's guarded installment. The caller computes the quotient's
    /// pattern; the cell enforces the zero-divisor guard: when `divisor_bits`
    /// is a zero of either sign the call fails and the cell is unchanged —
    /// exact zero never falls through to IEEE infinity — and otherwise
    /// `quotient_bits` is installed and the displaced pattern returned.
    pub fn div(&mut self, divisor_bits: u64, quotient_bits: u64) -> (r: Result<
        u64,
        DivisionByZero,
    >)
        ensures
            f64_bits_is_zero(divisor_bits) ==> r == Err::<u64, DivisionByZero>(DivisionByZero)
                && final(self)@ == old(self)@,
            !f64_bits_is_zero(divisor_bits) ==> r == Ok::<u64, DivisionByZero>(old(self)@)
                && final(self)@ == quotient_bits,
    {
        if is_zero_bits(divisor_bits) {
            Err(DivisionByZero)
        } else {
            let prev: u64 = self.bits;
            self.bits = quotient_bits;
            Ok(prev)
        }
    }

    /// The raw state handed to the host for persistence: the current pattern,
    /// bit for bit.
    pub fn export(&self) -> (r: u64)
        ensures
            r == export_step(self@),
    {
        self.bits
    }

    /// Restores a previously exported raw state, bit for bit.
    pub fn import(&mut self, raw: u64)
        ensures
            final(self)@ == import_step(raw),
    {
        self.bits = raw;
    }
}

/// Law: a compare-exchange whose expected value is a NaN never succeeds —
/// IEEE-754 equality never holds of a NaN — and leaves the cell unchanged.
pub proof fn lemma_compare_exchange_nan_never_succeeds(cur: u64, expected: u64, new: u64)
    requires
        f64_bits_is_nan(expected),
    ensures
        float_compare_exchange_step(cur, expected, new) == (cur, false, cur),
{
}

/// Law: the two zeros compare equal whatever their signs, so a
/// compare-exchange expecting one zero succeeds against the other.
pub proof fn lemma_zeros_compare_equal(a: u64, b: u64)
    requires
        f64_bits_is_zero(a),
        f64_bits_is_zero(b),
    ensures
        f64_bits_eq(a, b),
{
    assert(f64_abs_bits(a) == 0 ==> !f64_bits_is_nan(a));
}

/// Law: IEEE-754 equality on patterns is symmetric.
pub proof fn lemma_bits_eq_symmetric(a: u64, b: u64)
    ensures
        f64_bits_eq(a, b) == f64_bits_eq(b, a),
{
}

} // verus!
