//! The boolean cell.
//!
//! The operation set mirrors the integer cell where it applies, plus `flip`,
//! an atomic-style inversion (boolean exclusive-or with `true`) that returns
//! the value held immediately before the flip.
use vstd::prelude::*;
use vstd::string::StringExecFns;

use crate::step::{compare_exchange_step, export_step, import_step, load_step, store_step, swap_step};

verus! {

/// A flip inverts the cell: the value afterwards, and the previous value that
/// the operation returns.
pub open spec fn flip_step(cur: bool) -> (bool, bool) {
    (!cur, cur)
}

/// The decimal text of a boolean: `true` or `false`.
pub open spec fn bool_str(b: bool) -> Seq<char> {
    if b {
        "true"@
    } else {
        "false"@
    }
}

/// The integer a boolean converts to: `false` is zero, `true` is one.
pub open spec fn bool_as_int(b: bool) -> i64 {
    if b {
        1
    } else {
        0
    }
}

/// A cell holding one boolean. The contracts describe the linearized history
/// of the cell: each operation states the value the cell holds afterwards and
/// the value it returns.
#[derive(Debug)]
pub struct AtomicBool {
    value: bool,
}

impl View for AtomicBool {
    type V = bool;

    closed spec fn view(&self) -> bool {
        self.value
    }
}

impl Default for AtomicBool {
    /// A fresh cell without an explicit initial value holds `false`.
    fn default() -> (r: Self)
        ensures
            r@ == false,
    {
        AtomicBool { value: false }
    }
}

impl AtomicBool {
    /// A new cell holding `value`.
    pub fn new(value: bool) -> (r: Self)
        ensures
            r@ == value,
    {
        AtomicBool { value }
    }

    /// Returns the current value.
    pub fn load(&self) -> (r: bool)
        ensures
            r == load_step(self@),
    {
        self.value
    }

    /// Unconditionally replaces the value.
    pub fn store(&mut self, value: bool)
        ensures
            final(self)@ == store_step(old(self)@, value),
    {
        self.value = value;
    }

    /// Unconditionally replaces the value, returning the previous one.
    pub fn swap(&mut self, value: bool) -> (r: bool)
        ensures
            (final(self)@, r) == swap_step(old(self)@, value),
    {
        let prev: bool = self.value;
        self.value = value;
        prev
    }

    /// A single compare-exchange attempt: if the cell holds exactly
    /// `expected`, replaces it with `new` and reports success with the
    /// pre-swap value; otherwise changes nothing and reports failure with the
    /// actual current value.
    pub fn compare_exchange(&mut self, expected: bool, new: bool) -> (r: (bool, bool))
        ensures
            (final(self)@, r.0, r.1) == compare_exchange_step(old(self)@, expected, new),
    {
        let prev: bool = self.value;
        if prev == expected {
            self.value = new;
            (true, prev)
        } else {
            (false, prev)
        }
    }

    /// Inverts the value (exclusive-or with `true`); returns the value held
    /// immediately before the flip.
    pub fn flip(&mut self) -> (r: bool)
        ensures
            (final(self)@, r) == flip_step(old(self)@),
    {
        let prev: bool = self.value;
        self.value = !prev;
        prev
    }

    /// Conversion to a plain boolean: reads the current value.
    pub fn to_bool(&self) -> (r: bool)
        ensures
            r == load_step(self@),
    {
        self.value
    }

    /// Conversion to an integer: `false` is zero, `true` is one.
    pub fn to_int(&self) -> (r: i64)
        ensures
            r == bool_as_int(self@),
    {
        if self.value {
            1
        } else {
            0
        }
    }

    /// Logical negation of the current value; reads only, never mutates.
    pub fn inverted(&self) -> (r: bool)
        ensures
            r == !self@,
    {
        !self.value
    }

    /// The text of the current value: `true` or `false`.
    pub fn to_text(&self) -> (r: String)
        ensures
            r@ == bool_str(self@),
    {
        if self.value {
            String::from_str("true")
        } else {
            String::from_str("false")
        }
    }

    /// The debug rendering `AtomicBool(<value>)`, read at call time.
    pub fn repr(&self) -> (r: String)
        ensures
            r@ == "AtomicBool("@ + bool_str(self@) + ")"@,
    {
        let mut s: String = String::new();
        s.append("AtomicBool(");
        if self.value {
            s.append("true");
        } else {
            s.append("false");
        }
        s.append(")");
        proof {
            assert(s@ =~= "AtomicBool("@ + bool_str(self@) + ")"@);
        }
        s
    }

    /// The raw state handed to the host for persistence: the current value.
    pub fn export(&self) -> (r: bool)
        ensures
            r == export_step(self@),
    {
        self.value
    }

    /// Restores a previously exported raw state.
    pub fn import(&mut self, raw: bool)
        ensures
            final(self)@ == import_step(raw),
    {
        self.value = raw;
    }
}

/// Law: a flip returns the prior value and inverts the cell, so a flip of a
/// cell holding `true` returns `true` and leaves `false` behind.
pub proof fn lemma_flip_returns_previous(cur: bool)
    ensures
        flip_step(cur).1 == cur,
        flip_step(cur).0 == !cur,
{
}

/// Law: two flips in a row restore the value the cell started with.
pub proof fn lemma_flip_twice_restores(cur: bool)
    ensures
        flip_step(flip_step(cur).0).0 == cur,
{
}

} // verus!
