//! The spec-level model shared by all three cells.
//!
//! A cell's state is just its current value, so every operation is described
//! by a step function from the value before the operation to the value after
//! it, together with whatever the operation returns. The executable methods
//! state their contracts with these step functions, and the lemmas below state
//! the laws that hold of any cell, whatever its payload type.
use vstd::prelude::*;

verus! {

/// What a plain read returns: the cell's current value.
pub open spec fn load_step<T>(cur: T) -> T {
    cur
}

/// The cell's value after an unconditional write of `v`.
pub open spec fn store_step<T>(cur: T, v: T) -> T {
    v
}

/// An unconditional exchange: the cell's value afterwards, and the previous
/// value that the operation returns.
pub open spec fn swap_step<T>(cur: T, v: T) -> (T, T) {
    (v, cur)
}

/// A single compare-exchange attempt under structural equality: the cell's
/// value afterwards, whether the swap happened, and the value observed at
/// decision time.
pub open spec fn compare_exchange_step<T>(cur: T, expected: T, new: T) -> (T, bool, T) {
    if cur == expected {
        (new, true, cur)
    } else {
        (cur, false, cur)
    }
}

/// What export hands to the host: the raw current value.
pub open spec fn export_step<T>(cur: T) -> T {
    cur
}

/// The cell's value after importing a previously exported raw value.
pub open spec fn import_step<T>(raw: T) -> T {
    raw
}

/// Law: a load right after a store of `v` yields exactly `v`; the stored value
/// is the cell's whole state.
pub proof fn lemma_store_then_load<T>(cur: T, v: T)
    ensures
        load_step(store_step(cur, v)) == v,
{
}

/// Law: a swap returns the value immediately preceding the call, and a load
/// right after the swap yields the swapped-in value.
pub proof fn lemma_swap_then_load<T>(cur: T, v: T)
    ensures
        swap_step(cur, v).1 == cur,
        load_step(swap_step(cur, v).0) == v,
{
}

/// Law: a compare-exchange on a cell holding exactly the expected value
/// succeeds, reports the pre-swap value, and leaves the new value behind.
pub proof fn lemma_compare_exchange_hit<T>(cur: T, expected: T, new: T)
    requires
        cur == expected,
    ensures
        compare_exchange_step(cur, expected, new) == (new, true, expected),
{
}

/// Law: a compare-exchange on a cell holding anything other than the expected
/// value fails, reports the actual current value, and changes nothing.
pub proof fn lemma_compare_exchange_miss<T>(cur: T, expected: T, new: T)
    requires
        cur != expected,
    ensures
        compare_exchange_step(cur, expected, new) == (cur, false, cur),
{
}

/// Law: importing what export produced reproduces the exported state exactly,
/// so a load after the round trip is unchanged.
pub proof fn lemma_export_import_round_trip<T>(cur: T)
    ensures
        import_step(export_step(cur)) == cur,
{
}

} // verus!
