//! Atomic-style scalar cells: a 64-bit signed integer cell, a boolean cell,
//! and a 64-bit IEEE-754 cell stored as its bit pattern.
//!
//! Each cell owns one machine-word-sized value and exposes load/store and
//! read-modify-write operations with fetch-before semantics: an updating
//! operation returns the value that was current immediately before its own
//! effect. The contracts describe the linearized history of a cell: every
//! operation says exactly what the cell holds afterwards and what it returns,
//! so a chain of calls pins down the whole observable behaviour.
//!
//! Signed arithmetic wraps on overflow (two's-complement wraparound, matching
//! hardware fetch-add behaviour); the only failure any operation can report is
//! a division whose divisor is zero.
use vstd::prelude::*;

pub mod bool_cell;
pub mod float_cell;
pub mod int_cell;
pub mod step;
pub mod text;

pub use bool_cell::AtomicBool;
pub use float_cell::AtomicFloat;
pub use int_cell::AtomicInt;

verus! {

/// The one failure a cell can report: a division was requested with a zero
/// divisor. The cell is left unchanged whenever this is returned.
#[derive(Clone, Copy, Debug, PartialEq, Eq, Structural)]
pub struct DivisionByZero;

} // verus!
