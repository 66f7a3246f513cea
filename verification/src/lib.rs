//! Polarity-aware, table-driven reset-line controller for an SoC with five
//! discrete reset-control registers.
//!
//! The crate translates an abstract reset-line identifier into a concrete
//! (register, bit index, polarity, hold-time class) tuple and performs the
//! four canonical reset-controller operations — assert, deassert, status
//! query, and full reset pulse — as read-modify-write sequences against a
//! bank of 32-bit registers.
//!
//! - [`map`] builds the immutable per-line lookup table from the mapped
//!   register base addresses.
//! - [`regs`] models the bank of memory-mapped registers as plain values.
//! - [`ops`] implements the four reset operations over a map and a bank.
//! - [`laws`] states and proves the controller's algebraic properties.

use vstd::prelude::*;

pub mod laws;
pub mod map;
pub mod ops;
pub mod regs;

verus! {

/// Errors reported by the reset controller.
#[derive(Clone, Copy, Debug, PartialEq, Eq, Structural)]
pub enum ResetError {
    /// The supplied reset-line identifier does not resolve to a map entry:
    /// it is out of range or falls in a reserved gap of the register layout.
    InvalidId,
    /// A register base address was null at construction time, meaning the
    /// platform layer failed to map that register region.
    MappingFailure,
}

} // verus!
