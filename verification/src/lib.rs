//! A small directed resource-distribution network.
//!
//! Storage tanks expose a finite substance through rate-limited output
//! endpoints, consumers accept it through input endpoints, and connections
//! authorize point-to-point transfers. Each fixed simulation tick runs two
//! phases in order: production fills each tank's output buffer from its
//! storage, and network resolution drains those buffers into connected
//! consumers, reporting every transfer and every unconnected pair.
//!
//! All physical quantities (mass, flow rates, pressures, temperatures,
//! mixture fractions, tick durations) are fixed-point integers: a stored
//! value `q` stands for the physical quantity `q / SCALE`.

use vstd::prelude::*;

pub mod composition;
pub mod model;
pub mod production;
pub mod resolve;
pub mod simulation;

verus! {

/// Fixed-point scale: a stored value of `SCALE` stands for 1.0 physical unit
/// (one kilogram, one second, one kelvin, a mixture fraction of 100%, ...).
pub const SCALE: u64 = 100_000;

/// Upper bound on any single stored amount, capacity or flow rate that the
/// solver multiplies: keeps every intermediate product within `u64`.
pub const AMOUNT_LIMIT: u64 = 1_000_000_000_000;

/// Upper bound on one tick's duration (100 seconds in fixed point): keeps
/// every rate-times-duration product within `u64`.
pub const DT_LIMIT: u64 = 10_000_000;

/// The smaller of two integers.
pub open spec fn min_int(a: int, b: int) -> int {
    if a <= b {
        a
    } else {
        b
    }
}

/// The smaller of two machine words.
pub fn min_u64(a: u64, b: u64) -> (r: u64)
    ensures
        r == min_int(a as int, b as int),
{
    if a <= b {
        a
    } else {
        b
    }
}

} // verus!
