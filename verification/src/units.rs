//! Fixed-point representation of physical quantities.
use vstd::prelude::*;

verus! {

/// Number of fixed-point steps in one SI unit: a quantity `x` is held as the
/// integer `x * SCALE` (millionths of the unit).
pub const SCALE: i64 = 1_000_000;

} // verus!
