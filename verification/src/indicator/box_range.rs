//! Position of the price relative to a box (range-bound) market.

use vstd::prelude::*;

verus! {

/// Where the price stands relative to a detected box.
#[derive(Clone, Copy, Debug, PartialEq, Eq, Structural)]
pub enum BoxRangeBreakout {
    /// Above the upper bound.
    Above,
    /// Below the lower bound.
    Below,
    /// Within the box.
    Inside,
}

} // verus!
