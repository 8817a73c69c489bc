//! Direction of a fitted slope.

use vstd::prelude::*;

verus! {

/// Direction of a slope.
#[derive(Debug, Clone, Copy, PartialEq, Eq, Structural)]
pub enum SlopeDirection {
    /// Rising.
    Upward,
    /// Falling.
    Downward,
    /// Nearly flat.
    Sideways,
}

} // verus!
