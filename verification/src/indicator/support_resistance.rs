//! Kinds of support and resistance levels.

use vstd::prelude::*;

verus! {

/// Role of a price level.
#[derive(Debug, Clone, Copy, PartialEq, Eq, Structural)]
pub enum LevelType {
    Support,
    Resistance,
    Both,
}

} // verus!
