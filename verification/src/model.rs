//! Position and signal vocabulary shared by strategies.

use vstd::prelude::*;

verus! {

/// Kind of position a risk manager reasons about.
#[derive(Debug, Clone, Copy, PartialEq, Eq, Structural)]
pub enum PositionType {
    /// Long position.
    Long,
    /// Short position.
    Short,
}

/// Position currently held by the caller when a strategy is evaluated.
#[derive(Debug, Clone, Copy, PartialEq, Eq, Structural)]
pub enum PositionState {
    /// No open position.
    Flat,
    /// A long position is open.
    Long,
    /// A short position is open.
    Short,
}

/// Trading signal emitted by a strategy.
#[derive(Debug, Clone, Copy, PartialEq, Eq, Structural)]
pub enum Signal {
    /// Enter a position.
    Enter,
    /// Leave the position.
    Exit,
    /// Keep the current position.
    Hold,
}

} // verus!
