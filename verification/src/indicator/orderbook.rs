//! Classifications produced by order-book analysis.

use vstd::prelude::*;

verus! {

/// Pressure the order book puts on the price.
#[derive(Debug, Clone, Copy, PartialEq, Eq, Structural)]
pub enum MarketPressure {
    /// Strong buying pressure.
    StrongBuy,
    /// Moderate buying pressure.
    ModerateBuy,
    /// Balanced book.
    Neutral,
    /// Moderate selling pressure.
    ModerateSell,
    /// Strong selling pressure.
    StrongSell,
}

impl MarketPressure {
    /// Buying pressure, strong or moderate.
    pub open spec fn spec_is_bullish(self) -> bool {
        self == MarketPressure::StrongBuy || self == MarketPressure::ModerateBuy
    }

    /// Selling pressure, strong or moderate.
    pub open spec fn spec_is_bearish(self) -> bool {
        self == MarketPressure::StrongSell || self == MarketPressure::ModerateSell
    }

    /// Whether the book shows buying pressure.
    pub fn is_bullish(&self) -> (r: bool)
        ensures
            r == self.spec_is_bullish(),
    {
        match self {
            MarketPressure::StrongBuy | MarketPressure::ModerateBuy => true,
            _ => false,
        }
    }

    /// Whether the book shows selling pressure.
    pub fn is_bearish(&self) -> (r: bool)
        ensures
            r == self.spec_is_bearish(),
    {
        match self {
            MarketPressure::StrongSell | MarketPressure::ModerateSell => true,
            _ => false,
        }
    }
}

/// A pressure is never both buying and selling, and only a neutral book is
/// neither.
pub proof fn lemma_pressure_direction_exclusive(pressure: MarketPressure)
    ensures
        !(pressure.spec_is_bullish() && pressure.spec_is_bearish()),
        !pressure.spec_is_bullish() && !pressure.spec_is_bearish() <==> pressure
            == MarketPressure::Neutral,
{
}

/// How liquid an order book is.
#[derive(Debug, Clone, Copy, PartialEq, Eq, Structural)]
pub enum LiquidityLevel {
    /// Tight spread, deep book.
    VeryHigh,
    High,
    Medium,
    Low,
    /// Wide spread, shallow book.
    VeryLow,
}

} // verus!
