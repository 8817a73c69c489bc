//! Vocabulary of price-action analysis.

use vstd::prelude::*;

verus! {

/// Candle pattern recognised by price-action analysis.
#[derive(Debug, Clone, Copy, PartialEq, Eq, Structural)]
pub enum CandlePattern {
    Hammer,
    InvertedHammer,
    Doji,
    BullishEngulfing,
    BearishEngulfing,
    PiercingPattern,
    DarkCloudCover,
    MorningStar,
    EveningStar,
    LongBullish,
    LongBearish,
    Normal,
}

/// Trend of the price.
#[derive(Debug, Clone, Copy, PartialEq, Eq, Structural)]
pub enum PriceTrend {
    StrongUptrend,
    WeakUptrend,
    Sideways,
    WeakDowntrend,
    StrongDowntrend,
}

/// Kind of swing point.
#[derive(Debug, Clone, Copy, PartialEq, Eq, Structural)]
pub enum SwingType {
    High,
    Low,
}

} // verus!
