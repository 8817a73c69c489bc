//! Vocabulary of market-structure analysis.

use vstd::prelude::*;

verus! {

/// Overall structure of the market.
#[derive(Debug, Clone, Copy, PartialEq, Eq, Structural)]
pub enum MarketStructure {
    Uptrend,
    Downtrend,
    Sideways,
    Uncertain,
}

/// Change of structure: break of structure (BOS) or change of character
/// (CHoCH).
#[derive(Debug, Clone, Copy, PartialEq, Eq, Structural)]
pub enum StructureChange {
    /// No change of structure.
    NoChange,
    BullishBOS,
    BearishBOS,
    BullishCHoCH,
    BearishCHoCH,
}

/// Direction of a fair value gap.
#[derive(Debug, Clone, Copy, PartialEq, Eq, Structural)]
pub enum FVGType {
    Bullish,
    Bearish,
}

/// Direction of an order block.
#[derive(Debug, Clone, Copy, PartialEq, Eq, Structural)]
pub enum OrderBlockType {
    Bullish,
    Bearish,
}

/// Side of a liquidity pool.
#[derive(Debug, Clone, Copy, PartialEq, Eq, Structural)]
pub enum LiquidityPoolType {
    BuyLiquidity,
    SellLiquidity,
}

/// Change of structure between two consecutive readings: a flip from an
/// uptrend to a downtrend, or back, is a break of structure when the candles
/// show a strong reversal and a change of character otherwise; anything else,
/// or no earlier reading, is no change.
pub open spec fn structure_change(
    previous_structure: Option<MarketStructure>,
    current_structure: MarketStructure,
    strong_reversal: bool,
) -> StructureChange {
    match previous_structure {
        Some(MarketStructure::Uptrend) if current_structure == MarketStructure::Downtrend => {
            if strong_reversal {
                StructureChange::BullishBOS
            } else {
                StructureChange::BearishCHoCH
            }
        },
        Some(MarketStructure::Downtrend) if current_structure == MarketStructure::Uptrend => {
            if strong_reversal {
                StructureChange::BearishBOS
            } else {
                StructureChange::BullishCHoCH
            }
        },
        _ => StructureChange::NoChange,
    }
}

/// Classifies the change from `previous_structure` to `current_structure`;
/// `strong_reversal` tells whether the recent candles reverse strongly (see
/// `structure_change`).
pub fn detect_structure_change(
    strong_reversal: bool,
    previous_structure: Option<&MarketStructure>,
    current_structure: MarketStructure,
) -> (r: StructureChange)
    ensures
        r == structure_change(
            match previous_structure {
                Some(p) => Some(*p),
                None => None,
            },
            current_structure,
            strong_reversal,
        ),
{
    let previous_structure = match previous_structure {
        Some(p) => p,
        None => return StructureChange::NoChange,
    };
    match (previous_structure, current_structure) {
        (MarketStructure::Uptrend, MarketStructure::Downtrend) => {
            if strong_reversal {
                StructureChange::BullishBOS
            } else {
                StructureChange::BearishCHoCH
            }
        },
        (MarketStructure::Downtrend, MarketStructure::Uptrend) => {
            if strong_reversal {
                StructureChange::BearishBOS
            } else {
                StructureChange::BullishCHoCH
            }
        },
        _ => StructureChange::NoChange,
    }
}

/// A change of structure needs a flip between uptrend and downtrend: staying
/// in the same structure, or passing through a sideways or uncertain market,
/// never reports one.
pub proof fn lemma_change_needs_trend_flip(
    previous_structure: MarketStructure,
    current_structure: MarketStructure,
    strong_reversal: bool,
)
    ensures
        structure_change(Some(previous_structure), current_structure, strong_reversal)
            != StructureChange::NoChange <==> (previous_structure == MarketStructure::Uptrend
            && current_structure == MarketStructure::Downtrend) || (previous_structure
            == MarketStructure::Downtrend && current_structure == MarketStructure::Uptrend),
        structure_change(None, current_structure, strong_reversal) == StructureChange::NoChange,
{
}

} // verus!
