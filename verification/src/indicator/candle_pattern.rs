//! Candle-pattern vocabulary and the tables that grade a recognised pattern:
//! how reliable it is and which way it points.

use vstd::prelude::*;

verus! {

/// Shape of a single candle.
#[derive(Debug, Clone, Copy, PartialEq, Eq, Structural)]
pub enum SingleCandlePattern {
    /// Doji: indecision.
    Doji,
    /// Gravestone doji: reversal at a top.
    GravestoneDoji,
    /// Dragonfly doji: reversal at a bottom.
    DragonFlyDoji,
    /// Hammer: reversal at a bottom.
    Hammer,
    /// Hanging man: reversal at a top.
    HangingMan,
    /// Inverted hammer: reversal at a bottom.
    InvertedHammer,
    /// Shooting star: reversal at a top.
    ShootingStar,
    /// Marubozu: strong directional candle.
    Marubozu,
    /// Spinning top: indecision.
    SpinningTop,
    /// Ordinary candle.
    Normal,
}

/// Pattern formed by two or three consecutive candles.
#[derive(Debug, Clone, Copy, PartialEq, Eq, Structural)]
pub enum MultiCandlePattern {
    /// Bullish engulfing: upward reversal.
    BullishEngulfing,
    /// Bearish engulfing: downward reversal.
    BearishEngulfing,
    /// Piercing pattern: upward reversal.
    PiercingPattern,
    /// Dark cloud cover: downward reversal.
    DarkCloudCover,
    /// Morning star: upward reversal.
    MorningStar,
    /// Evening star: downward reversal.
    EveningStar,
    /// Three white soldiers: strong rise.
    ThreeWhiteSoldiers,
    /// Three black crows: strong fall.
    ThreeBlackCrows,
    /// Three inside up: upward reversal.
    ThreeInsideUp,
    /// Three inside down: downward reversal.
    ThreeInsideDown,
    /// Harami: weakening trend.
    Harami,
    /// Tweezer top: reversal at a top.
    TweezerTop,
    /// Tweezer bottom: reversal at a bottom.
    TweezerBottom,
    /// No multi-candle pattern.
    NoPattern,
}

/// How much a recognised pattern can be trusted.
#[derive(Debug, Clone, Copy, PartialEq, Eq, Structural)]
pub enum PatternReliability {
    VeryHigh,
    High,
    Medium,
    Low,
    VeryLow,
}

/// Direction a recognised pattern points to.
#[derive(Debug, Clone, Copy, PartialEq, Eq, Structural)]
pub enum PatternSignal {
    StrongBullish,
    Bullish,
    Neutral,
    Bearish,
    StrongBearish,
}

/// Reliability attached to a multi-candle pattern on its own.
pub open spec fn multi_pattern_reliability(multi: MultiCandlePattern) -> PatternReliability {
    match multi {
        MultiCandlePattern::MorningStar | MultiCandlePattern::EveningStar => PatternReliability::VeryHigh,
        MultiCandlePattern::BullishEngulfing | MultiCandlePattern::BearishEngulfing
        | MultiCandlePattern::ThreeWhiteSoldiers | MultiCandlePattern::ThreeBlackCrows => PatternReliability::High,
        MultiCandlePattern::Harami => PatternReliability::Low,
        MultiCandlePattern::NoPattern => PatternReliability::VeryLow,
        _ => PatternReliability::Medium,
    }
}

/// Reliability attached to a single-candle pattern on its own.
pub open spec fn single_pattern_reliability(single: SingleCandlePattern) -> PatternReliability {
    match single {
        SingleCandlePattern::Marubozu => PatternReliability::High,
        SingleCandlePattern::Doji => PatternReliability::Low,
        SingleCandlePattern::SpinningTop | SingleCandlePattern::Normal => PatternReliability::VeryLow,
        _ => PatternReliability::Medium,
    }
}

/// A multi-candle pattern, when there is one, decides; otherwise the single
/// candle does.
pub open spec fn pattern_reliability(
    single: SingleCandlePattern,
    multi: MultiCandlePattern,
) -> PatternReliability {
    if multi == MultiCandlePattern::NoPattern {
        single_pattern_reliability(single)
    } else {
        multi_pattern_reliability(multi)
    }
}

/// Multi-candle patterns that announce a rise.
pub open spec fn is_bullish_multi(multi: MultiCandlePattern) -> bool {
    multi == MultiCandlePattern::BullishEngulfing || multi == MultiCandlePattern::PiercingPattern
        || multi == MultiCandlePattern::MorningStar || multi == MultiCandlePattern::ThreeWhiteSoldiers
        || multi == MultiCandlePattern::ThreeInsideUp || multi == MultiCandlePattern::TweezerBottom
}

/// Multi-candle patterns that announce a fall.
pub open spec fn is_bearish_multi(multi: MultiCandlePattern) -> bool {
    multi == MultiCandlePattern::BearishEngulfing || multi == MultiCandlePattern::DarkCloudCover
        || multi == MultiCandlePattern::EveningStar || multi == MultiCandlePattern::ThreeBlackCrows
        || multi == MultiCandlePattern::ThreeInsideDown || multi == MultiCandlePattern::TweezerTop
}

/// Single candles that announce a reversal at a bottom.
pub open spec fn is_bullish_single(single: SingleCandlePattern) -> bool {
    single == SingleCandlePattern::Hammer || single == SingleCandlePattern::InvertedHammer
        || single == SingleCandlePattern::DragonFlyDoji
}

/// Single candles that announce a reversal at a top.
pub open spec fn is_bearish_single(single: SingleCandlePattern) -> bool {
    single == SingleCandlePattern::HangingMan || single == SingleCandlePattern::ShootingStar
        || single == SingleCandlePattern::GravestoneDoji
}

/// Direction of a pattern: a directional multi-candle pattern gives a strong
/// signal, a directional single candle (without a multi-candle pattern) a plain
/// one, anything else is neutral.
pub open spec fn pattern_signal(single: SingleCandlePattern, multi: MultiCandlePattern) -> PatternSignal {
    if is_bullish_multi(multi) {
        PatternSignal::StrongBullish
    } else if is_bearish_multi(multi) {
        PatternSignal::StrongBearish
    } else if multi != MultiCandlePattern::NoPattern {
        PatternSignal::Neutral
    } else if is_bullish_single(single) {
        PatternSignal::Bullish
    } else if is_bearish_single(single) {
        PatternSignal::Bearish
    } else {
        PatternSignal::Neutral
    }
}

/// Grades how far a recognised pattern can be trusted.
pub fn calculate_pattern_reliability(
    single_pattern: &SingleCandlePattern,
    multi_pattern: &MultiCandlePattern,
) -> (r: PatternReliability)
    ensures
        r == pattern_reliability(*single_pattern, *multi_pattern),
{
    match multi_pattern {
        MultiCandlePattern::BullishEngulfing | MultiCandlePattern::BearishEngulfing => {
            PatternReliability::High
        },
        MultiCandlePattern::MorningStar | MultiCandlePattern::EveningStar => {
            PatternReliability::VeryHigh
        },
        MultiCandlePattern::ThreeWhiteSoldiers | MultiCandlePattern::ThreeBlackCrows => {
            PatternReliability::High
        },
        MultiCandlePattern::PiercingPattern | MultiCandlePattern::DarkCloudCover => {
            PatternReliability::Medium
        },
        MultiCandlePattern::ThreeInsideUp | MultiCandlePattern::ThreeInsideDown => {
            PatternReliability::Medium
        },
        MultiCandlePattern::TweezerTop | MultiCandlePattern::TweezerBottom => {
            PatternReliability::Medium
        },
        MultiCandlePattern::Harami => PatternReliability::Low,
        MultiCandlePattern::NoPattern => match single_pattern {
            SingleCandlePattern::Hammer | SingleCandlePattern::InvertedHammer => {
                PatternReliability::Medium
            },
            SingleCandlePattern::HangingMan | SingleCandlePattern::ShootingStar => {
                PatternReliability::Medium
            },
            SingleCandlePattern::GravestoneDoji | SingleCandlePattern::DragonFlyDoji => {
                PatternReliability::Medium
            },
            SingleCandlePattern::Marubozu => PatternReliability::High,
            SingleCandlePattern::Doji => PatternReliability::Low,
            SingleCandlePattern::SpinningTop => PatternReliability::VeryLow,
            SingleCandlePattern::Normal => PatternReliability::VeryLow,
        },
    }
}

/// Tells which way a recognised pattern points.
pub fn calculate_pattern_signal(
    single_pattern: &SingleCandlePattern,
    multi_pattern: &MultiCandlePattern,
) -> (r: PatternSignal)
    ensures
        r == pattern_signal(*single_pattern, *multi_pattern),
{
    match multi_pattern {
        MultiCandlePattern::BullishEngulfing
        | MultiCandlePattern::PiercingPattern
        | MultiCandlePattern::MorningStar
        | MultiCandlePattern::ThreeWhiteSoldiers
        | MultiCandlePattern::ThreeInsideUp
        | MultiCandlePattern::TweezerBottom => PatternSignal::StrongBullish,
        MultiCandlePattern::BearishEngulfing
        | MultiCandlePattern::DarkCloudCover
        | MultiCandlePattern::EveningStar
        | MultiCandlePattern::ThreeBlackCrows
        | MultiCandlePattern::ThreeInsideDown
        | MultiCandlePattern::TweezerTop => PatternSignal::StrongBearish,
        MultiCandlePattern::Harami => PatternSignal::Neutral,
        MultiCandlePattern::NoPattern => match single_pattern {
            SingleCandlePattern::Hammer
            | SingleCandlePattern::InvertedHammer
            | SingleCandlePattern::DragonFlyDoji => PatternSignal::Bullish,
            SingleCandlePattern::HangingMan
            | SingleCandlePattern::ShootingStar
            | SingleCandlePattern::GravestoneDoji => PatternSignal::Bearish,
            SingleCandlePattern::Marubozu
            | SingleCandlePattern::Doji
            | SingleCandlePattern::SpinningTop
            | SingleCandlePattern::Normal => PatternSignal::Neutral,
        },
    }
}

/// The bearish counterpart of a single candle (and back); symmetric candles
/// are their own counterpart.
pub open spec fn mirror_single(single: SingleCandlePattern) -> SingleCandlePattern {
    match single {
        SingleCandlePattern::Hammer => SingleCandlePattern::HangingMan,
        SingleCandlePattern::HangingMan => SingleCandlePattern::Hammer,
        SingleCandlePattern::InvertedHammer => SingleCandlePattern::ShootingStar,
        SingleCandlePattern::ShootingStar => SingleCandlePattern::InvertedHammer,
        SingleCandlePattern::DragonFlyDoji => SingleCandlePattern::GravestoneDoji,
        SingleCandlePattern::GravestoneDoji => SingleCandlePattern::DragonFlyDoji,
        _ => single,
    }
}

/// The bearish counterpart of a multi-candle pattern (and back).
pub open spec fn mirror_multi(multi: MultiCandlePattern) -> MultiCandlePattern {
    match multi {
        MultiCandlePattern::BullishEngulfing => MultiCandlePattern::BearishEngulfing,
        MultiCandlePattern::BearishEngulfing => MultiCandlePattern::BullishEngulfing,
        MultiCandlePattern::PiercingPattern => MultiCandlePattern::DarkCloudCover,
        MultiCandlePattern::DarkCloudCover => MultiCandlePattern::PiercingPattern,
        MultiCandlePattern::MorningStar => MultiCandlePattern::EveningStar,
        MultiCandlePattern::EveningStar => MultiCandlePattern::MorningStar,
        MultiCandlePattern::ThreeWhiteSoldiers => MultiCandlePattern::ThreeBlackCrows,
        MultiCandlePattern::ThreeBlackCrows => MultiCandlePattern::ThreeWhiteSoldiers,
        MultiCandlePattern::ThreeInsideUp => MultiCandlePattern::ThreeInsideDown,
        MultiCandlePattern::ThreeInsideDown => MultiCandlePattern::ThreeInsideUp,
        MultiCandlePattern::TweezerBottom => MultiCandlePattern::TweezerTop,
        MultiCandlePattern::TweezerTop => MultiCandlePattern::TweezerBottom,
        _ => multi,
    }
}

/// The opposite direction of a signal.
pub open spec fn mirror_signal(signal: PatternSignal) -> PatternSignal {
    match signal {
        PatternSignal::StrongBullish => PatternSignal::StrongBearish,
        PatternSignal::Bullish => PatternSignal::Bearish,
        PatternSignal::Neutral => PatternSignal::Neutral,
        PatternSignal::Bearish => PatternSignal::Bullish,
        PatternSignal::StrongBearish => PatternSignal::StrongBullish,
    }
}

/// Once a multi-candle pattern is recognised, the single candle no longer
/// changes the reliability nor the signal.
pub proof fn lemma_multi_pattern_takes_precedence(
    single_a: SingleCandlePattern,
    single_b: SingleCandlePattern,
    multi: MultiCandlePattern,
)
    requires
        multi != MultiCandlePattern::NoPattern,
    ensures
        pattern_reliability(single_a, multi) == pattern_reliability(single_b, multi),
        pattern_signal(single_a, multi) == pattern_signal(single_b, multi),
{
}

/// Bullish and bearish counterparts are graded alike: the mirrored patterns
/// have the same reliability and the opposite signal.
pub proof fn lemma_mirror_symmetry(single: SingleCandlePattern, multi: MultiCandlePattern)
    ensures
        pattern_reliability(mirror_single(single), mirror_multi(multi)) == pattern_reliability(
            single,
            multi,
        ),
        pattern_signal(mirror_single(single), mirror_multi(multi)) == mirror_signal(
            pattern_signal(single, multi),
        ),
        mirror_single(mirror_single(single)) == single,
        mirror_multi(mirror_multi(multi)) == multi,
{
}

/// A strong signal needs a directional multi-candle pattern: a strong bullish
/// signal comes exactly from a bullish engulfing, piercing pattern, morning
/// star, three white soldiers, three inside up or tweezer bottom, a strong
/// bearish one exactly from their bearish counterparts, whatever the single
/// candle; and only a morning or evening star is graded very high.
pub proof fn lemma_strong_signal_needs_multi_pattern(
    single: SingleCandlePattern,
    multi: MultiCandlePattern,
)
    ensures
        pattern_signal(single, multi) == PatternSignal::StrongBullish <==> (multi == MultiCandlePattern::BullishEngulfing || multi == MultiCandlePattern::PiercingPattern || multi == MultiCandlePattern::MorningStar || multi == MultiCandlePattern::ThreeWhiteSoldiers || multi == MultiCandlePattern::ThreeInsideUp || multi == MultiCandlePattern::TweezerBottom),
        pattern_signal(single, multi) == PatternSignal::StrongBearish <==> (multi == MultiCandlePattern::BearishEngulfing || multi == MultiCandlePattern::DarkCloudCover || multi == MultiCandlePattern::EveningStar || multi == MultiCandlePattern::ThreeBlackCrows || multi == MultiCandlePattern::ThreeInsideDown || multi == MultiCandlePattern::TweezerTop),
        pattern_reliability(single, multi) == PatternReliability::VeryHigh <==> (multi == MultiCandlePattern::MorningStar || multi == MultiCandlePattern::EveningStar),
{
}

/// Without a multi-candle pattern the single candle decides the direction:
/// a hammer, an inverted hammer or a dragonfly doji is bullish; a hanging
/// man, a shooting star or a gravestone doji is bearish; a marubozu, a doji,
/// a spinning top or an ordinary candle is neutral.
pub proof fn lemma_single_candle_signal(single: SingleCandlePattern)
    ensures
        pattern_signal(single, MultiCandlePattern::NoPattern) == PatternSignal::Bullish <==> (single == SingleCandlePattern::Hammer || single == SingleCandlePattern::InvertedHammer || single == SingleCandlePattern::DragonFlyDoji),
        pattern_signal(single, MultiCandlePattern::NoPattern) == PatternSignal::Bearish <==> (single == SingleCandlePattern::HangingMan || single == SingleCandlePattern::ShootingStar || single == SingleCandlePattern::GravestoneDoji),
        pattern_signal(single, MultiCandlePattern::NoPattern) == PatternSignal::Neutral <==> (single == SingleCandlePattern::Marubozu || single == SingleCandlePattern::Doji || single == SingleCandlePattern::SpinningTop || single == SingleCandlePattern::Normal),
        pattern_signal(single, MultiCandlePattern::NoPattern) != PatternSignal::StrongBullish,
        pattern_signal(single, MultiCandlePattern::NoPattern) != PatternSignal::StrongBearish,
{
}

/// Without a multi-candle pattern the single candle decides the grade: every
/// hammer- or doji-type reversal candle (hammer, inverted hammer, hanging man,
/// shooting star, gravestone doji, dragonfly doji) is medium, a marubozu high,
/// a plain doji low, a spinning top or an ordinary candle very low.
pub proof fn lemma_single_candle_reliability(single: SingleCandlePattern)
    ensures
        pattern_reliability(single, MultiCandlePattern::NoPattern) == PatternReliability::Medium <==> (single == SingleCandlePattern::Hammer || single == SingleCandlePattern::InvertedHammer || single == SingleCandlePattern::HangingMan || single == SingleCandlePattern::ShootingStar || single == SingleCandlePattern::GravestoneDoji || single == SingleCandlePattern::DragonFlyDoji),
        pattern_reliability(single, MultiCandlePattern::NoPattern) == PatternReliability::High <==> single == SingleCandlePattern::Marubozu,
        pattern_reliability(single, MultiCandlePattern::NoPattern) == PatternReliability::Low <==> single == SingleCandlePattern::Doji,
        pattern_reliability(single, MultiCandlePattern::NoPattern) == PatternReliability::VeryLow <==> (single == SingleCandlePattern::SpinningTop || single == SingleCandlePattern::Normal),
        pattern_reliability(single, MultiCandlePattern::NoPattern) != PatternReliability::VeryHigh,
{
}

/// The grade of each multi-candle pattern, whatever the single candle: morning
/// and evening stars very high; engulfings, three white soldiers and three
/// black crows high; piercing pattern, dark cloud cover, three inside up and
/// down, tweezer top and bottom medium; harami low.
pub proof fn lemma_multi_pattern_reliability(single: SingleCandlePattern, multi: MultiCandlePattern)
    ensures
        pattern_reliability(single, multi) == PatternReliability::VeryHigh <==> (multi == MultiCandlePattern::MorningStar || multi == MultiCandlePattern::EveningStar),
        pattern_reliability(single, multi) == PatternReliability::High <==> (multi == MultiCandlePattern::BullishEngulfing || multi == MultiCandlePattern::BearishEngulfing || multi == MultiCandlePattern::ThreeWhiteSoldiers || multi == MultiCandlePattern::ThreeBlackCrows) || (multi == MultiCandlePattern::NoPattern && single == SingleCandlePattern::Marubozu),
        multi != MultiCandlePattern::NoPattern ==> (pattern_reliability(single, multi) == PatternReliability::Medium <==> (multi == MultiCandlePattern::PiercingPattern || multi == MultiCandlePattern::DarkCloudCover || multi == MultiCandlePattern::ThreeInsideUp || multi == MultiCandlePattern::ThreeInsideDown || multi == MultiCandlePattern::TweezerTop || multi == MultiCandlePattern::TweezerBottom)),
        multi != MultiCandlePattern::NoPattern ==> (pattern_reliability(single, multi) == PatternReliability::Low <==> multi == MultiCandlePattern::Harami),
        multi != MultiCandlePattern::NoPattern ==> pattern_reliability(single, multi) != PatternReliability::VeryLow,
{
}

/// A harami gives a neutral signal whatever the single candle.
pub proof fn lemma_harami_is_neutral(single: SingleCandlePattern)
    ensures
        pattern_signal(single, MultiCandlePattern::Harami) == PatternSignal::Neutral,
        pattern_reliability(single, MultiCandlePattern::Harami) == PatternReliability::Low,
{
}

} // verus!
