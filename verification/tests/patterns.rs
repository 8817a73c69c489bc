use trading_strategy::indicator::candle_pattern::{
    calculate_pattern_reliability, calculate_pattern_signal, MultiCandlePattern,
    PatternReliability, PatternSignal, SingleCandlePattern,
};
use trading_strategy::indicator::market_structure::{
    detect_structure_change, MarketStructure, StructureChange,
};
use trading_strategy::indicator::orderbook::MarketPressure;

#[test]
fn reliability_of_multi_candle_patterns() {
    let s = SingleCandlePattern::Marubozu;
    assert_eq!(
        calculate_pattern_reliability(&s, &MultiCandlePattern::MorningStar),
        PatternReliability::VeryHigh
    );
    assert_eq!(
        calculate_pattern_reliability(&s, &MultiCandlePattern::BearishEngulfing),
        PatternReliability::High
    );
    assert_eq!(
        calculate_pattern_reliability(&s, &MultiCandlePattern::ThreeWhiteSoldiers),
        PatternReliability::High
    );
    assert_eq!(
        calculate_pattern_reliability(&s, &MultiCandlePattern::TweezerTop),
        PatternReliability::Medium
    );
    assert_eq!(
        calculate_pattern_reliability(&s, &MultiCandlePattern::PiercingPattern),
        PatternReliability::Medium
    );
    assert_eq!(
        calculate_pattern_reliability(&s, &MultiCandlePattern::Harami),
        PatternReliability::Low
    );
}

#[test]
fn reliability_falls_back_to_single_candle() {
    let none = MultiCandlePattern::NoPattern;
    assert_eq!(
        calculate_pattern_reliability(&SingleCandlePattern::Marubozu, &none),
        PatternReliability::High
    );
    assert_eq!(
        calculate_pattern_reliability(&SingleCandlePattern::Hammer, &none),
        PatternReliability::Medium
    );
    assert_eq!(
        calculate_pattern_reliability(&SingleCandlePattern::GravestoneDoji, &none),
        PatternReliability::Medium
    );
    assert_eq!(
        calculate_pattern_reliability(&SingleCandlePattern::Doji, &none),
        PatternReliability::Low
    );
    assert_eq!(
        calculate_pattern_reliability(&SingleCandlePattern::SpinningTop, &none),
        PatternReliability::VeryLow
    );
    assert_eq!(
        calculate_pattern_reliability(&SingleCandlePattern::Normal, &none),
        PatternReliability::VeryLow
    );
}

#[test]
fn signal_of_patterns() {
    let none = MultiCandlePattern::NoPattern;
    assert_eq!(
        calculate_pattern_signal(&SingleCandlePattern::Normal, &MultiCandlePattern::BullishEngulfing),
        PatternSignal::StrongBullish
    );
    assert_eq!(
        calculate_pattern_signal(&SingleCandlePattern::Hammer, &MultiCandlePattern::EveningStar),
        PatternSignal::StrongBearish
    );
    assert_eq!(
        calculate_pattern_signal(&SingleCandlePattern::Hammer, &MultiCandlePattern::Harami),
        PatternSignal::Neutral
    );
    assert_eq!(
        calculate_pattern_signal(&SingleCandlePattern::DragonFlyDoji, &none),
        PatternSignal::Bullish
    );
    assert_eq!(
        calculate_pattern_signal(&SingleCandlePattern::ShootingStar, &none),
        PatternSignal::Bearish
    );
    assert_eq!(
        calculate_pattern_signal(&SingleCandlePattern::Marubozu, &none),
        PatternSignal::Neutral
    );
}

#[test]
fn mirrored_patterns_grade_alike() {
    let pairs = [
        (MultiCandlePattern::BullishEngulfing, MultiCandlePattern::BearishEngulfing),
        (MultiCandlePattern::PiercingPattern, MultiCandlePattern::DarkCloudCover),
        (MultiCandlePattern::MorningStar, MultiCandlePattern::EveningStar),
        (MultiCandlePattern::ThreeWhiteSoldiers, MultiCandlePattern::ThreeBlackCrows),
        (MultiCandlePattern::ThreeInsideUp, MultiCandlePattern::ThreeInsideDown),
        (MultiCandlePattern::TweezerBottom, MultiCandlePattern::TweezerTop),
    ];
    let s = SingleCandlePattern::Normal;
    for (up, down) in pairs.iter() {
        assert_eq!(
            calculate_pattern_reliability(&s, up),
            calculate_pattern_reliability(&s, down)
        );
        assert_eq!(calculate_pattern_signal(&s, up), PatternSignal::StrongBullish);
        assert_eq!(calculate_pattern_signal(&s, down), PatternSignal::StrongBearish);
    }
}

#[test]
fn market_pressure_direction() {
    assert!(MarketPressure::StrongBuy.is_bullish());
    assert!(MarketPressure::ModerateBuy.is_bullish());
    assert!(!MarketPressure::Neutral.is_bullish());
    assert!(!MarketPressure::StrongSell.is_bullish());
    assert!(MarketPressure::StrongSell.is_bearish());
    assert!(MarketPressure::ModerateSell.is_bearish());
    assert!(!MarketPressure::Neutral.is_bearish());
    assert!(!MarketPressure::ModerateBuy.is_bearish());
}

#[test]
fn structure_change_on_trend_flips() {
    let up = MarketStructure::Uptrend;
    let down = MarketStructure::Downtrend;
    assert_eq!(detect_structure_change(true, Some(&up), down), StructureChange::BullishBOS);
    assert_eq!(detect_structure_change(false, Some(&up), down), StructureChange::BearishCHoCH);
    assert_eq!(detect_structure_change(true, Some(&down), up), StructureChange::BearishBOS);
    assert_eq!(detect_structure_change(false, Some(&down), up), StructureChange::BullishCHoCH);
}

#[test]
fn structure_change_without_flip_is_none() {
    assert_eq!(
        detect_structure_change(true, None, MarketStructure::Uptrend),
        StructureChange::NoChange
    );
    assert_eq!(
        detect_structure_change(true, Some(&MarketStructure::Uptrend), MarketStructure::Uptrend),
        StructureChange::NoChange
    );
    assert_eq!(
        detect_structure_change(true, Some(&MarketStructure::Sideways), MarketStructure::Downtrend),
        StructureChange::NoChange
    );
}
