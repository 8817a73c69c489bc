use trading_strategy::indicator::ichimoku::IchimokuParams;
use trading_strategy::indicator::ma::{ma_periods_are_valid, MAType};
use trading_strategy::indicator::macd::MACDParams;
use trading_strategy::indicator::vwap::{VWAPParams, MAX_PERIOD_0_CAPACITY};
use trading_strategy::text::decimal_string;

#[test]
fn test_ichimoku_params_display() {
    let params = IchimokuParams {
        tenkan_period: 9,
        kijun_period: 26,
        senkou_period: 52,
    };

    assert_eq!(params.to_string(), "Ichimoku(9,26,52)");
}

#[test]
fn test_ma_type_display() {
    assert_eq!(MAType::EMA.to_string(), "EMA");
    assert_eq!(MAType::SMA.to_string(), "SMA");
    assert_eq!(MAType::WMA.to_string(), "WMA");
}

#[test]
fn test_macd_params_display() {
    let params = MACDParams {
        fast_period: 12,
        slow_period: 26,
        signal_period: 9,
    };

    assert_eq!(params.to_string(), "MACD(12,26,9)");
}

#[test]
fn test_vwap_params_new() {
    let params = VWAPParams::new(20);
    assert_eq!(params.period, 20);
}

#[test]
fn test_vwap_params_default() {
    let params = VWAPParams::default();
    assert_eq!(params.period, 0);
}

#[test]
fn test_vwap_params_display() {
    let params = VWAPParams::new(20);
    assert_eq!(params.to_string(), "VWAP(20)");
}

#[test]
fn vwap_params_display_of_zero_and_large_periods() {
    assert_eq!(VWAPParams::new(0).to_string(), "VWAP(0)");
    assert_eq!(VWAPParams::new(1000).to_string(), "VWAP(1000)");
}

#[test]
fn decimal_string_writes_base_ten() {
    assert_eq!(decimal_string(0), "0");
    assert_eq!(decimal_string(7), "7");
    assert_eq!(decimal_string(10), "10");
    assert_eq!(decimal_string(905), "905");
    assert_eq!(decimal_string(usize::MAX), usize::MAX.to_string());
}

#[test]
fn macd_and_ichimoku_display_other_values() {
    let macd = MACDParams {
        fast_period: 5,
        slow_period: 35,
        signal_period: 100,
    };
    assert_eq!(macd.to_string(), "MACD(5,35,100)");
    let ichimoku = IchimokuParams {
        tenkan_period: 0,
        kijun_period: 1,
        senkou_period: 10,
    };
    assert_eq!(ichimoku.to_string(), "Ichimoku(0,1,10)");
}

#[test]
fn vwap_window_keeps_last_period_candles() {
    let params = VWAPParams::new(3);
    assert_eq!(params.window_start(10), 7);
    assert_eq!(params.window_start(3), 0);
    assert_eq!(params.window_start(2), 0);
    assert_eq!(params.window_start(0), 0);
}

#[test]
fn vwap_window_with_period_zero_is_capped() {
    let params = VWAPParams::default();
    assert_eq!(MAX_PERIOD_0_CAPACITY, 500);
    assert_eq!(params.window_start(100), 0);
    assert_eq!(params.window_start(500), 0);
    assert_eq!(params.window_start(750), 250);
}

#[test]
fn ma_periods_must_be_positive_and_strictly_increasing() {
    assert!(ma_periods_are_valid(&[5, 10, 20]));
    assert!(ma_periods_are_valid(&[1]));
    assert!(!ma_periods_are_valid(&[]));
    assert!(!ma_periods_are_valid(&[0, 5]));
    assert!(!ma_periods_are_valid(&[5, 5]));
    assert!(!ma_periods_are_valid(&[10, 5, 20]));
    assert!(!ma_periods_are_valid(&[5, 10, 8]));
}
