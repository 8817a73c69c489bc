use trading_strategy::indicator::price_reference_gap::{
    high_low_reference_window, required_candle_count,
};
use trading_strategy::ConfigError;

#[test]
fn required_candle_count_adds_up_parts() {
    assert_eq!(required_candle_count(20, false, 0, 1), 20);
    assert_eq!(required_candle_count(20, true, 0, 1), 21);
    assert_eq!(required_candle_count(20, true, 2, 3), 25);
    assert_eq!(required_candle_count(20, false, 0, 0), 20);
    assert_eq!(required_candle_count(0, false, 0, 0), 0);
}

#[test]
fn reference_window_with_current_candle_is_whole_window() {
    let window = [1, 2, 3];
    assert_eq!(high_low_reference_window(&window, true), Some(&window[..]));
    let empty: [i32; 0] = [];
    assert_eq!(high_low_reference_window(&empty, true), Some(&empty[..]));
}

#[test]
fn reference_window_without_current_candle_drops_last() {
    let window = [1, 2, 3];
    assert_eq!(high_low_reference_window(&window, false), Some(&window[..2]));
    assert_eq!(high_low_reference_window(&[7, 8], false), Some(&[7][..]));
    assert_eq!(high_low_reference_window(&[7], false), None);
    let empty: [i32; 0] = [];
    assert_eq!(high_low_reference_window(&empty, false), None);
}

#[test]
fn config_error_messages() {
    assert_eq!(
        ConfigError::FileError("없음".to_string()).to_string(),
        "설정 파일 오류: 없음"
    );
    assert_eq!(
        ConfigError::ParseError("bad".to_string()).to_string(),
        "설정 파싱 오류: bad"
    );
    assert_eq!(
        ConfigError::ValidationError("period".to_string()).to_string(),
        "설정 유효성 검사 오류: period"
    );
    let s: String = ConfigError::ParseError("x".to_string()).into();
    assert_eq!(s, "설정 파싱 오류: x");
}
