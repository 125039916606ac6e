use solana_trading_bot_engine::amount::Amount;
use solana_trading_bot_engine::config::{Percentage, TradingConfig};
use solana_trading_bot_engine::models::{
    Candlestick1s, PositionStatus, SignalType, TradingContext,
};
use solana_trading_bot_engine::trading::entry::{reaches_minimum_dip, EntryDetector};

fn dec(num: i64, scale: u32) -> Amount {
    Amount::new(num, scale)
}

fn context(recent_low: i64, market_cap: i64) -> TradingContext {
    TradingContext {
        token_id: 7,
        mint_address: "So11111111111111111111111111111111111111112".to_string(),
        current_market_cap: dec(market_cap, 0),
        bonding_curve_cap: None,
        entry_price: None,
        current_price: dec(1, 3),
        position_status: PositionStatus::NONE,
        last_candle_1s: None,
        last_candle_15s: None,
        recent_high: dec(market_cap, 0),
        recent_low: dec(recent_low, 0),
    }
}

fn candle(low: i64) -> Candlestick1s {
    Candlestick1s {
        time: 1_700_000_000_000,
        token_id: 7,
        open: dec(low + 10, 0),
        high: dec(low + 20, 0),
        low: dec(low, 0),
        close: dec(low + 5, 0),
        volume: dec(1, 0),
        trade_count: 3,
    }
}

#[test]
fn dip_and_reclaim_gives_a_buy() {
    let detector = EntryDetector::new(TradingConfig::default());
    let signal = detector.detect_entry_signal_at(&context(96000, 101000), 60, 1234).unwrap();
    assert_eq!(signal.signal_type, SignalType::BUY);
    assert_eq!(signal.token_id, 7);
    assert_eq!(signal.mint_address, "So11111111111111111111111111111111111111112");
    assert_eq!(signal.entry_price, dec(100000, 0));
    assert_eq!(signal.target_price, dec(161800, 0));
    assert_eq!(signal.stop_loss, dec(60000, 0));
    assert_eq!(signal.reason, "Dip and reclaim above 100000 (bonding curve cap)");
    assert_eq!(signal.generated_at, 1234);
}

#[test]
fn a_low_above_the_threshold_gives_nothing() {
    let detector = EntryDetector::new(TradingConfig::default());
    assert!(detector.detect_entry_signal_at(&context(98000, 101000), 60, 1).is_none());
}

#[test]
fn a_low_at_the_threshold_counts_as_a_dip() {
    let detector = EntryDetector::new(TradingConfig::default());
    assert!(detector.detect_entry_signal_at(&context(97000, 101000), 60, 1).is_some());
    assert!(detector.detect_entry_signal_at(&context(97001, 101000), 60, 1).is_none());
}

#[test]
fn without_a_reclaim_there_is_nothing() {
    let detector = EntryDetector::new(TradingConfig::default());
    assert!(detector.detect_entry_signal_at(&context(96000, 100000), 60, 1).is_none());
    assert!(detector.detect_entry_signal_at(&context(96000, 99000), 60, 1).is_none());
    assert!(detector.detect_entry_signal_at(&context(96000, 100001), 60, 1).is_some());
}

#[test]
fn a_token_with_a_position_gives_nothing() {
    let detector = EntryDetector::new(TradingConfig::default());
    for status in [PositionStatus::OPEN, PositionStatus::CLOSED, PositionStatus::CANCELLED] {
        let mut c = context(96000, 101000);
        c.position_status = status;
        assert!(detector.detect_entry_signal_at(&c, 60, 1).is_none());
    }
}

#[test]
fn the_low_of_the_latest_candle_counts_as_a_dip() {
    let detector = EntryDetector::new(TradingConfig::default());
    let mut c = context(98000, 101000);
    c.last_candle_1s = Some(candle(96500));
    assert!(detector.detect_entry_signal_at(&c, 60, 1).is_some());
    c.last_candle_1s = Some(candle(97500));
    assert!(detector.detect_entry_signal_at(&c, 60, 1).is_none());
}

#[test]
fn the_bonding_curve_cap_is_the_reference_where_known() {
    let detector = EntryDetector::new(TradingConfig::default());
    let mut c = context(72000, 76000);
    c.bonding_curve_cap = Some(dec(75000, 0));
    assert_eq!(detector.get_trading_reference_level(&c), dec(75000, 0));
    let signal = detector.detect_entry_signal_at(&c, 60, 5).unwrap();
    assert_eq!(signal.entry_price, dec(75000, 0));
    assert_eq!(signal.target_price, dec(121350, 0));
    assert_eq!(signal.stop_loss, dec(45000, 0));
    assert_eq!(signal.reason, "Dip and reclaim above 75000 (bonding curve cap)");
    c.bonding_curve_cap = None;
    assert_eq!(detector.get_trading_reference_level(&c), dec(100000, 0));
}

#[test]
fn the_entry_price_of_a_position_is_no_reference() {
    let detector = EntryDetector::new(TradingConfig::default());
    let mut c = context(96000, 101000);
    c.entry_price = Some(dec(5, 0));
    assert_eq!(detector.get_trading_reference_level(&c), dec(100000, 0));
}

#[test]
fn the_target_follows_the_first_configured_level() {
    let mut config = TradingConfig::default();
    config.fibonacci_levels = vec![dec(2, 0), dec(3, 0)];
    config.hard_stop_loss_percentage = Percentage::from_hundredths(2500);
    config.min_dip_percentage = Percentage::from_hundredths(1000);
    let detector = EntryDetector::new(config);
    assert!(detector.detect_entry_signal_at(&context(90001, 101000), 60, 1).is_none());
    let signal = detector.detect_entry_signal_at(&context(90000, 101000), 60, 1).unwrap();
    assert_eq!(signal.target_price, dec(200000, 0));
    assert_eq!(signal.stop_loss, dec(75000, 0));
}

#[test]
fn has_recent_dip_looks_at_low_and_candle() {
    let detector = EntryDetector::new(TradingConfig::default());
    let mut c = context(98000, 101000);
    assert!(!detector.has_recent_dip(&c, dec(97000, 0), 60));
    assert!(detector.has_recent_dip(&c, dec(98000, 0), 60));
    c.last_candle_1s = Some(candle(97000));
    assert!(detector.has_recent_dip(&c, dec(97000, 0), 60));
}

#[test]
fn create_entry_signal_at_a_level() {
    let detector = EntryDetector::new(TradingConfig::default());
    let signal = detector.create_entry_signal(&context(0, 0), dec(2000, 1), 99).unwrap();
    assert_eq!(signal.entry_price, dec(200, 0));
    assert_eq!(signal.target_price, dec(3236, 1));
    assert_eq!(signal.stop_loss, dec(120, 0));
    assert_eq!(signal.generated_at, 99);
    let big = Amount::from_parts(79228162514264337593543950335, 0).unwrap();
    assert!(detector.create_entry_signal(&context(0, 0), big, 99).is_none());
}

#[test]
fn validate_dip_holds_the_fall_against_the_minimum() {
    let detector = EntryDetector::new(TradingConfig::default());
    assert!(detector.validate_dip(dec(97000, 0), dec(100000, 0)));
    assert!(detector.validate_dip(dec(90000, 0), dec(100000, 0)));
    assert!(!detector.validate_dip(dec(97001, 0), dec(100000, 0)));
    assert!(!detector.validate_dip(dec(100000, 0), dec(100000, 0)));
    assert!(!detector.validate_dip(dec(100000, 0), dec(0, 0)));
}

#[test]
fn validate_dip_takes_the_minimum_as_configured() {
    let mut config = TradingConfig::default();
    config.min_dip_percentage = Percentage::from_hundredths(350);
    let detector = EntryDetector::new(config);
    assert!(!detector.validate_dip(dec(96800, 0), dec(100000, 0)));
    assert!(!detector.validate_dip(dec(97000, 0), dec(100000, 0)));
    assert!(!detector.validate_dip(dec(96501, 0), dec(100000, 0)));
    assert!(detector.validate_dip(dec(96500, 0), dec(100000, 0)));
    assert!(detector.validate_dip(dec(96000, 0), dec(100000, 0)));
}

#[test]
fn validate_dip_to_the_hundredth_of_a_percent() {
    let mut config = TradingConfig::default();
    config.min_dip_percentage = Percentage::from_hundredths(399);
    let detector = EntryDetector::new(config);
    assert!(!detector.validate_dip(dec(97000, 0), dec(100000, 0)));
    assert!(!detector.validate_dip(dec(96020, 0), dec(100000, 0)));
    assert!(detector.validate_dip(dec(96010, 0), dec(100000, 0)));
    assert!(detector.validate_dip(dec(96000, 0), dec(100000, 0)));
}

#[test]
fn a_fall_in_percent_against_the_minimum_dip() {
    let minimum = Percentage::from_hundredths(350);
    assert!(!reaches_minimum_dip(&dec(32, 1), minimum));
    assert!(!reaches_minimum_dip(&dec(3, 0), minimum));
    assert!(!reaches_minimum_dip(&dec(3499, 3), minimum));
    assert!(reaches_minimum_dip(&dec(35, 1), minimum));
    assert!(reaches_minimum_dip(&dec(3500, 3), minimum));
    assert!(reaches_minimum_dip(&dec(4, 0), minimum));
    assert!(reaches_minimum_dip(&dec(0, 0), Percentage::from_hundredths(0)));
    assert!(!reaches_minimum_dip(&dec(-1, 2), Percentage::from_hundredths(0)));
    assert!(reaches_minimum_dip(&dec(100, 0), Percentage::from_hundredths(10000)));
    assert!(!reaches_minimum_dip(&dec(9999, 2), Percentage::from_hundredths(10000)));
}

#[test]
fn validate_reclaim_is_strict() {
    let detector = EntryDetector::new(TradingConfig::default());
    assert!(detector.validate_reclaim(dec(100001, 0), dec(100000, 0)));
    assert!(!detector.validate_reclaim(dec(100000, 0), dec(100000, 0)));
    assert!(!detector.validate_reclaim(dec(99999, 0), dec(100000, 0)));
}

#[test]
fn detect_entry_signal_stamps_the_time() {
    let detector = EntryDetector::new(TradingConfig::default());
    let signal = detector.detect_entry_signal(&context(96000, 101000), 60).unwrap();
    assert!(signal.generated_at > 1_600_000_000_000);
    assert_eq!(signal.target_price, dec(161800, 0));
    assert!(detector.detect_entry_signal(&context(98000, 101000), 60).is_none());
}
