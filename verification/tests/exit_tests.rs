use solana_trading_bot_engine::amount::Amount;
use solana_trading_bot_engine::config::TradingConfig;
use solana_trading_bot_engine::models::{
    Position, PositionStatus, SignalType, TradeType, TradingContext,
};
use solana_trading_bot_engine::trading::exit::{
    crossed_tiers, tier_fraction, ExitDecision, ExitDetector,
};
use solana_trading_bot_engine::trading::fibonacci::FibonacciCalculator;

fn dec(num: i64, scale: u32) -> Amount {
    Amount::new(num, scale)
}

fn context(price: i64) -> TradingContext {
    TradingContext {
        token_id: 7,
        mint_address: "mint".to_string(),
        current_market_cap: dec(price, 0),
        bonding_curve_cap: None,
        entry_price: Some(dec(100000, 0)),
        current_price: dec(price, 0),
        position_status: PositionStatus::OPEN,
        last_candle_1s: None,
        last_candle_15s: None,
        recent_high: dec(price, 0),
        recent_low: dec(price, 0),
    }
}

fn position() -> Position {
    Position {
        id: 1,
        token_id: 7,
        signal_id: None,
        trade_type: TradeType::LONG,
        entry_price: dec(100000, 0),
        entry_size: dec(500, 0),
        current_price: Some(dec(100000, 0)),
        current_size: dec(500, 0),
        entry_timestamp: 10,
        exit_timestamp: None,
        status: PositionStatus::OPEN,
        realized_pnl: None,
        unrealized_pnl: None,
        trailing_stop_price: None,
        hard_stop_loss: Some(dec(60000, 0)),
        fibonacci_target: Some(dec(161800, 0)),
        claimed_tiers: 0,
    }
}

#[test]
fn hard_stop_comes_first() {
    let detector = ExitDetector::new(TradingConfig::default());
    let e = detector.evaluate_at(&context(59000), &position(), 77);
    assert_eq!(e.decision, ExitDecision::HardStop);
    let s = e.signal.unwrap();
    assert_eq!(s.signal_type, SignalType::STOP_LOSS);
    assert_eq!(s.exit_price, dec(59000, 0));
    assert_eq!(s.exit_fraction, dec(1, 0));
    assert_eq!(s.exit_reason, "hard stop loss reached");
    assert_eq!(s.generated_at, 77);
    assert_eq!(s.token_id, 7);
    assert_eq!(s.mint_address, "mint");
    assert_eq!(s.fibonacci_level, None);
}

#[test]
fn hard_stop_wins_over_trailing_stop_and_tiers() {
    let detector = ExitDetector::new(TradingConfig::default());
    let mut p = position();
    p.trailing_stop_price = Some(dec(150000, 0));
    p.claimed_tiers = 2;
    let e = detector.evaluate_at(&context(59000), &p, 1);
    assert_eq!(e.decision, ExitDecision::HardStop);
    assert_eq!(e.signal.unwrap().signal_type, SignalType::STOP_LOSS);
    let mut q = position();
    q.hard_stop_loss = Some(dec(400000, 0));
    let e = detector.evaluate_at(&context(370000), &q, 1);
    assert_eq!(e.decision, ExitDecision::HardStop);
    assert_eq!(e.claimed_tiers, 3);
}

#[test]
fn hard_stop_at_the_stop_price() {
    let detector = ExitDetector::new(TradingConfig::default());
    assert_eq!(detector.evaluate_at(&context(60000), &position(), 1).decision, ExitDecision::HardStop);
    assert_eq!(detector.evaluate_at(&context(60001), &position(), 1).decision, ExitDecision::Hold);
}

#[test]
fn nothing_to_do_between_stop_and_first_tier() {
    let detector = ExitDetector::new(TradingConfig::default());
    let e = detector.evaluate_at(&context(120000), &position(), 1);
    assert_eq!(e.decision, ExitDecision::Hold);
    assert!(e.signal.is_none());
    assert_eq!(e.trailing_stop_price, Some(dec(90000, 0)));
    assert_eq!(e.claimed_tiers, 0);
}

#[test]
fn first_tier_sells_a_part() {
    let detector = ExitDetector::new(TradingConfig::default());
    let e = detector.evaluate_at(&context(161800), &position(), 5);
    assert_eq!(e.decision, ExitDecision::Tier { index: 0, last: false });
    assert_eq!(e.claimed_tiers, 1);
    let s = e.signal.unwrap();
    assert_eq!(s.signal_type, SignalType::SELL_PARTIAL);
    assert_eq!(s.exit_fraction, dec(3, 1));
    assert_eq!(s.fibonacci_level, Some(dec(1618, 3)));
    assert_eq!(s.exit_reason, "Fibonacci tier reached");
    assert_eq!(s.exit_price, dec(161800, 0));
    let below = detector.evaluate_at(&context(161799), &position(), 5);
    assert_eq!(below.decision, ExitDecision::Hold);
}

#[test]
fn second_tier_sells_half() {
    let detector = ExitDetector::new(TradingConfig::default());
    let mut p = position();
    p.claimed_tiers = 1;
    p.trailing_stop_price = Some(dec(150000, 0));
    let e = detector.evaluate_at(&context(270000), &p, 5);
    assert_eq!(e.decision, ExitDecision::Tier { index: 1, last: false });
    assert_eq!(e.claimed_tiers, 2);
    let s = e.signal.unwrap();
    assert_eq!(s.signal_type, SignalType::SELL_PARTIAL);
    assert_eq!(s.exit_fraction, dec(5, 1));
    assert_eq!(s.fibonacci_level, Some(dec(2618, 3)));
}

#[test]
fn final_tier_sells_all() {
    let detector = ExitDetector::new(TradingConfig::default());
    let mut p = position();
    p.claimed_tiers = 2;
    let e = detector.evaluate_at(&context(361800), &p, 5);
    assert_eq!(e.decision, ExitDecision::Tier { index: 2, last: true });
    assert_eq!(e.claimed_tiers, 3);
    let s = e.signal.unwrap();
    assert_eq!(s.signal_type, SignalType::SELL_FULL);
    assert_eq!(s.exit_fraction, dec(1, 0));
    assert_eq!(s.fibonacci_level, Some(dec(3618, 3)));
    assert_eq!(s.exit_reason, "final Fibonacci tier reached");
}

#[test]
fn a_jump_over_tiers_claims_them_all() {
    let detector = ExitDetector::new(TradingConfig::default());
    let e = detector.evaluate_at(&context(300000), &position(), 5);
    assert_eq!(e.decision, ExitDecision::Tier { index: 1, last: false });
    assert_eq!(e.claimed_tiers, 2);
    let f = detector.evaluate_at(&context(400000), &position(), 5);
    assert_eq!(f.decision, ExitDecision::Tier { index: 2, last: true });
    assert_eq!(f.claimed_tiers, 3);
}

#[test]
fn a_claimed_tier_is_not_signalled_again() {
    let detector = ExitDetector::new(TradingConfig::default());
    let mut p = position();
    let first = detector.evaluate_at(&context(170000), &p, 5);
    assert_eq!(first.decision, ExitDecision::Tier { index: 0, last: false });
    p.claimed_tiers = first.claimed_tiers;
    p.trailing_stop_price = first.trailing_stop_price;
    let second = detector.evaluate_at(&context(171000), &p, 6);
    assert_eq!(second.decision, ExitDecision::Hold);
    assert!(second.signal.is_none());
    assert_eq!(second.claimed_tiers, 1);
}

#[test]
fn trailing_stop_rises_with_the_price_and_never_falls() {
    let detector = ExitDetector::new(TradingConfig::default());
    let mut p = position();
    p.claimed_tiers = 1;
    let mut stops = Vec::new();
    for price in [170000, 200000, 190000, 160000] {
        let e = detector.evaluate_at(&context(price), &p, 5);
        assert_eq!(e.decision, ExitDecision::Hold);
        p.trailing_stop_price = e.trailing_stop_price;
        p.claimed_tiers = e.claimed_tiers;
        stops.push(e.trailing_stop_price.unwrap());
    }
    assert_eq!(stops[0], dec(127500, 0));
    assert_eq!(stops[1], dec(150000, 0));
    assert_eq!(stops[2], dec(150000, 0));
    assert_eq!(stops[3], dec(150000, 0));
}

#[test]
fn trailing_stop_sells_all_after_a_tier() {
    let detector = ExitDetector::new(TradingConfig::default());
    let mut p = position();
    p.claimed_tiers = 1;
    p.trailing_stop_price = Some(dec(150000, 0));
    let e = detector.evaluate_at(&context(150000), &p, 9);
    assert_eq!(e.decision, ExitDecision::TrailingStop);
    let s = e.signal.unwrap();
    assert_eq!(s.signal_type, SignalType::SELL_FULL);
    assert_eq!(s.exit_fraction, dec(1, 0));
    assert_eq!(s.exit_reason, "trailing stop reached");
    assert_eq!(e.trailing_stop_price, Some(dec(150000, 0)));
}

#[test]
fn trailing_stop_waits_for_a_tier() {
    let detector = ExitDetector::new(TradingConfig::default());
    let mut p = position();
    p.trailing_stop_price = Some(dec(150000, 0));
    let e = detector.evaluate_at(&context(140000), &p, 9);
    assert_eq!(e.decision, ExitDecision::Hold);
    assert!(e.signal.is_none());
}

#[test]
fn a_position_that_is_not_open_is_left_alone() {
    let detector = ExitDetector::new(TradingConfig::default());
    let mut p = position();
    p.status = PositionStatus::CLOSED;
    p.trailing_stop_price = Some(dec(1, 0));
    let e = detector.evaluate_at(&context(59000), &p, 9);
    assert_eq!(e.decision, ExitDecision::Hold);
    assert!(e.signal.is_none());
    assert_eq!(e.trailing_stop_price, Some(dec(1, 0)));
    assert_eq!(e.claimed_tiers, 0);
}

#[test]
fn evaluate_stamps_the_time() {
    let detector = ExitDetector::new(TradingConfig::default());
    let e = detector.evaluate(&context(59000), &position());
    assert_eq!(e.decision, ExitDecision::HardStop);
    assert!(e.signal.unwrap().generated_at > 1_600_000_000_000);
}

#[test]
fn tier_fractions() {
    assert_eq!(tier_fraction(0).hundredths, 3000);
    assert_eq!(tier_fraction(1).hundredths, 5000);
    assert_eq!(tier_fraction(5).hundredths, 5000);
}

#[test]
fn crossed_tiers_counts_in_order() {
    let levels = vec![dec(1618, 3), dec(2618, 3), dec(3618, 3)];
    let t = FibonacciCalculator::targets(&dec(100000, 0), &levels).unwrap();
    assert_eq!(crossed_tiers(&t, &dec(100000, 0)), 0);
    assert_eq!(crossed_tiers(&t, &dec(161800, 0)), 1);
    assert_eq!(crossed_tiers(&t, &dec(261799, 0)), 1);
    assert_eq!(crossed_tiers(&t, &dec(261800, 0)), 2);
    assert_eq!(crossed_tiers(&t, &dec(999999, 0)), 3);
    assert_eq!(crossed_tiers(&Vec::new(), &dec(999999, 0)), 0);
}
