//! The data the trading core reads and produces.
//!
//! Prices, sizes and P&L are [`Amount`]s; times are milliseconds since the
//! Unix epoch, in UTC.

use crate::amount::Amount;
use vstd::prelude::*;

verus! {

/// What a signal asks for.
#[allow(non_camel_case_types)]
#[derive(Debug, Clone, Copy, PartialEq, Eq, Structural)]
pub enum SignalType {
    BUY,
    SELL_PARTIAL,
    SELL_FULL,
    STOP_LOSS,
}

/// The direction of a position.
#[derive(Debug, Clone, Copy, PartialEq, Eq, Structural)]
pub enum TradeType {
    LONG,
    SHORT,
}

/// Where a token's position stands in its lifecycle. `CLOSED` and
/// `CANCELLED` are terminal.
#[derive(Debug, Clone, Copy, PartialEq, Eq, Structural)]
pub enum PositionStatus {
    NONE,
    OPEN,
    CLOSED,
    CANCELLED,
}

/// What an alert is about.
#[allow(non_camel_case_types)]
#[derive(Debug, Clone, Copy, PartialEq, Eq, Structural)]
pub enum AlertType {
    TOKEN_DISCOVERED,
    RISK_ALERT,
    TRADE_EXECUTED,
    EMERGENCY_STOP,
    SIGNAL_GENERATED,
}

/// How serious an alert is.
#[derive(Debug, Clone, Copy, PartialEq, Eq, Structural)]
pub enum AlertSeverity {
    INFO,
    WARNING,
    ERROR,
    CRITICAL,
}

/// A tradable mint.
#[derive(Debug, Clone)]
pub struct Token {
    pub id: i32,
    pub mint_address: String,
    pub name: Option<String>,
    pub symbol: Option<String>,
    pub description: Option<String>,
    pub bonding_curve_cap: Option<i64>,
    pub created_at: i64,
    pub updated_at: i64,
    pub last_seen: Option<i64>,
    pub is_active: bool,
    pub risk_score: Option<Amount>,
    pub organic_score: Option<Amount>,
    pub scam_detected: bool,
    pub liquidity_verified: bool,
}

/// One observation of a token's market.
#[derive(Debug, Clone, Copy)]
pub struct MarketDataTick {
    pub time: i64,
    pub token_id: i32,
    pub price: Amount,
    pub volume_24h: Option<Amount>,
    pub market_cap: Option<Amount>,
    pub buy_volume: Option<Amount>,
    pub sell_volume: Option<Amount>,
    pub trade_count: Option<i32>,
}

/// A closed one-second candle.
#[derive(Debug, Clone, Copy)]
pub struct Candlestick1s {
    pub time: i64,
    pub token_id: i32,
    pub open: Amount,
    pub high: Amount,
    pub low: Amount,
    pub close: Amount,
    pub volume: Amount,
    pub trade_count: i32,
}

/// A closed fifteen-second candle.
#[derive(Debug, Clone, Copy)]
pub struct Candlestick15s {
    pub time: i64,
    pub token_id: i32,
    pub open: Amount,
    pub high: Amount,
    pub low: Amount,
    pub close: Amount,
    pub volume: Amount,
    pub trade_count: i32,
}

/// A signal as it is stored: once written, it changes only when its
/// execution is confirmed.
#[derive(Debug, Clone)]
pub struct TradingSignal {
    pub id: i32,
    pub token_id: i32,
    pub signal_type: SignalType,
    pub signal_strength: Option<Amount>,
    pub entry_price: Option<Amount>,
    pub target_price: Option<Amount>,
    pub stop_loss: Option<Amount>,
    pub fibonacci_level: Option<Amount>,
    pub generated_at: i64,
    pub is_executed: bool,
    pub executed_at: Option<i64>,
    pub reason: Option<String>,
}

/// A trade from entry to exit. Sizes are notional; `claimed_tiers` counts the
/// Fibonacci tiers that the price has already reached.
#[derive(Debug, Clone, Copy)]
pub struct Position {
    pub id: i32,
    pub token_id: i32,
    pub signal_id: Option<i32>,
    pub trade_type: TradeType,
    pub entry_price: Amount,
    pub entry_size: Amount,
    pub current_price: Option<Amount>,
    pub current_size: Amount,
    pub entry_timestamp: i64,
    pub exit_timestamp: Option<i64>,
    pub status: PositionStatus,
    pub realized_pnl: Option<Amount>,
    pub unrealized_pnl: Option<Amount>,
    pub trailing_stop_price: Option<Amount>,
    pub hard_stop_loss: Option<Amount>,
    pub fibonacci_target: Option<Amount>,
    pub claimed_tiers: usize,
}

/// A notification for whoever delivers them.
#[derive(Debug, Clone)]
pub struct Alert {
    pub id: i32,
    pub token_id: Option<i32>,
    pub alert_type: AlertType,
    pub severity: AlertSeverity,
    pub message: String,
    pub created_at: i64,
    pub is_read: bool,
}

/// The snapshot of one token that one evaluation works on.
#[derive(Debug, Clone)]
pub struct TradingContext {
    pub token_id: i32,
    pub mint_address: String,
    pub current_market_cap: Amount,
    pub bonding_curve_cap: Option<Amount>,
    pub entry_price: Option<Amount>,
    pub current_price: Amount,
    pub position_status: PositionStatus,
    pub last_candle_1s: Option<Candlestick1s>,
    pub last_candle_15s: Option<Candlestick15s>,
    pub recent_high: Amount,
    pub recent_low: Amount,
}

/// The decision to open a position.
#[derive(Debug, Clone)]
pub struct EntrySignal {
    pub token_id: i32,
    pub mint_address: String,
    pub signal_type: SignalType,
    pub entry_price: Amount,
    pub target_price: Amount,
    pub stop_loss: Amount,
    pub reason: String,
    pub generated_at: i64,
}

/// The decision to reduce or close a position. `exit_fraction` is the part
/// of the size held that is to be sold.
#[derive(Debug, Clone)]
pub struct ExitSignal {
    pub token_id: i32,
    pub mint_address: String,
    pub signal_type: SignalType,
    pub exit_price: Amount,
    pub exit_fraction: Amount,
    pub exit_reason: String,
    pub generated_at: i64,
    pub fibonacci_level: Option<Amount>,
}

/// Why the core did not do what was asked. An entry that a portfolio guard
/// refuses is no error: it is an outcome of its own, with an alert.
#[derive(Debug, Clone, Copy, PartialEq, Eq, Structural)]
pub enum CoreError {
    /// Too little market data to build a context: skip the token this cycle.
    InsufficientData,
    /// The transition has no place in the position's lifecycle.
    InvalidState,
    /// The thresholds are malformed.
    ConfigurationInvalid,
}

} // verus!
