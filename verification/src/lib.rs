//! Trading decision core: entry and exit detection, Fibonacci targets and the
//! position state machine, over exact decimal amounts.

pub mod amount;
mod clock;
pub mod config;
pub mod engine;
pub mod models;
pub mod signals;
pub mod trading;

pub use amount::Amount;
pub use config::{Config, Percentage, TradingConfig};
pub use engine::{CycleReport, EngineStatus, TradingEngine};
pub use models::{
    Alert, AlertSeverity, AlertType, Candlestick15s, Candlestick1s, CoreError, EntrySignal,
    ExitSignal, MarketDataTick, Position, PositionStatus, SignalType, Token, TradeType,
    TradingContext, TradingSignal,
};
