//! The detectors, the Fibonacci calculator and the trade state manager.

pub mod context;
pub mod entry;
pub mod exit;
pub mod fibonacci;
pub mod state;

pub use entry::EntryDetector;
pub use exit::ExitDetector;
pub use fibonacci::FibonacciCalculator;
pub use state::TradeStateManager;
