//! Signals as they are stored: written once, and changed once more when
//! their execution is confirmed.

use crate::models::{EntrySignal, ExitSignal, TradingSignal};
use vstd::prelude::*;

verus! {

impl TradingSignal {
    /// The row for an entry signal, not executed yet.
    pub fn from_entry(id: i32, signal: &EntrySignal) -> (r: TradingSignal)
        ensures
            r.id == id,
            r.token_id == signal.token_id,
            r.signal_type == signal.signal_type,
            r.signal_strength is None,
            r.entry_price == Some(signal.entry_price),
            r.target_price == Some(signal.target_price),
            r.stop_loss == Some(signal.stop_loss),
            r.fibonacci_level is None,
            r.generated_at == signal.generated_at,
            !r.is_executed,
            r.executed_at is None,
            r.reason matches Some(reason) && reason@ == signal.reason@,
    {
        TradingSignal {
            id,
            token_id: signal.token_id,
            signal_type: signal.signal_type,
            signal_strength: None,
            entry_price: Some(signal.entry_price),
            target_price: Some(signal.target_price),
            stop_loss: Some(signal.stop_loss),
            fibonacci_level: None,
            generated_at: signal.generated_at,
            is_executed: false,
            executed_at: None,
            reason: Some(signal.reason.clone()),
        }
    }

    /// The row for an exit signal, not executed yet. The exit price stands
    /// as the target.
    pub fn from_exit(id: i32, signal: &ExitSignal) -> (r: TradingSignal)
        ensures
            r.id == id,
            r.token_id == signal.token_id,
            r.signal_type == signal.signal_type,
            r.signal_strength == Some(signal.exit_fraction),
            r.entry_price is None,
            r.target_price == Some(signal.exit_price),
            r.stop_loss is None,
            r.fibonacci_level == signal.fibonacci_level,
            r.generated_at == signal.generated_at,
            !r.is_executed,
            r.executed_at is None,
            r.reason matches Some(reason) && reason@ == signal.exit_reason@,
    {
        TradingSignal {
            id,
            token_id: signal.token_id,
            signal_type: signal.signal_type,
            signal_strength: Some(signal.exit_fraction),
            entry_price: None,
            target_price: Some(signal.exit_price),
            stop_loss: None,
            fibonacci_level: signal.fibonacci_level,
            generated_at: signal.generated_at,
            is_executed: false,
            executed_at: None,
            reason: Some(signal.exit_reason.clone()),
        }
    }

    /// Records that the signal was executed at `at`. A signal is confirmed
    /// once: a second confirmation changes nothing and returns `false`.
    pub fn confirm_execution(&mut self, at: i64) -> (r: bool)
        ensures
            r == !old(self).is_executed,
            final(self).is_executed,
            final(self).executed_at == (if old(self).is_executed {
                old(self).executed_at
            } else {
                Some(at)
            }),
            final(self).id == old(self).id,
            final(self).token_id == old(self).token_id,
            final(self).signal_type == old(self).signal_type,
            final(self).signal_strength == old(self).signal_strength,
            final(self).entry_price == old(self).entry_price,
            final(self).target_price == old(self).target_price,
            final(self).stop_loss == old(self).stop_loss,
            final(self).fibonacci_level == old(self).fibonacci_level,
            final(self).generated_at == old(self).generated_at,
            final(self).reason == old(self).reason,
    {
        if self.is_executed {
            false
        } else {
            self.is_executed = true;
            self.executed_at = Some(at);
            true
        }
    }
}

} // verus!
