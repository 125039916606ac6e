//! The trading engine: one evaluation cycle for a token on each new tick or
//! closed candle.
//!
//! A cycle builds the token's context, runs the exit detector where the
//! token has an open position and the entry detector where it has none, and
//! hands a signal to the trade state manager. It neither reads nor writes
//! anything outside: the caller feeds it market data and persists what the
//! report holds. A cycle is applied whole or not at all.

use crate::amount::Amount;
use crate::config::TradingConfig;
use crate::models::{
    Alert, AlertSeverity, AlertType, Candlestick15s, Candlestick1s, CoreError, EntrySignal,
    MarketDataTick, Position, PositionStatus, SignalType, Token, TradingContext,
};
use crate::trading::context::{build_context, has_sufficient_data, is_context_of};
use crate::trading::entry::{
    has_exact_prices, is_entry_signal, spec_qualifies, spec_reference_level, EntryDetector,
};
use crate::trading::exit::{is_evaluation_of, ExitDetector, ExitEvaluation};
use crate::trading::state::{
    has_open, is_alert, is_guard_alert, lemma_open_index_unique, open_index, single_open_per_token,
    spec_entry_size, spec_exit, spec_guard_violation, spec_marked, spec_next_id, spec_opened,
    spec_peak, spec_settled, EntryOutcome, ManagerView, TradeStateManager,
};
use vstd::prelude::*;

verus! {

/// Whether the engine takes market data.
#[derive(Debug, Clone, Copy, PartialEq, Eq, Structural)]
pub enum EngineStatus {
    /// Built, not started.
    Created,
    /// Taking market data.
    Running,
    /// Shut down for good.
    Stopped,
}

/// What one cycle saw and did.
#[derive(Debug, Clone)]
pub struct CycleReport {
    /// The context that was built.
    pub context: TradingContext,
    /// The exit evaluation, where the token had an open position.
    pub evaluation: Option<ExitEvaluation>,
    /// The entry signal, where the entry detector gave one.
    pub entry_signal: Option<EntrySignal>,
    /// Whether the signal of this cycle was applied.
    pub accepted: bool,
    /// The token's position after the cycle, where the cycle touched it.
    pub position: Option<Position>,
    /// The alert that the cycle raised, if any.
    pub alert: Option<Alert>,
}

/// What an engine holds.
pub struct EngineView {
    pub status: EngineStatus,
    pub state: ManagerView,
    pub entry_config: TradingConfig,
    pub exit_config: TradingConfig,
    pub lookback: usize,
    pub min_candles: usize,
}

/// The kind of alert for an exit that was applied.
pub open spec fn spec_exit_alert_type(signal_type: SignalType) -> AlertType {
    if signal_type == SignalType::STOP_LOSS {
        AlertType::RISK_ALERT
    } else {
        AlertType::TRADE_EXECUTED
    }
}

/// The severity of the alert for an exit that was applied.
pub open spec fn spec_exit_alert_severity(signal_type: SignalType) -> AlertSeverity {
    if signal_type == SignalType::STOP_LOSS {
        AlertSeverity::WARNING
    } else {
        AlertSeverity::INFO
    }
}

/// The text of the alert for an exit that was applied.
pub open spec fn spec_exit_alert_message(signal_type: SignalType) -> Seq<char> {
    if signal_type == SignalType::STOP_LOSS {
        "stop loss triggered"@
    } else {
        "exit signal applied"@
    }
}

/// A cycle for a token with the open position `p` at index `i`: the exit
/// detector evaluates it, the evaluation is recorded on the position, and a
/// signal, if there is one that the position takes, is applied.
pub open spec fn is_exit_cycle(
    report: CycleReport,
    before: EngineView,
    after: ManagerView,
    p: Position,
    i: int,
    now: i64,
) -> bool {
    &&& report.entry_signal is None
    &&& report.evaluation matches Some(evaluation)
    &&& is_evaluation_of(evaluation, before.exit_config, report.context, p, now)
    &&& ({
        let marked = spec_marked(
            p,
            report.context.current_price,
            evaluation.trailing_stop_price,
            evaluation.claimed_tiers,
        );
        let applied = match evaluation.signal {
            Some(signal) => spec_exit(marked, signal, now),
            None => Err(CoreError::InvalidState),
        };
        match applied {
            Ok(left) => {
                let signal = evaluation.signal->Some_0;
                let value = spec_settled(before.state.portfolio_value, marked, signal);
                &&& report.accepted
                &&& report.position == Some(left)
                &&& report.alert matches Some(alert) && is_alert(
                    alert,
                    before.state.next_alert_id,
                    p.token_id,
                    spec_exit_alert_type(signal.signal_type),
                    spec_exit_alert_severity(signal.signal_type),
                    spec_exit_alert_message(signal.signal_type),
                    now,
                )
                &&& after == (ManagerView {
                    positions: before.state.positions.update(i, left),
                    portfolio_value: value,
                    peak_value: spec_peak(before.state.peak_value, value),
                    next_alert_id: spec_next_id(before.state.next_alert_id),
                    ..before.state
                })
            },
            Err(_) => {
                &&& !report.accepted
                &&& report.position == Some(marked)
                &&& report.alert is None
                &&& after == (ManagerView {
                    positions: before.state.positions.update(i, marked),
                    ..before.state
                })
            },
        }
    })
}

/// A cycle for a token without an open position: the entry detector looks at
/// the context, and a signal, if there is one, goes through the guards.
pub open spec fn is_entry_cycle(
    report: CycleReport,
    before: EngineView,
    after: ManagerView,
    now: i64,
) -> bool {
    let state = before.state;
    &&& report.evaluation is None
    &&& report.entry_signal is Some <==> spec_qualifies(before.entry_config, report.context)
    &&& match report.entry_signal {
        None => {
            &&& !report.accepted
            &&& report.position is None
            &&& report.alert is None
            &&& after == state
        },
        Some(signal) => {
            &&& is_entry_signal(
                signal,
                before.entry_config,
                report.context,
                spec_reference_level(before.entry_config, report.context),
                now,
            )
            &&& has_exact_prices(signal, before.entry_config)
            &&& match spec_guard_violation(
                state.positions,
                state.config,
                state.portfolio_value,
                state.peak_value,
                signal.entry_price,
                signal.stop_loss,
            ) {
                Some(guard) => {
                    &&& !report.accepted
                    &&& report.position is None
                    &&& report.alert matches Some(alert) && is_guard_alert(
                        alert,
                        state.next_alert_id,
                        signal.token_id,
                        guard,
                        now,
                    )
                    &&& after == (ManagerView {
                        next_alert_id: spec_next_id(state.next_alert_id),
                        ..state
                    })
                },
                None => {
                    &&& report.accepted
                    &&& spec_entry_size(
                        state.config.max_position_size,
                        state.config.risk_per_trade,
                        state.portfolio_value,
                        signal.entry_price,
                        signal.stop_loss,
                    ) matches Some(size) && report.position == Some(
                        spec_opened(state.next_position_id, signal, size, now),
                    )
                    &&& report.alert matches Some(alert) && is_alert(
                        alert,
                        state.next_alert_id,
                        signal.token_id,
                        AlertType::SIGNAL_GENERATED,
                        AlertSeverity::INFO,
                        "entry signal applied"@,
                        now,
                    )
                    &&& after == (ManagerView {
                        positions: state.positions.push(report.position->Some_0),
                        next_position_id: spec_next_id(state.next_position_id),
                        next_alert_id: spec_next_id(state.next_alert_id),
                        ..state
                    })
                },
            }
        },
    }
}

/// The report and the state after are what one cycle makes of the market
/// data, for an engine that is running and has enough data.
pub open spec fn is_cycle_of(
    report: CycleReport,
    before: EngineView,
    after: ManagerView,
    token: Token,
    candles_1s: Seq<Candlestick1s>,
    candles_15s: Seq<Candlestick15s>,
    tick: MarketDataTick,
    now: i64,
) -> bool {
    let positions = before.state.positions;
    if has_open(positions, token.id) {
        let i = open_index(positions, token.id);
        &&& is_context_of(
            report.context,
            token,
            PositionStatus::OPEN,
            Some(positions[i].entry_price),
            candles_1s,
            candles_15s,
            tick,
            before.lookback,
        )
        &&& is_exit_cycle(report, before, after, positions[i], i, now)
    } else {
        &&& is_context_of(
            report.context,
            token,
            PositionStatus::NONE,
            None,
            candles_1s,
            candles_15s,
            tick,
            before.lookback,
        )
        &&& is_entry_cycle(report, before, after, now)
    }
}

/// Drives the evaluation cycles and owns the trade state.
pub struct TradingEngine {
    entry_detector: EntryDetector,
    exit_detector: ExitDetector,
    state: TradeStateManager,
    status: EngineStatus,
    lookback: usize,
    min_candles: usize,
}

impl View for TradingEngine {
    type V = EngineView;

    closed spec fn view(&self) -> EngineView {
        EngineView {
            status: self.status,
            state: self.state@,
            entry_config: self.entry_detector.config_view(),
            exit_config: self.exit_detector.config_view(),
            lookback: self.lookback,
            min_candles: self.min_candles,
        }
    }
}

impl TradingEngine {
    /// An engine that has not started, for a portfolio of the given value.
    /// Malformed thresholds are refused here, once and for all.
    pub fn new(
        config: TradingConfig,
        portfolio_value: Amount,
        lookback: usize,
        min_candles: usize,
    ) -> (r: Result<TradingEngine, CoreError>)
        ensures
            r is Ok <==> config.valid(),
            r matches Err(e) ==> e == CoreError::ConfigurationInvalid,
            r matches Ok(engine) ==> {
                &&& engine@.status == EngineStatus::Created
                &&& engine@.state.config == config
                &&& engine@.state.positions == Seq::<Position>::empty()
                &&& engine@.state.portfolio_value == portfolio_value
                &&& engine@.state.peak_value == portfolio_value
                &&& engine@.entry_config.same_thresholds(&config)
                &&& engine@.exit_config.same_thresholds(&config)
                &&& engine@.lookback == lookback
                &&& engine@.min_candles == min_candles
            },
    {
        match config.validate() {
            Ok(()) => {},
            Err(e) => { return Err(e); },
        }
        let entry_detector = EntryDetector::new(config.duplicate());
        let exit_detector = ExitDetector::new(config.duplicate());
        let state = TradeStateManager::new(config, portfolio_value);
        Ok(
            TradingEngine {
                entry_detector,
                exit_detector,
                state,
                status: EngineStatus::Created,
                lookback,
                min_candles,
            },
        )
    }

    /// Whether the engine takes market data.
    pub fn status(&self) -> (r: EngineStatus)
        ensures
            r == self@.status,
    {
        self.status
    }

    /// The trade state.
    pub fn state(&self) -> (r: &TradeStateManager)
        ensures
            r@ == self@.state,
    {
        &self.state
    }

    /// Begins to take market data. An engine that was shut down stays so.
    pub fn start(&mut self) -> (r: Result<(), CoreError>)
        ensures
            r is Ok <==> old(self)@.status != EngineStatus::Stopped,
            r matches Err(e) ==> e == CoreError::InvalidState,
            final(self)@ == (EngineView {
                status: if old(self)@.status == EngineStatus::Stopped {
                    EngineStatus::Stopped
                } else {
                    EngineStatus::Running
                },
                ..old(self)@
            }),
    {
        if self.status == EngineStatus::Stopped {
            Err(CoreError::InvalidState)
        } else {
            self.status = EngineStatus::Running;
            Ok(())
        }
    }

    /// Stops taking market data, for good. The trade state stays as the
    /// last completed cycle left it.
    pub fn shutdown(&mut self)
        ensures
            final(self)@ == (EngineView { status: EngineStatus::Stopped, ..old(self)@ }),
    {
        self.status = EngineStatus::Stopped;
    }

    /// Runs one cycle for the token at the time `now`. An engine that is not
    /// running refuses; with too little data the token is skipped. Neither
    /// changes anything.
    pub fn on_market_data(
        &mut self,
        token: &Token,
        candles_1s: &Vec<Candlestick1s>,
        candles_15s: &Vec<Candlestick15s>,
        tick: &MarketDataTick,
        now: i64,
    ) -> (r: Result<CycleReport, CoreError>)
        ensures
            final(self)@.status == old(self)@.status,
            final(self)@.entry_config == old(self)@.entry_config,
            final(self)@.exit_config == old(self)@.exit_config,
            final(self)@.lookback == old(self)@.lookback,
            final(self)@.min_candles == old(self)@.min_candles,
            single_open_per_token(final(self)@.state.positions),
            match r {
                Err(e) => {
                    &&& final(self)@ == old(self)@
                    &&& e == (if old(self)@.status != EngineStatus::Running {
                        CoreError::InvalidState
                    } else {
                        CoreError::InsufficientData
                    })
                    &&& old(self)@.status != EngineStatus::Running || !has_sufficient_data(
                        candles_1s@,
                        *tick,
                        old(self)@.lookback,
                        old(self)@.min_candles,
                    )
                },
                Ok(report) => {
                    &&& old(self)@.status == EngineStatus::Running
                    &&& has_sufficient_data(
                        candles_1s@,
                        *tick,
                        old(self)@.lookback,
                        old(self)@.min_candles,
                    )
                    &&& is_cycle_of(
                        report,
                        old(self)@,
                        final(self)@.state,
                        *token,
                        candles_1s@,
                        candles_15s@,
                        *tick,
                        now,
                    )
                },
            },
    {
        if self.status != EngineStatus::Running {
            proof {
                use_type_invariant(&self.state);
            }
            return Err(CoreError::InvalidState);
        }
        let open = self.state.open_position(token.id);
        let context = match open {
            Some(p) => build_context(
                token,
                PositionStatus::OPEN,
                Some(p.entry_price),
                candles_1s,
                candles_15s,
                tick,
                self.lookback,
                self.min_candles,
            ),
            None => build_context(
                token,
                PositionStatus::NONE,
                None,
                candles_1s,
                candles_15s,
                tick,
                self.lookback,
                self.min_candles,
            ),
        };
        let context = match context {
            Ok(context) => context,
            Err(e) => {
                proof {
                    use_type_invariant(&self.state);
                }
                return Err(e);
            },
        };
        match open {
            Some(p) => self.exit_cycle(context, p, now),
            None => self.entry_cycle(context, now),
        }
    }

    /// The cycle for a token with the open position `p`.
    fn exit_cycle(&mut self, context: TradingContext, p: Position, now: i64) -> (r: Result<
        CycleReport,
        CoreError,
    >)
        requires
            has_open(old(self)@.state.positions, context.token_id),
            p == old(self)@.state.positions[open_index(old(self)@.state.positions, context.token_id)],
        ensures
            final(self)@ == (EngineView { state: final(self)@.state, ..old(self)@ }),
            single_open_per_token(final(self)@.state.positions),
            r matches Ok(report) && report.context == context && is_exit_cycle(
                report,
                old(self)@,
                final(self)@.state,
                p,
                open_index(old(self)@.state.positions, context.token_id),
                now,
            ),
    {
        let ghost before = self@.state;
        let ghost i = open_index(before.positions, context.token_id);
        let evaluation = self.exit_detector.evaluate_at(&context, &p, now);
        let marked = self.state.record_evaluation(
            p.token_id,
            context.current_price,
            evaluation.trailing_stop_price,
            evaluation.claimed_tiers,
        );
        let marked = match marked {
            Some(marked) => marked,
            None => p,
        };
        let ghost between = self@.state;
        proof {
            assert(between.positions[i] == marked);
            lemma_open_index_unique(between.positions, context.token_id, i);
        }
        let applied = match &evaluation.signal {
            Some(signal) => self.state.apply_exit(signal, now),
            None => Err(CoreError::InvalidState),
        };
        match applied {
            Ok(left) => {
                let stopped = match &evaluation.signal {
                    Some(signal) => signal.signal_type == SignalType::STOP_LOSS,
                    None => false,
                };
                let alert = if stopped {
                    self.state.raise_alert(
                        p.token_id,
                        AlertType::RISK_ALERT,
                        AlertSeverity::WARNING,
                        "stop loss triggered".to_owned(),
                        now,
                    )
                } else {
                    self.state.raise_alert(
                        p.token_id,
                        AlertType::TRADE_EXECUTED,
                        AlertSeverity::INFO,
                        "exit signal applied".to_owned(),
                        now,
                    )
                };
                proof {
                    use_type_invariant(&self.state);
                    assert(before.positions.update(i, marked).update(i, left)
                        =~= before.positions.update(i, left));
                }
                Ok(
                    CycleReport {
                        context,
                        evaluation: Some(evaluation),
                        entry_signal: None,
                        accepted: true,
                        position: Some(left),
                        alert: Some(alert),
                    },
                )
            },
            Err(_) => {
                proof {
                    use_type_invariant(&self.state);
                }
                Ok(
                    CycleReport {
                        context,
                        evaluation: Some(evaluation),
                        entry_signal: None,
                        accepted: false,
                        position: Some(marked),
                        alert: None,
                    },
                )
            },
        }
    }

    /// The cycle for a token without an open position.
    fn entry_cycle(&mut self, context: TradingContext, now: i64) -> (r: Result<
        CycleReport,
        CoreError,
    >)
        requires
            !has_open(old(self)@.state.positions, context.token_id),
        ensures
            final(self)@ == (EngineView { state: final(self)@.state, ..old(self)@ }),
            single_open_per_token(final(self)@.state.positions),
            r matches Ok(report) && report.context == context && is_entry_cycle(
                report,
                old(self)@,
                final(self)@.state,
                now,
            ),
    {
        let signal = self.entry_detector.detect_entry_signal_at(&context, self.lookback, now);
        let signal = match signal {
            Some(signal) => signal,
            None => {
                proof {
                    use_type_invariant(&self.state);
                }
                return Ok(
                    CycleReport {
                        context,
                        evaluation: None,
                        entry_signal: None,
                        accepted: false,
                        position: None,
                        alert: None,
                    },
                );
            },
        };
        let (position, alert) = match self.state.apply_entry(&signal, now) {
            Ok(EntryOutcome::Opened(p)) => {
                let alert = self.state.raise_alert(
                    signal.token_id,
                    AlertType::SIGNAL_GENERATED,
                    AlertSeverity::INFO,
                    "entry signal applied".to_owned(),
                    now,
                );
                (Some(p), Some(alert))
            },
            Ok(EntryOutcome::Rejected(_, alert)) => (None, Some(alert)),
            Err(_) => (None, None),
        };
        proof {
            use_type_invariant(&self.state);
        }
        Ok(
            CycleReport {
                context,
                evaluation: None,
                entry_signal: Some(signal),
                accepted: position.is_some(),
                position,
                alert,
            },
        )
    }
}

} // verus!
