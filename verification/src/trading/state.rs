//! The trade state manager: the one place where positions change.
//!
//! A position goes from `NONE` to `OPEN` on an accepted `BUY`, stays `OPEN`
//! through partial exits, and ends `CLOSED` on a full exit or a stop, or
//! `CANCELLED`. Before a position is opened the portfolio guards are
//! consulted; a guard that refuses yields an alert, not an error.
//!
//! Sizes are notional. A partial exit sells the signal's fraction of the
//! size held. The P&L of a sale is the price move since entry, times the
//! size sold, over the entry price.

use crate::amount::Amount;
use crate::config::{Percentage, TradingConfig};
use crate::models::{
    Alert, AlertSeverity, AlertType, CoreError, EntrySignal, ExitSignal, Position, PositionStatus,
    SignalType, TradeType,
};
use vstd::prelude::*;

verus! {

/// The portfolio guard that refused an entry.
#[derive(Debug, Clone, Copy, PartialEq, Eq, Structural)]
pub enum GuardViolation {
    /// As many positions are open as may be.
    MaxConcurrentPositions,
    /// The portfolio has fallen too far from its peak, or how far cannot be
    /// computed.
    MaxDrawdown,
    /// No positive size within the limits can be computed for the entry.
    PositionSize,
}

/// What became of an entry signal.
#[derive(Debug, Clone)]
pub enum EntryOutcome {
    /// The position that was opened.
    Opened(Position),
    /// No position was opened: the guard that refused, and the alert raised.
    Rejected(GuardViolation, Alert),
}

/// The position is open and belongs to the token.
pub open spec fn is_open_for(p: Position, token_id: i32) -> bool {
    p.status == PositionStatus::OPEN && p.token_id == token_id
}

/// The token has an open position.
pub open spec fn has_open(positions: Seq<Position>, token_id: i32) -> bool {
    exists|i: int| 0 <= i < positions.len() && is_open_for(#[trigger] positions[i], token_id)
}

/// The index of the token's open position.
pub open spec fn open_index(positions: Seq<Position>, token_id: i32) -> int {
    choose|i: int| 0 <= i < positions.len() && is_open_for(#[trigger] positions[i], token_id)
}

/// How many positions are open.
pub open spec fn open_count(positions: Seq<Position>) -> nat
    decreases positions.len(),
{
    if positions.len() == 0 {
        0
    } else {
        open_count(positions.drop_last()) + if positions.last().status == PositionStatus::OPEN {
            1nat
        } else {
            0nat
        }
    }
}

/// No token has two open positions.
pub open spec fn single_open_per_token(positions: Seq<Position>) -> bool {
    forall|i: int, j: int|
        0 <= i < j < positions.len() && (#[trigger] positions[i]).status == PositionStatus::OPEN && (
        #[trigger] positions[j]).status == PositionStatus::OPEN ==> positions[i].token_id
            != positions[j].token_id
}

/// The size held is not negative and not above the size at entry.
pub open spec fn sizes_in_order(p: Position) -> bool {
    0 <= p.current_size@ <= p.entry_size@
}

/// The P&L of selling `sold` at `exit_price` out of a position entered at
/// `entry_price`: `(exit_price - entry_price) * sold / entry_price`, where
/// each step can be computed.
pub open spec fn spec_realized(entry_price: Amount, exit_price: Amount, sold: Amount) -> Option<
    Amount,
> {
    match exit_price.spec_checked_sub(entry_price) {
        Some(change) => match change.spec_checked_mul(sold) {
            Some(gain) => gain.spec_checked_div(entry_price),
            None => None,
        },
        None => None,
    }
}

/// The P&L realized so far, with one more sale added; unknown once a part of
/// it could not be computed.
pub open spec fn spec_accumulate(so_far: Option<Amount>, gained: Option<Amount>) -> Option<Amount> {
    match (so_far, gained) {
        (Some(a), Some(b)) => a.spec_checked_add(b),
        (None, Some(b)) => Some(b),
        (_, None) => None,
    }
}

/// A stop that only moves up: the higher of the stop so far and the
/// candidate, and whichever there is where one is missing.
pub open spec fn ratchet(existing: Option<Amount>, candidate: Option<Amount>) -> Option<Amount> {
    match (existing, candidate) {
        (Some(a), Some(b)) => Some(
            if a@ >= b@ {
                a
            } else {
                b
            },
        ),
        (Some(a), None) => Some(a),
        (None, c) => c,
    }
}

/// The position after a partial exit at `exit_price` of `fraction` of the
/// size held. The exit is refused where the position is not open, and where
/// the size sold or the size left cannot be computed or would not lie
/// between zero and the size held.
pub open spec fn spec_partial_exit(p: Position, exit_price: Amount, fraction: Amount) -> Result<
    Position,
    CoreError,
> {
    if p.status != PositionStatus::OPEN {
        Err(CoreError::InvalidState)
    } else {
        match p.current_size.spec_checked_mul(fraction) {
            Some(sold) => match p.current_size.spec_checked_sub(sold) {
                Some(left) => if 0 <= sold@ && 0 <= left@ <= p.current_size@ {
                    Ok(
                        Position {
                            current_price: Some(exit_price),
                            current_size: left,
                            realized_pnl: spec_accumulate(
                                p.realized_pnl,
                                spec_realized(p.entry_price, exit_price, sold),
                            ),
                            unrealized_pnl: spec_realized(p.entry_price, exit_price, left),
                            ..p
                        },
                    )
                } else {
                    Err(CoreError::InvalidState)
                },
                None => Err(CoreError::InvalidState),
            },
            None => Err(CoreError::InvalidState),
        }
    }
}

/// The position after a full exit at `exit_price`: nothing is held any
/// more, the position is closed and the time of the exit is recorded.
pub open spec fn spec_full_exit(p: Position, exit_price: Amount, now: i64) -> Result<
    Position,
    CoreError,
> {
    if p.status != PositionStatus::OPEN {
        Err(CoreError::InvalidState)
    } else {
        Ok(
            Position {
                current_price: Some(exit_price),
                current_size: Amount::spec_zero(),
                exit_timestamp: Some(now),
                status: PositionStatus::CLOSED,
                realized_pnl: spec_accumulate(
                    p.realized_pnl,
                    spec_realized(p.entry_price, exit_price, p.current_size),
                ),
                unrealized_pnl: Some(Amount::spec_zero()),
                ..p
            },
        )
    }
}

/// The position after an exit signal: a partial exit for `SELL_PARTIAL`, a
/// full exit for `SELL_FULL` and `STOP_LOSS`; a `BUY` is no exit.
pub open spec fn spec_exit(p: Position, signal: ExitSignal, now: i64) -> Result<
    Position,
    CoreError,
> {
    match signal.signal_type {
        SignalType::BUY => Err(CoreError::InvalidState),
        SignalType::SELL_PARTIAL => spec_partial_exit(p, signal.exit_price, signal.exit_fraction),
        SignalType::SELL_FULL => spec_full_exit(p, signal.exit_price, now),
        SignalType::STOP_LOSS => spec_full_exit(p, signal.exit_price, now),
    }
}

/// The position after a cancellation: no P&L is realized.
pub open spec fn spec_cancelled(p: Position, now: i64) -> Position {
    Position { exit_timestamp: Some(now), status: PositionStatus::CANCELLED, ..p }
}

/// The position after an evaluation at `price`: the trailing stop has moved
/// up at most, and so has the count of claimed tiers.
pub open spec fn spec_marked(
    p: Position,
    price: Amount,
    trailing_stop: Option<Amount>,
    claimed_tiers: usize,
) -> Position {
    Position {
        current_price: Some(price),
        unrealized_pnl: spec_realized(p.entry_price, price, p.current_size),
        trailing_stop_price: ratchet(p.trailing_stop_price, trailing_stop),
        claimed_tiers: if p.claimed_tiers >= claimed_tiers {
            p.claimed_tiers
        } else {
            claimed_tiers
        },
        ..p
    }
}

/// The drawdown guard: the fall from the peak is not below the allowed part
/// of the peak, or one of the two cannot be computed.
pub open spec fn spec_drawdown_breached(peak: Amount, value: Amount, max_drawdown: Percentage) -> bool {
    match (peak.spec_checked_sub(value), peak.spec_checked_mul(max_drawdown.spec_fraction())) {
        (Some(fall), Some(limit)) => !(fall@ < limit@),
        _ => true,
    }
}

/// The size within the limits: the smaller of the largest position allowed
/// and the size that the risk allows, where that is positive.
pub open spec fn spec_size_within_limits(cap: Amount, by_risk: Amount) -> Option<Amount> {
    let size = if cap@ <= by_risk@ {
        cap
    } else {
        by_risk
    };
    if size@ > 0 {
        Some(size)
    } else {
        None
    }
}

/// The size of a new position: the smaller of the largest position allowed,
/// `max_position_size * portfolio`, and the size at which a fall to the stop
/// loses `risk_per_trade * portfolio`, that is
/// `risk_per_trade * portfolio * entry_price / (entry_price - stop_loss)`.
/// There is none where the stop is not below the entry, where a step cannot
/// be computed, and where the size would not be positive.
pub open spec fn spec_entry_size(
    max_position_size: Amount,
    risk_per_trade: Amount,
    portfolio: Amount,
    entry_price: Amount,
    stop_loss: Amount,
) -> Option<Amount> {
    match (
        max_position_size.spec_checked_mul(portfolio),
        risk_per_trade.spec_checked_mul(portfolio),
        entry_price.spec_checked_sub(stop_loss),
    ) {
        (Some(cap), Some(at_risk), Some(distance)) => if distance@ > 0 {
            match at_risk.spec_checked_mul(entry_price) {
                Some(scaled) => match scaled.spec_checked_div(distance) {
                    Some(by_risk) => spec_size_within_limits(cap, by_risk),
                    None => None,
                },
                None => None,
            }
        } else {
            None
        },
        _ => None,
    }
}

/// The first guard that refuses an entry, if any does.
pub open spec fn spec_guard_violation(
    positions: Seq<Position>,
    config: TradingConfig,
    portfolio: Amount,
    peak: Amount,
    entry_price: Amount,
    stop_loss: Amount,
) -> Option<GuardViolation> {
    if open_count(positions) >= config.max_concurrent_positions {
        Some(GuardViolation::MaxConcurrentPositions)
    } else if spec_drawdown_breached(peak, portfolio, config.max_drawdown) {
        Some(GuardViolation::MaxDrawdown)
    } else if spec_entry_size(
        config.max_position_size,
        config.risk_per_trade,
        portfolio,
        entry_price,
        stop_loss,
    ) is None {
        Some(GuardViolation::PositionSize)
    } else {
        None
    }
}

/// The position that an accepted entry opens.
pub open spec fn spec_opened(id: i32, signal: EntrySignal, size: Amount, now: i64) -> Position {
    Position {
        id,
        token_id: signal.token_id,
        signal_id: None,
        trade_type: TradeType::LONG,
        entry_price: signal.entry_price,
        entry_size: size,
        current_price: Some(signal.entry_price),
        current_size: size,
        entry_timestamp: now,
        exit_timestamp: None,
        status: PositionStatus::OPEN,
        realized_pnl: None,
        unrealized_pnl: None,
        trailing_stop_price: None,
        hard_stop_loss: Some(signal.stop_loss),
        fibonacci_target: Some(signal.target_price),
        claimed_tiers: 0,
    }
}

/// The text of the alert for a refused entry.
pub open spec fn guard_message(guard: GuardViolation) -> Seq<char> {
    match guard {
        GuardViolation::MaxConcurrentPositions => "entry rejected: maximum concurrent positions reached"@,
        GuardViolation::MaxDrawdown => "entry rejected: maximum drawdown reached"@,
        GuardViolation::PositionSize => "entry rejected: no position size within the limits"@,
    }
}

/// The alert is the warning that a refused entry raises.
pub open spec fn is_guard_alert(
    alert: Alert,
    id: i32,
    token_id: i32,
    guard: GuardViolation,
    now: i64,
) -> bool {
    &&& alert.id == id
    &&& alert.token_id == Some(token_id)
    &&& alert.alert_type == AlertType::RISK_ALERT
    &&& alert.severity == AlertSeverity::WARNING
    &&& alert.message@ == guard_message(guard)
    &&& alert.created_at == now
    &&& !alert.is_read
}

/// The next identifier after `id`; the last one repeats.
pub open spec fn spec_next_id(id: i32) -> i32 {
    if id < i32::MAX {
        (id + 1) as i32
    } else {
        id
    }
}

/// A stop that has been ratcheted is not below the stop before.
pub proof fn lemma_ratchet_never_lowers(existing: Option<Amount>, candidate: Option<Amount>)
    ensures
        existing matches Some(a) ==> (ratchet(existing, candidate) matches Some(b) && b@ >= a@),
        candidate matches Some(c) ==> (ratchet(existing, candidate) matches Some(b) && b@ >= c@),
{
}

/// Through any two evaluations in a row the trailing stop does not fall,
/// whatever the second price gives as candidate.
pub proof fn lemma_trailing_stop_keeps_rising(
    p: Position,
    first_price: Amount,
    first_stop: Option<Amount>,
    first_tiers: usize,
    second_price: Amount,
    second_stop: Option<Amount>,
    second_tiers: usize,
)
    ensures
        ({
            let once = spec_marked(p, first_price, first_stop, first_tiers);
            let twice = spec_marked(once, second_price, second_stop, second_tiers);
            &&& once.trailing_stop_price matches Some(a) ==> (twice.trailing_stop_price matches Some(b)
                && b@ >= a@)
            &&& p.trailing_stop_price matches Some(a) ==> (twice.trailing_stop_price matches Some(b)
                && b@ >= a@)
            &&& p.claimed_tiers <= once.claimed_tiers <= twice.claimed_tiers
        }),
{
}

/// A partial exit followed by a full exit: the size held falls at each step
/// and ends at zero, and the position ends closed with the time of its exit.
pub proof fn lemma_partial_then_full_exit(
    p: Position,
    first_price: Amount,
    fraction: Amount,
    second_price: Amount,
    now: i64,
)
    requires
        spec_partial_exit(p, first_price, fraction) is Ok,
    ensures
        ({
            let partly = spec_partial_exit(p, first_price, fraction)->Ok_0;
            let closed = spec_full_exit(partly, second_price, now);
            &&& partly.status == PositionStatus::OPEN
            &&& partly.current_size@ <= p.current_size@
            &&& closed matches Ok(c) && c.current_size@ == 0 && c.current_size@ <= partly.current_size@
                && c.status == PositionStatus::CLOSED && c.exit_timestamp == Some(now)
        }),
{
    Amount::lemma_zero();
}

/// A transition keeps the size held in order.
pub proof fn lemma_exit_keeps_sizes_in_order(p: Position, signal: ExitSignal, now: i64)
    requires
        sizes_in_order(p),
        spec_exit(p, signal, now) is Ok,
    ensures
        sizes_in_order(spec_exit(p, signal, now)->Ok_0),
        spec_exit(p, signal, now)->Ok_0.current_size@ <= p.current_size@,
        spec_exit(p, signal, now)->Ok_0.token_id == p.token_id,
        spec_exit(p, signal, now)->Ok_0.entry_size == p.entry_size,
{
    Amount::lemma_zero();
}

/// The P&L of selling `sold` at `exit_price` out of a position entered at
/// `entry_price`.
pub fn realized(entry_price: &Amount, exit_price: &Amount, sold: &Amount) -> (r: Option<Amount>)
    ensures
        r == spec_realized(*entry_price, *exit_price, *sold),
{
    match exit_price.checked_sub(entry_price) {
        Some(change) => match change.checked_mul(sold) {
            Some(gain) => gain.checked_div(entry_price),
            None => None,
        },
        None => None,
    }
}

/// The P&L realized so far, with one more sale added.
pub fn accumulate(so_far: Option<Amount>, gained: Option<Amount>) -> (r: Option<Amount>)
    ensures
        r == spec_accumulate(so_far, gained),
{
    match gained {
        Some(b) => match so_far {
            Some(a) => a.checked_add(&b),
            None => Some(b),
        },
        None => None,
    }
}

/// Moves a stop up to the candidate, never down.
pub fn ratchet_stop(existing: Option<Amount>, candidate: Option<Amount>) -> (r: Option<Amount>)
    ensures
        r == ratchet(existing, candidate),
{
    match existing {
        Some(a) => match candidate {
            Some(b) => Some(a.max(b)),
            None => Some(a),
        },
        None => candidate,
    }
}

/// The size within the limits: the smaller of the largest position allowed
/// and the size that the risk allows, and none where that is not positive.
pub fn size_within_limits(cap: &Amount, by_risk: &Amount) -> (r: Option<Amount>)
    ensures
        r == spec_size_within_limits(*cap, *by_risk),
        r is Some <==> (cap@ > 0 && by_risk@ > 0),
        r matches Some(size) ==> size@ > 0 && size@ <= cap@ && size@ <= by_risk@ && (size == *cap
            || size == *by_risk),
{
    let size = cap.min(*by_risk);
    if size.is_positive() {
        Some(size)
    } else {
        None
    }
}

/// The size of a new position, if there is one within the limits.
pub fn entry_size(
    max_position_size: &Amount,
    risk_per_trade: &Amount,
    portfolio: &Amount,
    entry_price: &Amount,
    stop_loss: &Amount,
) -> (r: Option<Amount>)
    ensures
        r == spec_entry_size(
            *max_position_size,
            *risk_per_trade,
            *portfolio,
            *entry_price,
            *stop_loss,
        ),
        r matches Some(size) ==> size@ > 0 && (max_position_size.spec_checked_mul(*portfolio) matches Some(
            cap,
        ) && size@ <= cap@),
{
    let cap = match max_position_size.checked_mul(portfolio) {
        Some(cap) => cap,
        None => { return None; },
    };
    let at_risk = match risk_per_trade.checked_mul(portfolio) {
        Some(at_risk) => at_risk,
        None => { return None; },
    };
    let distance = match entry_price.checked_sub(stop_loss) {
        Some(distance) => distance,
        None => { return None; },
    };
    if !distance.is_positive() {
        return None;
    }
    let scaled = match at_risk.checked_mul(entry_price) {
        Some(scaled) => scaled,
        None => { return None; },
    };
    let by_risk = match scaled.checked_div(&distance) {
        Some(by_risk) => by_risk,
        None => { return None; },
    };
    size_within_limits(&cap, &by_risk)
}

/// The drawdown guard.
pub fn drawdown_breached(peak: &Amount, value: &Amount, max_drawdown: Percentage) -> (r: bool)
    ensures
        r == spec_drawdown_breached(*peak, *value, max_drawdown),
{
    let limit = peak.checked_mul(&max_drawdown.fraction());
    match peak.checked_sub(value) {
        Some(fall) => match limit {
            Some(limit) => !fall.lt(&limit),
            None => true,
        },
        None => true,
    }
}

impl Position {
    /// The position after a partial exit.
    pub fn partial_exit(&self, exit_price: Amount, fraction: Amount) -> (r: Result<Position, CoreError>)
        ensures
            r == spec_partial_exit(*self, exit_price, fraction),
    {
        if self.status != PositionStatus::OPEN {
            return Err(CoreError::InvalidState);
        }
        let sold = match self.current_size.checked_mul(&fraction) {
            Some(sold) => sold,
            None => { return Err(CoreError::InvalidState); },
        };
        let left = match self.current_size.checked_sub(&sold) {
            Some(left) => left,
            None => { return Err(CoreError::InvalidState); },
        };
        if sold.is_negative() || left.is_negative() || left.gt(&self.current_size) {
            return Err(CoreError::InvalidState);
        }
        let gained = realized(&self.entry_price, &exit_price, &sold);
        let mut next = *self;
        next.current_price = Some(exit_price);
        next.current_size = left;
        next.realized_pnl = accumulate(self.realized_pnl, gained);
        next.unrealized_pnl = realized(&self.entry_price, &exit_price, &left);
        Ok(next)
    }

    /// The position after a full exit.
    pub fn full_exit(&self, exit_price: Amount, now: i64) -> (r: Result<Position, CoreError>)
        ensures
            r == spec_full_exit(*self, exit_price, now),
    {
        if self.status != PositionStatus::OPEN {
            return Err(CoreError::InvalidState);
        }
        let gained = realized(&self.entry_price, &exit_price, &self.current_size);
        let mut next = *self;
        next.current_price = Some(exit_price);
        next.current_size = Amount::zero();
        next.exit_timestamp = Some(now);
        next.status = PositionStatus::CLOSED;
        next.realized_pnl = accumulate(self.realized_pnl, gained);
        next.unrealized_pnl = Some(Amount::zero());
        Ok(next)
    }

    /// The position after an exit signal.
    pub fn exit(&self, signal: &ExitSignal, now: i64) -> (r: Result<Position, CoreError>)
        ensures
            r == spec_exit(*self, *signal, now),
    {
        match signal.signal_type {
            SignalType::BUY => Err(CoreError::InvalidState),
            SignalType::SELL_PARTIAL => self.partial_exit(signal.exit_price, signal.exit_fraction),
            SignalType::SELL_FULL => self.full_exit(signal.exit_price, now),
            SignalType::STOP_LOSS => self.full_exit(signal.exit_price, now),
        }
    }

    /// The position after a cancellation.
    pub fn cancelled(&self, now: i64) -> (r: Position)
        ensures
            r == spec_cancelled(*self, now),
    {
        let mut next = *self;
        next.exit_timestamp = Some(now);
        next.status = PositionStatus::CANCELLED;
        next
    }

    /// The position after an evaluation at `price`.
    pub fn marked(&self, price: Amount, trailing_stop: Option<Amount>, claimed_tiers: usize) -> (r:
        Position)
        ensures
            r == spec_marked(*self, price, trailing_stop, claimed_tiers),
    {
        let mut next = *self;
        next.current_price = Some(price);
        next.unrealized_pnl = realized(&self.entry_price, &price, &self.current_size);
        next.trailing_stop_price = ratchet_stop(self.trailing_stop_price, trailing_stop);
        if claimed_tiers > self.claimed_tiers {
            next.claimed_tiers = claimed_tiers;
        }
        next
    }
}

/// The size that an exit signal sells out of a position.
pub open spec fn spec_sold(p: Position, signal: ExitSignal) -> Option<Amount> {
    match signal.signal_type {
        SignalType::BUY => None,
        SignalType::SELL_PARTIAL => p.current_size.spec_checked_mul(signal.exit_fraction),
        SignalType::SELL_FULL => Some(p.current_size),
        SignalType::STOP_LOSS => Some(p.current_size),
    }
}

/// The portfolio value after an exit: the value before plus the P&L of the
/// sale, and the value before where that cannot be computed.
pub open spec fn spec_settled(value: Amount, p: Position, signal: ExitSignal) -> Amount {
    match spec_sold(p, signal) {
        Some(sold) => match spec_realized(p.entry_price, signal.exit_price, sold) {
            Some(gained) => match value.spec_checked_add(gained) {
                Some(settled) => settled,
                None => value,
            },
            None => value,
        },
        None => value,
    }
}

/// The higher of the peak so far and the value now.
pub open spec fn spec_peak(peak: Amount, value: Amount) -> Amount {
    if peak@ >= value@ {
        peak
    } else {
        value
    }
}

/// What a trade state manager holds.
pub struct ManagerView {
    pub config: TradingConfig,
    pub positions: Seq<Position>,
    pub portfolio_value: Amount,
    pub peak_value: Amount,
    pub next_position_id: i32,
    pub next_alert_id: i32,
}

/// The authority on positions and on the portfolio guards.
pub struct TradeStateManager {
    config: TradingConfig,
    positions: Vec<Position>,
    portfolio_value: Amount,
    peak_value: Amount,
    next_position_id: i32,
    next_alert_id: i32,
}

impl View for TradeStateManager {
    type V = ManagerView;

    closed spec fn view(&self) -> ManagerView {
        ManagerView {
            config: self.config,
            positions: self.positions@,
            portfolio_value: self.portfolio_value,
            peak_value: self.peak_value,
            next_position_id: self.next_position_id,
            next_alert_id: self.next_alert_id,
        }
    }
}

impl TradeStateManager {
    /// What holds of every manager: no token has two open positions, and the
    /// size held in a position is between zero and its size at entry.
    #[verifier::type_invariant]
    pub open spec fn consistent(&self) -> bool {
        &&& single_open_per_token(self@.positions)
        &&& forall|i: int| 0 <= i < self@.positions.len() ==> sizes_in_order(#[trigger] self@.positions[i])
    }

    /// A manager without positions, for a portfolio of the given value.
    pub fn new(config: TradingConfig, portfolio_value: Amount) -> (r: TradeStateManager)
        ensures
            r@.config == config,
            r@.positions == Seq::<Position>::empty(),
            r@.portfolio_value == portfolio_value,
            r@.peak_value == portfolio_value,
            r@.next_position_id == 1,
            r@.next_alert_id == 1,
    {
        TradeStateManager {
            config,
            positions: Vec::new(),
            portfolio_value,
            peak_value: portfolio_value,
            next_position_id: 1,
            next_alert_id: 1,
        }
    }

    /// The thresholds.
    pub fn config(&self) -> (r: &TradingConfig)
        ensures
            *r == self@.config,
    {
        &self.config
    }

    /// All positions, in the order in which they were opened.
    pub fn positions(&self) -> (r: &Vec<Position>)
        ensures
            r@ == self@.positions,
            single_open_per_token(r@),
            forall|i: int| 0 <= i < r@.len() ==> sizes_in_order(#[trigger] r@[i]),
    {
        proof {
            use_type_invariant(self);
        }
        &self.positions
    }

    /// The value of the portfolio.
    pub fn portfolio_value(&self) -> (r: Amount)
        ensures
            r == self@.portfolio_value,
    {
        self.portfolio_value
    }

    /// The highest value that the portfolio has had.
    pub fn peak_value(&self) -> (r: Amount)
        ensures
            r == self@.peak_value,
    {
        self.peak_value
    }

    /// How many positions are open.
    pub fn open_position_count(&self) -> (r: usize)
        ensures
            r == open_count(self@.positions),
    {
        let n = self.positions.len();
        let mut count: usize = 0;
        let mut i: usize = 0;
        while i < n
            invariant
                i <= n,
                n == self.positions@.len(),
                count <= i,
                count == open_count(self.positions@.subrange(0, i as int)),
            decreases n - i,
        {
            assert(self.positions@.subrange(0, i + 1).drop_last() =~= self.positions@.subrange(
                0,
                i as int,
            ));
            if self.positions[i].status == PositionStatus::OPEN {
                count += 1;
            }
            i += 1;
        }
        assert(self.positions@.subrange(0, n as int) =~= self.positions@);
        count
    }

    /// Where the token's open position is, if it has one.
    pub fn find_open(&self, token_id: i32) -> (r: Option<usize>)
        ensures
            match r {
                Some(i) => i < self@.positions.len() && is_open_for(self@.positions[i as int], token_id)
                    && i == open_index(self@.positions, token_id),
                None => !has_open(self@.positions, token_id),
            },
            r is Some <==> has_open(self@.positions, token_id),
    {
        proof {
            use_type_invariant(self);
        }
        let n = self.positions.len();
        let mut i: usize = 0;
        while i < n
            invariant
                i <= n,
                n == self.positions@.len(),
                single_open_per_token(self.positions@),
                forall|k: int| 0 <= k < i ==> !is_open_for(#[trigger] self.positions@[k], token_id),
            decreases n - i,
        {
            if self.positions[i].status == PositionStatus::OPEN && self.positions[i].token_id
                == token_id {
                proof {
                    let j = open_index(self.positions@, token_id);
                    assert(is_open_for(self.positions@[i as int], token_id));
                    assert(0 <= j < self.positions@.len() && is_open_for(self.positions@[j], token_id));
                    if j < i {
                        assert(self.positions@[j].token_id != self.positions@[i as int].token_id);
                    } else if i < j {
                        assert(self.positions@[i as int].token_id != self.positions@[j].token_id);
                    }
                    assert(j == i);
                }
                return Some(i);
            }
            i += 1;
        }
        None
    }

    /// The token's open position, if it has one.
    pub fn open_position(&self, token_id: i32) -> (r: Option<Position>)
        ensures
            match r {
                Some(p) => has_open(self@.positions, token_id) && p == self@.positions[open_index(
                    self@.positions,
                    token_id,
                )],
                None => !has_open(self@.positions, token_id),
            },
    {
        match self.find_open(token_id) {
            Some(i) => Some(self.positions[i]),
            None => None,
        }
    }

    /// `OPEN` where the token has an open position, `NONE` where it has not:
    /// closed and cancelled positions stand in no one's way.
    pub fn position_status(&self, token_id: i32) -> (r: PositionStatus)
        ensures
            r == (if has_open(self@.positions, token_id) {
                PositionStatus::OPEN
            } else {
                PositionStatus::NONE
            }),
    {
        match self.find_open(token_id) {
            Some(_) => PositionStatus::OPEN,
            None => PositionStatus::NONE,
        }
    }

    /// Applies an entry signal. A signal that is no `BUY`, or for a token
    /// that has an open position, is an error and changes nothing. Where a
    /// guard refuses, no position is opened and a warning is returned.
    /// Otherwise the position is opened, with the size that the limits give.
    pub fn apply_entry(&mut self, signal: &EntrySignal, now: i64) -> (r: Result<
        EntryOutcome,
        CoreError,
    >)
        ensures
            final(self)@.config == old(self)@.config,
            final(self)@.portfolio_value == old(self)@.portfolio_value,
            final(self)@.peak_value == old(self)@.peak_value,
            single_open_per_token(final(self)@.positions),
            match r {
                Err(e) => {
                    &&& e == CoreError::InvalidState
                    &&& signal.signal_type != SignalType::BUY || has_open(
                        old(self)@.positions,
                        signal.token_id,
                    )
                    &&& final(self)@ == old(self)@
                },
                Ok(EntryOutcome::Rejected(guard, alert)) => {
                    &&& signal.signal_type == SignalType::BUY
                    &&& !has_open(old(self)@.positions, signal.token_id)
                    &&& spec_guard_violation(
                        old(self)@.positions,
                        old(self)@.config,
                        old(self)@.portfolio_value,
                        old(self)@.peak_value,
                        signal.entry_price,
                        signal.stop_loss,
                    ) == Some(guard)
                    &&& is_guard_alert(alert, old(self)@.next_alert_id, signal.token_id, guard, now)
                    &&& final(self)@.positions == old(self)@.positions
                    &&& final(self)@.next_position_id == old(self)@.next_position_id
                    &&& final(self)@.next_alert_id == spec_next_id(old(self)@.next_alert_id)
                },
                Ok(EntryOutcome::Opened(p)) => {
                    &&& signal.signal_type == SignalType::BUY
                    &&& !has_open(old(self)@.positions, signal.token_id)
                    &&& spec_guard_violation(
                        old(self)@.positions,
                        old(self)@.config,
                        old(self)@.portfolio_value,
                        old(self)@.peak_value,
                        signal.entry_price,
                        signal.stop_loss,
                    ) is None
                    &&& spec_entry_size(
                        old(self)@.config.max_position_size,
                        old(self)@.config.risk_per_trade,
                        old(self)@.portfolio_value,
                        signal.entry_price,
                        signal.stop_loss,
                    ) matches Some(size) && p == spec_opened(
                        old(self)@.next_position_id,
                        *signal,
                        size,
                        now,
                    )
                    &&& final(self)@.positions == old(self)@.positions.push(p)
                    &&& final(self)@.next_position_id == spec_next_id(old(self)@.next_position_id)
                    &&& final(self)@.next_alert_id == old(self)@.next_alert_id
                },
            },
    {
        proof {
            use_type_invariant(&*self);
        }
        if signal.signal_type != SignalType::BUY {
            return Err(CoreError::InvalidState);
        }
        if self.find_open(signal.token_id).is_some() {
            return Err(CoreError::InvalidState);
        }
        let size = entry_size(
            &self.config.max_position_size,
            &self.config.risk_per_trade,
            &self.portfolio_value,
            &signal.entry_price,
            &signal.stop_loss,
        );
        let guard = if self.open_position_count() >= self.config.max_concurrent_positions {
            Some(GuardViolation::MaxConcurrentPositions)
        } else if drawdown_breached(&self.peak_value, &self.portfolio_value, self.config.max_drawdown) {
            Some(GuardViolation::MaxDrawdown)
        } else if size.is_none() {
            Some(GuardViolation::PositionSize)
        } else {
            None
        };
        match guard {
            Some(guard) => {
                let message = match guard {
                    GuardViolation::MaxConcurrentPositions => "entry rejected: maximum concurrent positions reached".to_owned(),
                    GuardViolation::MaxDrawdown => "entry rejected: maximum drawdown reached".to_owned(),
                    GuardViolation::PositionSize => "entry rejected: no position size within the limits".to_owned(),
                };
                let alert = Alert {
                    id: self.next_alert_id,
                    token_id: Some(signal.token_id),
                    alert_type: AlertType::RISK_ALERT,
                    severity: AlertSeverity::WARNING,
                    message,
                    created_at: now,
                    is_read: false,
                };
                if self.next_alert_id < i32::MAX {
                    self.next_alert_id = self.next_alert_id + 1;
                }
                Ok(EntryOutcome::Rejected(guard, alert))
            },
            None => {
                let size = size.unwrap();
                let p = Position {
                    id: self.next_position_id,
                    token_id: signal.token_id,
                    signal_id: None,
                    trade_type: TradeType::LONG,
                    entry_price: signal.entry_price,
                    entry_size: size,
                    current_price: Some(signal.entry_price),
                    current_size: size,
                    entry_timestamp: now,
                    exit_timestamp: None,
                    status: PositionStatus::OPEN,
                    realized_pnl: None,
                    unrealized_pnl: None,
                    trailing_stop_price: None,
                    hard_stop_loss: Some(signal.stop_loss),
                    fibonacci_target: Some(signal.target_price),
                    claimed_tiers: 0,
                };
                proof {
                    let before = self.positions@;
                    let after = before.push(p);
                    assert forall|i: int, j: int|
                        0 <= i < j < after.len() && (#[trigger] after[i]).status
                            == PositionStatus::OPEN && (#[trigger] after[j]).status
                            == PositionStatus::OPEN implies after[i].token_id
                        != after[j].token_id by {
                        if j == before.len() {
                            assert(!is_open_for(before[i], signal.token_id));
                        } else {
                            assert(after[i] == before[i] && after[j] == before[j]);
                        }
                    }
                    assert forall|i: int| 0 <= i < after.len() implies sizes_in_order(
                        #[trigger] after[i],
                    ) by {
                        if i < before.len() {
                            assert(after[i] == before[i]);
                        }
                    }
                }
                let mut positions: Vec<Position> = Vec::new();
                core::mem::swap(&mut self.positions, &mut positions);
                positions.push(p);
                self.positions = positions;
                if self.next_position_id < i32::MAX {
                    self.next_position_id = self.next_position_id + 1;
                }
                Ok(EntryOutcome::Opened(p))
            },
        }
    }

    /// Puts `p` in the place of the position at `i`.
    fn replace_position(&mut self, i: usize, p: Position)
        requires
            i < old(self)@.positions.len(),
            p.token_id == old(self)@.positions[i as int].token_id,
            p.status == PositionStatus::OPEN ==> old(self)@.positions[i as int].status
                == PositionStatus::OPEN,
            sizes_in_order(p),
        ensures
            final(self)@ == (ManagerView {
                positions: old(self)@.positions.update(i as int, p),
                ..old(self)@
            }),
    {
        proof {
            use_type_invariant(&*self);
            let before = self.positions@;
            let after = before.update(i as int, p);
            assert forall|a: int, b: int|
                0 <= a < b < after.len() && (#[trigger] after[a]).status == PositionStatus::OPEN && (
                #[trigger] after[b]).status == PositionStatus::OPEN implies after[a].token_id
                != after[b].token_id by {
                assert(before[a].status == PositionStatus::OPEN);
                assert(before[b].status == PositionStatus::OPEN);
                assert(after[a].token_id == before[a].token_id);
                assert(after[b].token_id == before[b].token_id);
            }
            assert forall|a: int| 0 <= a < after.len() implies sizes_in_order(#[trigger] after[a]) by {
                if a != i {
                    assert(after[a] == before[a]);
                }
            }
        }
        let mut positions: Vec<Position> = Vec::new();
        core::mem::swap(&mut self.positions, &mut positions);
        positions.set(i, p);
        self.positions = positions;
    }

    /// Applies an exit signal to the token's open position. Without an open
    /// position, and where the position refuses the exit, this is an error
    /// and changes nothing. Otherwise the position is replaced by what the
    /// exit makes of it, the P&L of the sale is added to the portfolio's
    /// value, and the peak follows the value up.
    pub fn apply_exit(&mut self, signal: &ExitSignal, now: i64) -> (r: Result<Position, CoreError>)
        ensures
            single_open_per_token(final(self)@.positions),
            match r {
                Err(e) => {
                    &&& e == CoreError::InvalidState
                    &&& final(self)@ == old(self)@
                    &&& !has_open(old(self)@.positions, signal.token_id) || spec_exit(
                        old(self)@.positions[open_index(old(self)@.positions, signal.token_id)],
                        *signal,
                        now,
                    ) is Err
                },
                Ok(p) => {
                    let i = open_index(old(self)@.positions, signal.token_id);
                    let before = old(self)@.positions[i];
                    let value = spec_settled(old(self)@.portfolio_value, before, *signal);
                    &&& has_open(old(self)@.positions, signal.token_id)
                    &&& spec_exit(before, *signal, now) == Ok::<Position, CoreError>(p)
                    &&& p.current_size@ <= before.current_size@
                    &&& final(self)@ == (ManagerView {
                        positions: old(self)@.positions.update(i, p),
                        portfolio_value: value,
                        peak_value: spec_peak(old(self)@.peak_value, value),
                        ..old(self)@
                    })
                },
            },
    {
        proof {
            use_type_invariant(&*self);
        }
        let i = match self.find_open(signal.token_id) {
            Some(i) => i,
            None => { return Err(CoreError::InvalidState); },
        };
        let before = self.positions[i];
        let after = match before.exit(signal, now) {
            Ok(after) => after,
            Err(e) => { return Err(e); },
        };
        proof {
            lemma_exit_keeps_sizes_in_order(before, *signal, now);
        }
        let sold = match signal.signal_type {
            SignalType::BUY => None,
            SignalType::SELL_PARTIAL => before.current_size.checked_mul(&signal.exit_fraction),
            SignalType::SELL_FULL => Some(before.current_size),
            SignalType::STOP_LOSS => Some(before.current_size),
        };
        let gained = match sold {
            Some(sold) => realized(&before.entry_price, &signal.exit_price, &sold),
            None => None,
        };
        let value = match gained {
            Some(gained) => match self.portfolio_value.checked_add(&gained) {
                Some(settled) => settled,
                None => self.portfolio_value,
            },
            None => self.portfolio_value,
        };
        self.replace_position(i, after);
        self.portfolio_value = value;
        self.peak_value = self.peak_value.max(value);
        Ok(after)
    }

    /// Cancels the token's open position, if it has one: the position ends
    /// `CANCELLED` and no P&L is realized. Without an open position nothing
    /// changes.
    pub fn cancel(&mut self, token_id: i32, now: i64) -> (r: Option<Position>)
        ensures
            single_open_per_token(final(self)@.positions),
            !has_open(final(self)@.positions, token_id),
            match r {
                None => !has_open(old(self)@.positions, token_id) && final(self)@ == old(self)@,
                Some(p) => {
                    let i = open_index(old(self)@.positions, token_id);
                    &&& has_open(old(self)@.positions, token_id)
                    &&& p == spec_cancelled(old(self)@.positions[i], now)
                    &&& final(self)@ == (ManagerView {
                        positions: old(self)@.positions.update(i, p),
                        ..old(self)@
                    })
                },
            },
    {
        proof {
            use_type_invariant(&*self);
        }
        match self.find_open(token_id) {
            None => None,
            Some(i) => {
                let after = self.positions[i].cancelled(now);
                self.replace_position(i, after);
                proof {
                    use_type_invariant(&*self);
                    let ps = self@.positions;
                    assert forall|k: int| 0 <= k < ps.len() implies !is_open_for(
                        #[trigger] ps[k],
                        token_id,
                    ) by {
                        if k != i && is_open_for(ps[k], token_id) {
                            let before = old(self)@.positions;
                            assert(before[k] == ps[k]);
                            assert(is_open_for(before[i as int], token_id));
                            if k < i {
                                assert(before[k].token_id != before[i as int].token_id);
                            } else {
                                assert(before[i as int].token_id != before[k].token_id);
                            }
                        }
                    }
                }
                Some(after)
            },
        }
    }

    /// Records an evaluation of the token's open position at `price`: the
    /// trailing stop and the count of claimed tiers move up at most. Without
    /// an open position nothing changes.
    pub fn record_evaluation(
        &mut self,
        token_id: i32,
        price: Amount,
        trailing_stop: Option<Amount>,
        claimed_tiers: usize,
    ) -> (r: Option<Position>)
        ensures
            single_open_per_token(final(self)@.positions),
            match r {
                None => !has_open(old(self)@.positions, token_id) && final(self)@ == old(self)@,
                Some(p) => {
                    let i = open_index(old(self)@.positions, token_id);
                    &&& has_open(old(self)@.positions, token_id)
                    &&& p == spec_marked(old(self)@.positions[i], price, trailing_stop, claimed_tiers)
                    &&& final(self)@ == (ManagerView {
                        positions: old(self)@.positions.update(i, p),
                        ..old(self)@
                    })
                },
            },
    {
        proof {
            use_type_invariant(&*self);
        }
        match self.find_open(token_id) {
            None => None,
            Some(i) => {
                let after = self.positions[i].marked(price, trailing_stop, claimed_tiers);
                self.replace_position(i, after);
                proof {
                    use_type_invariant(&*self);
                }
                Some(after)
            },
        }
    }

    /// Raises an alert about the token, with the next alert identifier.
    pub fn raise_alert(
        &mut self,
        token_id: i32,
        alert_type: AlertType,
        severity: AlertSeverity,
        message: String,
        now: i64,
    ) -> (r: Alert)
        ensures
            is_alert(r, old(self)@.next_alert_id, token_id, alert_type, severity, message@, now),
            final(self)@ == (ManagerView {
                next_alert_id: spec_next_id(old(self)@.next_alert_id),
                ..old(self)@
            }),
    {
        proof {
            use_type_invariant(&*self);
        }
        let alert = Alert {
            id: self.next_alert_id,
            token_id: Some(token_id),
            alert_type,
            severity,
            message,
            created_at: now,
            is_read: false,
        };
        if self.next_alert_id < i32::MAX {
            self.next_alert_id = self.next_alert_id + 1;
        }
        alert
    }
}

/// The alert is the unread one with the given identifier, subject, kind and
/// text.
pub open spec fn is_alert(
    alert: Alert,
    id: i32,
    token_id: i32,
    alert_type: AlertType,
    severity: AlertSeverity,
    message: Seq<char>,
    now: i64,
) -> bool {
    &&& alert.id == id
    &&& alert.token_id == Some(token_id)
    &&& alert.alert_type == alert_type
    &&& alert.severity == severity
    &&& alert.message@ == message
    &&& alert.created_at == now
    &&& !alert.is_read
}

/// In a book in which no token has two open positions, a token's open
/// position is where `open_index` says.
pub proof fn lemma_open_index_unique(positions: Seq<Position>, token_id: i32, i: int)
    requires
        single_open_per_token(positions),
        0 <= i < positions.len(),
        is_open_for(positions[i], token_id),
    ensures
        has_open(positions, token_id),
        open_index(positions, token_id) == i,
{
    let j = open_index(positions, token_id);
    assert(0 <= j < positions.len() && is_open_for(positions[j], token_id));
    if j < i {
        assert(positions[j].token_id != positions[i].token_id);
    } else if i < j {
        assert(positions[i].token_id != positions[j].token_id);
    }
}

/// With as many positions open as may be, the first guard refuses.
pub proof fn lemma_full_book_refuses(
    positions: Seq<Position>,
    config: TradingConfig,
    portfolio: Amount,
    peak: Amount,
    entry_price: Amount,
    stop_loss: Amount,
)
    requires
        open_count(positions) >= config.max_concurrent_positions,
    ensures
        spec_guard_violation(positions, config, portfolio, peak, entry_price, stop_loss) == Some(
            GuardViolation::MaxConcurrentPositions,
        ),
{
}

} // verus!
