//! The exit detector: given a snapshot of the market and an open position,
//! whether to sell, how much, and why.
//!
//! The policy is tried in this order, and the first match wins:
//! the hard stop, then the trailing stop, then the Fibonacci tiers.
//! Whatever the outcome, the evaluation carries the trailing stop and the
//! count of claimed tiers that the position is to have from now on; neither
//! ever moves down.
//!
//! A partial exit at the first tier sells 30% of the size held, one at any
//! later tier but the last 50%; the last tier sells all.

use crate::amount::{lemma_pow10_positive, pow10, unit, Amount};
use crate::clock::now_millis;
use crate::config::{Percentage, TradingConfig};
use crate::models::{ExitSignal, Position, PositionStatus, SignalType, TradingContext};
use crate::trading::fibonacci::{spec_targets, FibonacciCalculator, FibonacciTarget};
use crate::trading::state::{ratchet, ratchet_stop};
use vstd::prelude::*;

verus! {

/// What the exit policy decides.
#[derive(Debug, Clone, Copy, PartialEq, Eq, Structural)]
pub enum ExitDecision {
    /// No condition is met.
    Hold,
    /// The price is at or below the hard stop.
    HardStop,
    /// The price is at or below the trailing stop, after a tier was reached.
    TrailingStop,
    /// The price has crossed the tier at `index`, which was not claimed yet;
    /// `last` where it is the final tier.
    Tier { index: usize, last: bool },
}

/// What one evaluation of an open position gives: the signal, if any, and
/// the trailing stop and count of claimed tiers to record on the position.
#[derive(Debug, Clone)]
pub struct ExitEvaluation {
    pub decision: ExitDecision,
    pub signal: Option<ExitSignal>,
    pub trailing_stop_price: Option<Amount>,
    pub claimed_tiers: usize,
}

/// How many tiers, counted from `from` on and in order, the price has
/// reached: the index of the first tier at or after `from` whose target is
/// above the price.
pub open spec fn crossed_from(targets: Seq<FibonacciTarget>, price: Amount, from: int) -> int
    decreases targets.len() - from,
{
    if from < 0 || from >= targets.len() || targets[from].target_price@ > price@ {
        from
    } else {
        crossed_from(targets, price, from + 1)
    }
}

/// How many tiers the price has reached; none where the tiers cannot be
/// computed.
pub open spec fn spec_crossed(targets: Option<Seq<FibonacciTarget>>, price: Amount) -> int {
    match targets {
        Some(t) => crossed_from(t, price, 0),
        None => 0,
    }
}

/// The part of the size held that a partial exit at the tier sells: 30% at
/// the first tier, 50% at a later one.
pub open spec fn spec_tier_fraction(index: usize) -> Percentage {
    if index == 0 {
        Percentage { hundredths: 3000 }
    } else {
        Percentage { hundredths: 5000 }
    }
}

/// The exit policy. `claimed` is the count of tiers claimed before this
/// evaluation and `trailing_stop` the stop after it.
pub open spec fn spec_decide(
    hard_stop: Option<Amount>,
    trailing_stop: Option<Amount>,
    claimed: usize,
    price: Amount,
    targets: Option<Seq<FibonacciTarget>>,
) -> ExitDecision {
    let crossed = spec_crossed(targets, price);
    if hard_stop matches Some(h) && price@ <= h@ {
        ExitDecision::HardStop
    } else if trailing_stop matches Some(t) && price@ <= t@ && claimed >= 1 {
        ExitDecision::TrailingStop
    } else if crossed > claimed {
        ExitDecision::Tier { index: (crossed - 1) as usize, last: crossed == targets.unwrap().len() }
    } else {
        ExitDecision::Hold
    }
}

/// The type of signal that a decision gives.
pub open spec fn spec_signal_type(decision: ExitDecision) -> SignalType {
    match decision {
        ExitDecision::Hold => SignalType::SELL_FULL,
        ExitDecision::HardStop => SignalType::STOP_LOSS,
        ExitDecision::TrailingStop => SignalType::SELL_FULL,
        ExitDecision::Tier { index, last } => if last {
            SignalType::SELL_FULL
        } else {
            SignalType::SELL_PARTIAL
        },
    }
}

/// The part of the size held that a decision sells.
pub open spec fn spec_exit_fraction(decision: ExitDecision) -> Amount {
    match decision {
        ExitDecision::Tier { index, last } => if last {
            Amount::from_parts_spec(1, 0)
        } else {
            spec_tier_fraction(index).spec_fraction()
        },
        _ => Amount::from_parts_spec(1, 0),
    }
}

/// The reason that a signal gives for a decision.
pub open spec fn spec_exit_reason(decision: ExitDecision) -> Seq<char> {
    match decision {
        ExitDecision::Hold => ""@,
        ExitDecision::HardStop => "hard stop loss reached"@,
        ExitDecision::TrailingStop => "trailing stop reached"@,
        ExitDecision::Tier { index, last } => if last {
            "final Fibonacci tier reached"@
        } else {
            "Fibonacci tier reached"@
        },
    }
}

/// The signal says what the decision is, for the token of the context, at
/// the context's price.
pub open spec fn is_exit_signal(
    signal: ExitSignal,
    decision: ExitDecision,
    context: TradingContext,
    levels: Seq<Amount>,
    now: i64,
) -> bool {
    &&& signal.token_id == context.token_id
    &&& signal.mint_address@ == context.mint_address@
    &&& signal.signal_type == spec_signal_type(decision)
    &&& signal.exit_price == context.current_price
    &&& signal.exit_fraction == spec_exit_fraction(decision)
    &&& signal.exit_reason@ == spec_exit_reason(decision)
    &&& signal.generated_at == now
    &&& signal.fibonacci_level == (match decision {
        ExitDecision::Tier { index, last } => if index < levels.len() {
            Some(levels[index as int])
        } else {
            None
        },
        _ => None,
    })
}

/// The candidate for the trailing stop at a price: the price less the
/// trailing percentage, where that can be computed.
pub open spec fn spec_trailing_candidate(price: Amount, trailing: Percentage) -> Option<Amount> {
    price.spec_checked_mul(trailing.spec_complement())
}

/// The evaluation is what the policy gives for the position in the context.
/// A position that is not open is left as it is, without a signal.
pub open spec fn is_evaluation_of(
    evaluation: ExitEvaluation,
    config: TradingConfig,
    context: TradingContext,
    position: Position,
    now: i64,
) -> bool {
    if position.status != PositionStatus::OPEN {
        &&& evaluation.decision == ExitDecision::Hold
        &&& evaluation.signal is None
        &&& evaluation.trailing_stop_price == position.trailing_stop_price
        &&& evaluation.claimed_tiers == position.claimed_tiers
    } else {
        let price = context.current_price;
        let targets = spec_targets(position.entry_price, config.fibonacci_levels@);
        let stop = ratchet(
            position.trailing_stop_price,
            spec_trailing_candidate(price, config.trailing_stop_percentage),
        );
        let crossed = spec_crossed(targets, price);
        &&& evaluation.trailing_stop_price == stop
        &&& evaluation.claimed_tiers == (if crossed > position.claimed_tiers {
            crossed
        } else {
            position.claimed_tiers as int
        })
        &&& evaluation.decision == spec_decide(
            position.hard_stop_loss,
            stop,
            position.claimed_tiers,
            price,
            targets,
        )
        &&& evaluation.decision == ExitDecision::Hold <==> evaluation.signal is None
        &&& evaluation.signal matches Some(signal) ==> is_exit_signal(
            signal,
            evaluation.decision,
            context,
            config.fibonacci_levels@,
            now,
        )
    }
}

/// The count of tiers reached lies between `from` and the number of tiers;
/// the tiers from `from` up to it are at or below the price, and the one at
/// it, if there is one, is above.
pub proof fn lemma_crossed_from(targets: Seq<FibonacciTarget>, price: Amount, from: int)
    requires
        0 <= from <= targets.len(),
    ensures
        from <= crossed_from(targets, price, from) <= targets.len(),
        forall|k: int|
            from <= k < crossed_from(targets, price, from) ==> (#[trigger] targets[k]).target_price@
                <= price@,
        crossed_from(targets, price, from) < targets.len() ==> targets[crossed_from(
            targets,
            price,
            from,
        )].target_price@ > price@,
    decreases targets.len() - from,
{
    if from < targets.len() && targets[from].target_price@ <= price@ {
        lemma_crossed_from(targets, price, from + 1);
    }
}

/// At or below the hard stop the decision is the hard stop, whatever the
/// trailing stop and the tiers say.
pub proof fn lemma_hard_stop_first(
    hard_stop: Amount,
    trailing_stop: Option<Amount>,
    claimed: usize,
    price: Amount,
    targets: Option<Seq<FibonacciTarget>>,
)
    requires
        price@ <= hard_stop@,
    ensures
        spec_decide(Some(hard_stop), trailing_stop, claimed, price, targets) == ExitDecision::HardStop,
        spec_signal_type(ExitDecision::HardStop) == SignalType::STOP_LOSS,
{
}

/// A tier is signalled only once: with the count of claimed tiers that an
/// evaluation gives, the same price signals no tier again.
pub proof fn lemma_tier_not_signalled_twice(
    hard_stop: Option<Amount>,
    trailing_stop: Option<Amount>,
    claimed: usize,
    price: Amount,
    targets: Option<Seq<FibonacciTarget>>,
    claimed_after: usize,
)
    requires
        claimed_after >= claimed,
        claimed_after >= spec_crossed(targets, price),
    ensures
        !(spec_decide(hard_stop, trailing_stop, claimed_after, price, targets) is Tier),
{
}

/// A partial exit leaves a runner: the part sold at a tier is more than
/// nothing and less than all.
pub proof fn lemma_partial_exit_leaves_a_runner(index: usize)
    ensures
        0 < spec_tier_fraction(index).spec_fraction()@ < unit(),
{
    let h = spec_tier_fraction(index).hundredths;
    let f = spec_tier_fraction(index).spec_fraction();
    Amount::lemma_from_parts(h as int, 4);
    f.lemma_view_scaled();
    reveal_with_fuel(pow10, 5);
    lemma_pow10_positive(28);
    let v = f@;
    let u = unit();
    assert(0 < v < u) by (nonlinear_arith)
        requires
            v * 10000 == h * u,
            0 < h < 10000,
            u > 0,
    ;
}

/// The part of the size held that a partial exit at the tier sells.
pub fn tier_fraction(index: usize) -> (r: Percentage)
    ensures
        r == spec_tier_fraction(index),
        r.valid(),
{
    if index == 0 {
        Percentage { hundredths: 3000 }
    } else {
        Percentage { hundredths: 5000 }
    }
}

/// How many tiers, in order, the price has reached.
pub fn crossed_tiers(targets: &Vec<FibonacciTarget>, price: &Amount) -> (r: usize)
    ensures
        r == crossed_from(targets@, *price, 0),
        r <= targets@.len(),
{
    let n = targets.len();
    let mut i: usize = 0;
    while i < n
        invariant
            i <= n,
            n == targets@.len(),
            crossed_from(targets@, *price, 0) == crossed_from(targets@, *price, i as int),
        decreases n - i,
    {
        if targets[i].target_price.gt(price) {
            return i;
        }
        i += 1;
    }
    i
}

/// Decides on exits.
pub struct ExitDetector {
    config: TradingConfig,
}

impl ExitDetector {
    /// The thresholds that the detector works with.
    pub closed spec fn config_view(&self) -> TradingConfig {
        self.config
    }

    /// A detector with the given thresholds.
    pub fn new(config: TradingConfig) -> (r: ExitDetector)
        ensures
            r.config_view() == config,
    {
        ExitDetector { config }
    }

    /// Evaluates the position now.
    pub fn evaluate(&self, context: &TradingContext, position: &Position) -> (r: ExitEvaluation)
        ensures
            exists|now: i64| is_evaluation_of(r, self.config_view(), *context, *position, now),
    {
        let now = now_millis();
        let r = self.evaluate_at(context, position, now);
        assert(is_evaluation_of(r, self.config_view(), *context, *position, now));
        r
    }

    /// Evaluates the position at the time `now`.
    pub fn evaluate_at(&self, context: &TradingContext, position: &Position, now: i64) -> (r:
        ExitEvaluation)
        ensures
            is_evaluation_of(r, self.config_view(), *context, *position, now),
            position.trailing_stop_price matches Some(before) ==> (r.trailing_stop_price matches Some(
                after,
            ) && after@ >= before@),
            r.claimed_tiers >= position.claimed_tiers,
    {
        if position.status != PositionStatus::OPEN {
            return ExitEvaluation {
                decision: ExitDecision::Hold,
                signal: None,
                trailing_stop_price: position.trailing_stop_price,
                claimed_tiers: position.claimed_tiers,
            };
        }
        let price = context.current_price;
        let candidate = price.checked_mul(&self.config.trailing_stop_percentage.complement());
        let stop = ratchet_stop(position.trailing_stop_price, candidate);
        let targets = FibonacciCalculator::targets(&position.entry_price, &self.config.fibonacci_levels);
        let (crossed, tiers) = match &targets {
            Some(t) => (crossed_tiers(t, &price), t.len()),
            None => (0, 0),
        };
        let hard_stopped = match position.hard_stop_loss {
            Some(h) => price.le(&h),
            None => false,
        };
        let trailed = match stop {
            Some(t) => price.le(&t) && position.claimed_tiers >= 1,
            None => false,
        };
        let decision = if hard_stopped {
            ExitDecision::HardStop
        } else if trailed {
            ExitDecision::TrailingStop
        } else if crossed > position.claimed_tiers {
            ExitDecision::Tier { index: crossed - 1, last: crossed == tiers }
        } else {
            ExitDecision::Hold
        };
        let claimed_tiers = if crossed > position.claimed_tiers {
            crossed
        } else {
            position.claimed_tiers
        };
        let signal = match decision {
            ExitDecision::Hold => None,
            ExitDecision::HardStop => Some(
                ExitSignal {
                    token_id: context.token_id,
                    mint_address: context.mint_address.clone(),
                    signal_type: SignalType::STOP_LOSS,
                    exit_price: price,
                    exit_fraction: Amount::one(),
                    exit_reason: "hard stop loss reached".to_owned(),
                    generated_at: now,
                    fibonacci_level: None,
                },
            ),
            ExitDecision::TrailingStop => Some(
                ExitSignal {
                    token_id: context.token_id,
                    mint_address: context.mint_address.clone(),
                    signal_type: SignalType::SELL_FULL,
                    exit_price: price,
                    exit_fraction: Amount::one(),
                    exit_reason: "trailing stop reached".to_owned(),
                    generated_at: now,
                    fibonacci_level: None,
                },
            ),
            ExitDecision::Tier { index, last } => {
                let level = if index < self.config.fibonacci_levels.len() {
                    Some(self.config.fibonacci_levels[index])
                } else {
                    None
                };
                if last {
                    Some(
                        ExitSignal {
                            token_id: context.token_id,
                            mint_address: context.mint_address.clone(),
                            signal_type: SignalType::SELL_FULL,
                            exit_price: price,
                            exit_fraction: Amount::one(),
                            exit_reason: "final Fibonacci tier reached".to_owned(),
                            generated_at: now,
                            fibonacci_level: level,
                        },
                    )
                } else {
                    Some(
                        ExitSignal {
                            token_id: context.token_id,
                            mint_address: context.mint_address.clone(),
                            signal_type: SignalType::SELL_PARTIAL,
                            exit_price: price,
                            exit_fraction: tier_fraction(index).fraction(),
                            exit_reason: "Fibonacci tier reached".to_owned(),
                            generated_at: now,
                            fibonacci_level: level,
                        },
                    )
                }
            },
        };
        ExitEvaluation { decision, signal, trailing_stop_price: stop, claimed_tiers }
    }
}

} // verus!
