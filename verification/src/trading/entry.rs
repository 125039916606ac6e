//! The entry detector: whether a token shows a dip below its reference
//! level followed by a reclaim above it.
//!
//! The reference level is the token's bonding-curve cap where it is known,
//! and the configured psychological level otherwise; it never depends on a
//! position. The dip threshold is the reference level less the minimum dip.
//! A signal is given where the token has no position, the lookback low or
//! the low of the latest one-second candle is at or below the threshold, and
//! the market capitalisation is above the reference level.

use crate::amount::{pow10, unit, Amount};
use crate::clock::now_millis;
use crate::config::{Percentage, TradingConfig};
use crate::models::{EntrySignal, PositionStatus, SignalType, TradingContext};
use vstd::prelude::*;
use vstd::string::*;

verus! {

/// The multiplier of the target where no level is configured: 1.618.
pub open spec fn spec_default_level() -> Amount {
    Amount::from_parts_spec(1618, 3)
}

/// The multiplier of the target: the first configured level.
pub open spec fn spec_first_level(config: TradingConfig) -> Amount {
    if config.fibonacci_levels@.len() > 0 {
        config.fibonacci_levels@[0]
    } else {
        spec_default_level()
    }
}

/// The reference level of a token.
pub open spec fn spec_reference_level(config: TradingConfig, context: TradingContext) -> Amount {
    match context.bonding_curve_cap {
        Some(cap) => cap,
        None => Amount::from_parts_spec(config.psychological_level as int, 0),
    }
}

/// The dip threshold below a reference level.
pub open spec fn spec_dip_threshold(config: TradingConfig, reference_level: Amount) -> Option<
    Amount,
> {
    reference_level.spec_checked_mul(config.min_dip_percentage.spec_complement())
}

/// The target of an entry at a reference level: the level times the first
/// Fibonacci multiplier.
pub open spec fn spec_entry_target(config: TradingConfig, reference_level: Amount) -> Option<
    Amount,
> {
    reference_level.spec_checked_mul(spec_first_level(config))
}

/// The stop of an entry at a reference level: the level less the hard stop
/// percentage.
pub open spec fn spec_entry_stop(config: TradingConfig, reference_level: Amount) -> Option<Amount> {
    reference_level.spec_checked_mul(config.hard_stop_loss_percentage.spec_complement())
}

/// The lookback low or the low of the latest one-second candle is at or
/// below the threshold.
pub open spec fn spec_has_recent_dip(context: TradingContext, dip_threshold: Amount) -> bool {
    ||| context.recent_low@ <= dip_threshold@
    ||| (context.last_candle_1s matches Some(candle) && candle.low@ <= dip_threshold@)
}

/// The reason that an entry signal gives.
pub open spec fn spec_entry_reason(reference_level: Amount) -> Seq<char> {
    "Dip and reclaim above "@ + reference_level.spec_text() + " (bonding curve cap)"@
}

/// The context qualifies for an entry: no position, a dip, a reclaim, and
/// prices that can be computed.
pub open spec fn spec_qualifies(config: TradingConfig, context: TradingContext) -> bool {
    let reference = spec_reference_level(config, context);
    &&& context.position_status == PositionStatus::NONE
    &&& spec_dip_threshold(config, reference) matches Some(threshold) && spec_has_recent_dip(
        context,
        threshold,
    )
    &&& context.current_market_cap@ > reference@
    &&& spec_entry_target(config, reference) is Some
    &&& spec_entry_stop(config, reference) is Some
}

/// The signal is the `BUY` at the reference level for the context's token.
pub open spec fn is_entry_signal(
    signal: EntrySignal,
    config: TradingConfig,
    context: TradingContext,
    reference_level: Amount,
    now: i64,
) -> bool {
    &&& signal.token_id == context.token_id
    &&& signal.mint_address@ == context.mint_address@
    &&& signal.signal_type == SignalType::BUY
    &&& signal.entry_price == reference_level
    &&& Some(signal.target_price) == spec_entry_target(config, reference_level)
    &&& Some(signal.stop_loss) == spec_entry_stop(config, reference_level)
    &&& signal.reason@ == spec_entry_reason(reference_level)
    &&& signal.generated_at == now
}

/// The prices of the signal are exact wherever the products need no
/// rounding: the target is the reference level times the multiplier, and the
/// stop is the reference level less the hard stop percentage.
pub open spec fn has_exact_prices(signal: EntrySignal, config: TradingConfig) -> bool {
    let reference = signal.entry_price;
    &&& reference.multiplies_exactly(spec_first_level(config)) ==> signal.target_price@ * unit()
        == reference@ * spec_first_level(config)@
    &&& reference.multiplies_exactly(config.hard_stop_loss_percentage.spec_complement())
        ==> signal.stop_loss@ * 10000 == reference@ * (10000
        - config.hard_stop_loss_percentage.hundredths)
}

/// A fall of `percent` percent is at least the minimum dip, taken as it is
/// configured, to the hundredth of a percent.
pub open spec fn spec_reaches_minimum_dip(percent: Amount, minimum: Percentage) -> bool {
    percent@ * 100 >= minimum.hundredths * unit()
}

/// What `validate_dip` says: the fall from the recent high, as a percentage
/// of the high, is at least the minimum dip; `false` where a step cannot be
/// computed.
pub open spec fn spec_validate_dip(
    config: TradingConfig,
    current_market_cap: Amount,
    recent_high: Amount,
) -> bool {
    let hundred = Amount::from_parts_spec(100, 0);
    match recent_high.spec_checked_sub(current_market_cap) {
        Some(fall) => match fall.spec_checked_div(recent_high) {
            Some(part) => match part.spec_checked_mul(hundred) {
                Some(percent) => spec_reaches_minimum_dip(percent, config.min_dip_percentage),
                None => false,
            },
            None => false,
        },
        None => false,
    }
}

/// Without a position-free token there is no entry.
pub proof fn lemma_no_entry_beside_a_position(config: TradingConfig, context: TradingContext)
    requires
        context.position_status != PositionStatus::NONE,
    ensures
        !spec_qualifies(config, context),
{
}

/// Whether a fall of `percent` percent reaches the minimum dip. The minimum
/// counts as it is configured: against 3.5% a fall of 3.2% falls short.
pub fn reaches_minimum_dip(percent: &Amount, minimum: Percentage) -> (r: bool)
    ensures
        r == (percent@ * 100 >= minimum.hundredths * unit()),
        r == spec_reaches_minimum_dip(*percent, minimum),
{
    let least = Amount::new(minimum.hundredths as i64, 2);
    proof {
        least.lemma_view_scaled();
        assert(pow10(2) == 100) by {
            reveal_with_fuel(pow10, 3);
        }
        assert(least@ * 100 == minimum.hundredths * unit());
    }
    percent.ge(&least)
}

/// Decides on entries.
pub struct EntryDetector {
    config: TradingConfig,
}

impl EntryDetector {
    /// The thresholds that the detector works with.
    pub closed spec fn config_view(&self) -> TradingConfig {
        self.config
    }

    /// A detector with the given thresholds.
    pub fn new(config: TradingConfig) -> (r: EntryDetector)
        ensures
            r.config_view() == config,
    {
        EntryDetector { config }
    }

    /// Evaluates the context now.
    pub fn detect_entry_signal(&self, context: &TradingContext, lookback_period: usize) -> (r:
        Option<EntrySignal>)
        ensures
            r is Some <==> spec_qualifies(self.config_view(), *context),
            r matches Some(signal) ==> has_exact_prices(signal, self.config_view()) && exists|
                now: i64,
            |
                is_entry_signal(
                    signal,
                    self.config_view(),
                    *context,
                    spec_reference_level(self.config_view(), *context),
                    now,
                ),
    {
        let now = now_millis();
        let r = self.detect_entry_signal_at(context, lookback_period, now);
        proof {
            if r is Some {
                assert(is_entry_signal(
                    r.unwrap(),
                    self.config_view(),
                    *context,
                    spec_reference_level(self.config_view(), *context),
                    now,
                ));
            }
        }
        r
    }

    /// Evaluates the context at the time `now`. The lookback period has
    /// already gone into the context's recent low and plays no part here.
    pub fn detect_entry_signal_at(
        &self,
        context: &TradingContext,
        lookback_period: usize,
        now: i64,
    ) -> (r: Option<EntrySignal>)
        ensures
            r is Some <==> spec_qualifies(self.config_view(), *context),
            r matches Some(signal) ==> is_entry_signal(
                signal,
                self.config_view(),
                *context,
                spec_reference_level(self.config_view(), *context),
                now,
            ) && has_exact_prices(signal, self.config_view()),
    {
        if context.position_status != PositionStatus::NONE {
            return None;
        }
        let reference_level = self.get_trading_reference_level(context);
        let dip_threshold = match reference_level.checked_mul(
            &self.config.min_dip_percentage.complement(),
        ) {
            Some(threshold) => threshold,
            None => { return None; },
        };
        if !self.has_recent_dip(context, dip_threshold, lookback_period) {
            return None;
        }
        if !self.validate_reclaim(context.current_market_cap, reference_level) {
            return None;
        }
        self.create_entry_signal(context, reference_level, now)
    }

    /// The reference level of the context's token: its bonding-curve cap, or
    /// the psychological level where the cap is not known.
    pub fn get_trading_reference_level(&self, context: &TradingContext) -> (r: Amount)
        ensures
            r == spec_reference_level(self.config_view(), *context),
    {
        match context.bonding_curve_cap {
            Some(cap) => cap,
            None => Amount::from_u64(self.config.psychological_level),
        }
    }

    /// Whether the context shows a dip to the threshold or below.
    pub fn has_recent_dip(
        &self,
        context: &TradingContext,
        dip_threshold: Amount,
        lookback_period: usize,
    ) -> (r: bool)
        ensures
            r == spec_has_recent_dip(*context, dip_threshold),
    {
        if context.recent_low.le(&dip_threshold) {
            return true;
        }
        match &context.last_candle_1s {
            Some(last_candle) => last_candle.low.le(&dip_threshold),
            None => false,
        }
    }

    /// The `BUY` at the reference level, where its target and its stop can
    /// be computed.
    pub fn create_entry_signal(
        &self,
        context: &TradingContext,
        reference_level: Amount,
        now: i64,
    ) -> (r: Option<EntrySignal>)
        ensures
            r is Some <==> spec_entry_target(self.config_view(), reference_level) is Some
                && spec_entry_stop(self.config_view(), reference_level) is Some,
            r matches Some(signal) ==> is_entry_signal(
                signal,
                self.config_view(),
                *context,
                reference_level,
                now,
            ) && has_exact_prices(signal, self.config_view()),
    {
        let level = if self.config.fibonacci_levels.len() > 0 {
            self.config.fibonacci_levels[0]
        } else {
            Amount::new(1618, 3)
        };
        let keep = self.config.hard_stop_loss_percentage.complement();
        let stop_loss = match reference_level.checked_mul(&keep) {
            Some(stop_loss) => stop_loss,
            None => { return None; },
        };
        let target_price = match reference_level.checked_mul(&level) {
            Some(target_price) => target_price,
            None => { return None; },
        };
        proof {
            if reference_level.multiplies_exactly(keep) {
                let s = stop_loss@;
                let r = reference_level@;
                let k = keep@;
                let u = unit();
                let h = 10000 - self.config.hard_stop_loss_percentage.hundredths;
                crate::amount::lemma_pow10_positive(28);
                assert(s * 10000 == r * h) by (nonlinear_arith)
                    requires
                        s * u == r * k,
                        k * 10000 == h * u,
                        u > 0,
                ;
            }
        }
        let text = reference_level.to_text();
        let reason = "Dip and reclaim above ".to_owned().concat(text.as_str()).concat(
            " (bonding curve cap)",
        );
        Some(
            EntrySignal {
                token_id: context.token_id,
                mint_address: context.mint_address.clone(),
                signal_type: SignalType::BUY,
                entry_price: reference_level,
                target_price,
                stop_loss,
                reason,
                generated_at: now,
            },
        )
    }

    /// Whether the market capitalisation has fallen from the recent high by
    /// the minimum dip at least; `false` where the fall cannot be computed,
    /// as for a recent high of zero.
    pub fn validate_dip(&self, current_market_cap: Amount, recent_high: Amount) -> (r: bool)
        ensures
            r == spec_validate_dip(self.config_view(), current_market_cap, recent_high),
    {
        let hundred = Amount::new(100, 0);
        match recent_high.checked_sub(&current_market_cap) {
            Some(fall) => match fall.checked_div(&recent_high) {
                Some(part) => match part.checked_mul(&hundred) {
                    Some(percent) => reaches_minimum_dip(&percent, self.config.min_dip_percentage),
                    None => false,
                },
                None => false,
            },
            None => false,
        }
    }

    /// Whether the market capitalisation is above the reference level.
    pub fn validate_reclaim(&self, current_market_cap: Amount, reference_level: Amount) -> (r: bool)
        ensures
            r == (current_market_cap@ > reference_level@),
    {
        current_market_cap.gt(&reference_level)
    }
}

} // verus!
