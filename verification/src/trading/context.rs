//! The trading context builder: the snapshot of one token that an
//! evaluation works on, from its latest tick and its closed candles.
//!
//! The recent high and low are taken over the lookback window, the most
//! recent one-second candles up to the lookback in number.

use crate::amount::Amount;
use crate::models::{
    Candlestick15s, Candlestick1s, CoreError, MarketDataTick, PositionStatus, Token, TradingContext,
};
use vstd::prelude::*;

verus! {

/// The highest high of the candles from `from` up to, not including, `to`;
/// of two highs that are the same number, the earlier.
pub open spec fn highest_high(candles: Seq<Candlestick1s>, from: int, to: int) -> Amount
    decreases to - from,
{
    if to - from <= 1 {
        candles[from].high
    } else {
        let before = highest_high(candles, from, to - 1);
        if before@ >= candles[to - 1].high@ {
            before
        } else {
            candles[to - 1].high
        }
    }
}

/// The lowest low of the candles from `from` up to, not including, `to`; of
/// two lows that are the same number, the earlier.
pub open spec fn lowest_low(candles: Seq<Candlestick1s>, from: int, to: int) -> Amount
    decreases to - from,
{
    if to - from <= 1 {
        candles[from].low
    } else {
        let before = lowest_low(candles, from, to - 1);
        if before@ <= candles[to - 1].low@ {
            before
        } else {
            candles[to - 1].low
        }
    }
}

/// Where the lookback window starts.
pub open spec fn window_start(count: int, lookback: int) -> int {
    if lookback >= count {
        0
    } else {
        count - lookback
    }
}

/// There is enough data for a context: the minimum number of one-second
/// candles and at least one, a lookback of at least one candle, and a market
/// capitalisation on the tick.
pub open spec fn has_sufficient_data(
    candles_1s: Seq<Candlestick1s>,
    tick: MarketDataTick,
    lookback: usize,
    min_candles: usize,
) -> bool {
    &&& candles_1s.len() >= min_candles
    &&& candles_1s.len() >= 1
    &&& lookback >= 1
    &&& tick.market_cap is Some
}

/// The context is the snapshot that the data give.
pub open spec fn is_context_of(
    context: TradingContext,
    token: Token,
    position_status: PositionStatus,
    entry_price: Option<Amount>,
    candles_1s: Seq<Candlestick1s>,
    candles_15s: Seq<Candlestick15s>,
    tick: MarketDataTick,
    lookback: usize,
) -> bool {
    let count = candles_1s.len() as int;
    let start = window_start(count, lookback as int);
    &&& context.token_id == token.id
    &&& context.mint_address@ == token.mint_address@
    &&& Some(context.current_market_cap) == tick.market_cap
    &&& context.bonding_curve_cap == (match token.bonding_curve_cap {
        Some(cap) => Some(Amount::from_parts_spec(cap as int, 0)),
        None => None,
    })
    &&& context.entry_price == entry_price
    &&& context.current_price == tick.price
    &&& context.position_status == position_status
    &&& context.last_candle_1s == Some(candles_1s[count - 1])
    &&& context.last_candle_15s == (if candles_15s.len() > 0 {
        Some(candles_15s[candles_15s.len() - 1])
    } else {
        None
    })
    &&& context.recent_high == highest_high(candles_1s, start, count)
    &&& context.recent_low == lowest_low(candles_1s, start, count)
}

/// The highest high is the high of a candle in the window, and no candle in
/// the window has a higher one.
pub proof fn lemma_highest_high(candles: Seq<Candlestick1s>, from: int, to: int)
    requires
        0 <= from < to <= candles.len(),
    ensures
        exists|k: int| from <= k < to && highest_high(candles, from, to) == (#[trigger] candles[k]).high,
        forall|k: int| from <= k < to ==> (#[trigger] candles[k]).high@ <= highest_high(candles, from, to)@,
    decreases to - from,
{
    if to - from <= 1 {
        assert(highest_high(candles, from, to) == candles[from].high);
    } else {
        lemma_highest_high(candles, from, to - 1);
        let k = choose|k: int|
            from <= k < to - 1 && highest_high(candles, from, to - 1) == (#[trigger] candles[k]).high;
        if highest_high(candles, from, to - 1)@ >= candles[to - 1].high@ {
            assert(highest_high(candles, from, to) == candles[k].high);
        } else {
            assert(highest_high(candles, from, to) == candles[to - 1].high);
        }
    }
}

/// The lowest low is the low of a candle in the window, and no candle in the
/// window has a lower one.
pub proof fn lemma_lowest_low(candles: Seq<Candlestick1s>, from: int, to: int)
    requires
        0 <= from < to <= candles.len(),
    ensures
        exists|k: int| from <= k < to && lowest_low(candles, from, to) == (#[trigger] candles[k]).low,
        forall|k: int| from <= k < to ==> (#[trigger] candles[k]).low@ >= lowest_low(candles, from, to)@,
    decreases to - from,
{
    if to - from <= 1 {
        assert(lowest_low(candles, from, to) == candles[from].low);
    } else {
        lemma_lowest_low(candles, from, to - 1);
        let k = choose|k: int|
            from <= k < to - 1 && lowest_low(candles, from, to - 1) == (#[trigger] candles[k]).low;
        if lowest_low(candles, from, to - 1)@ <= candles[to - 1].low@ {
            assert(lowest_low(candles, from, to) == candles[k].low);
        } else {
            assert(lowest_low(candles, from, to) == candles[to - 1].low);
        }
    }
}

/// Builds the context of a token for one evaluation. With too little data
/// there is none, and the token is to be skipped for this cycle.
pub fn build_context(
    token: &Token,
    position_status: PositionStatus,
    entry_price: Option<Amount>,
    candles_1s: &Vec<Candlestick1s>,
    candles_15s: &Vec<Candlestick15s>,
    tick: &MarketDataTick,
    lookback: usize,
    min_candles: usize,
) -> (r: Result<TradingContext, CoreError>)
    ensures
        r is Ok <==> has_sufficient_data(candles_1s@, *tick, lookback, min_candles),
        r matches Err(e) ==> e == CoreError::InsufficientData,
        r matches Ok(context) ==> is_context_of(
            context,
            *token,
            position_status,
            entry_price,
            candles_1s@,
            candles_15s@,
            *tick,
            lookback,
        ),
{
    let count = candles_1s.len();
    if count < min_candles || count == 0 || lookback == 0 {
        return Err(CoreError::InsufficientData);
    }
    let current_market_cap = match tick.market_cap {
        Some(cap) => cap,
        None => { return Err(CoreError::InsufficientData); },
    };
    let start = if lookback >= count {
        0
    } else {
        count - lookback
    };
    let mut recent_high = candles_1s[start].high;
    let mut recent_low = candles_1s[start].low;
    let mut i: usize = start + 1;
    while i < count
        invariant
            start < i <= count,
            count == candles_1s@.len(),
            recent_high == highest_high(candles_1s@, start as int, i as int),
            recent_low == lowest_low(candles_1s@, start as int, i as int),
        decreases count - i,
    {
        recent_high = recent_high.max(candles_1s[i].high);
        recent_low = recent_low.min(candles_1s[i].low);
        i += 1;
    }
    let last_candle_15s = if candles_15s.len() > 0 {
        Some(candles_15s[candles_15s.len() - 1])
    } else {
        None
    };
    let bonding_curve_cap = match token.bonding_curve_cap {
        Some(cap) => Some(Amount::from_i64(cap)),
        None => None,
    };
    Ok(
        TradingContext {
            token_id: token.id,
            mint_address: token.mint_address.clone(),
            current_market_cap,
            bonding_curve_cap,
            entry_price,
            current_price: tick.price,
            position_status,
            last_candle_1s: Some(candles_1s[count - 1]),
            last_candle_15s,
            recent_high,
            recent_low,
        },
    )
}

} // verus!
