//! Fibonacci extension targets: a base price times each configured
//! multiplier, in the order of the multipliers.

use crate::amount::{lemma_pow10_positive, unit, Amount};
use crate::config::strictly_ascending;
use vstd::prelude::*;

verus! {

/// One tier: the multiplier and the price it gives.
#[derive(Debug, Clone, Copy)]
pub struct FibonacciTarget {
    pub level: Amount,
    pub target_price: Amount,
}

/// Each target price is below every later one.
pub open spec fn targets_ascending(targets: Seq<FibonacciTarget>) -> bool {
    forall|i: int, j: int|
        0 <= i < j < targets.len() ==> targets[i].target_price@ < targets[j].target_price@
}

/// Every product of the base price and a level can be represented.
pub open spec fn all_representable(base_price: Amount, levels: Seq<Amount>) -> bool {
    forall|i: int| 0 <= i < levels.len() ==> (#[trigger] base_price.spec_checked_mul(levels[i])) is Some
}

/// Every product of the base price and a level is exact.
pub open spec fn all_exact(base_price: Amount, levels: Seq<Amount>) -> bool {
    forall|i: int| 0 <= i < levels.len() ==> #[trigger] base_price.multiplies_exactly(levels[i])
}

/// The tiers of a base price: for each level, in order, the level and the
/// base price times the level. There are none where a product cannot be
/// represented.
pub open spec fn spec_targets(base_price: Amount, levels: Seq<Amount>) -> Option<
    Seq<FibonacciTarget>,
> {
    if all_representable(base_price, levels) {
        Some(
            Seq::new(
                levels.len(),
                |i: int|
                    FibonacciTarget {
                        level: levels[i],
                        target_price: base_price.spec_checked_mul(levels[i]).unwrap(),
                    },
            ),
        )
    } else {
        None
    }
}

/// Of two amounts that are a positive base times two levels, the one of the
/// lower level is the lower.
pub proof fn lemma_products_ordered(base: int, low: int, high: int, a: int, b: int)
    requires
        base > 0,
        low < high,
        a * unit() == base * low,
        b * unit() == base * high,
    ensures
        a < b,
{
    lemma_pow10_positive(28);
    let u = unit();
    assert(a < b) by (nonlinear_arith)
        requires
            base > 0,
            low < high,
            a * u == base * low,
            b * u == base * high,
            u > 0,
    ;
}

/// Maps a base price and the configured multipliers to target prices.
pub struct FibonacciCalculator;

impl FibonacciCalculator {
    /// The tiers of `base_price`, one for each level and in the same order.
    /// Each target price is the product that `rust_decimal` computes, which
    /// is the exact product wherever no rounding is needed; for a positive
    /// base price and ascending levels the exact targets ascend strictly.
    pub fn targets(base_price: &Amount, levels: &Vec<Amount>) -> (r: Option<Vec<FibonacciTarget>>)
        ensures
            match r {
                Some(t) => Some(t@) == spec_targets(*base_price, levels@),
                None => spec_targets(*base_price, levels@) is None,
            },
            r matches Some(t) ==> forall|i: int|
                0 <= i < t@.len() && base_price.multiplies_exactly(levels@[i])
                    ==> (#[trigger] t@[i]).target_price@ * unit() == base_price@ * levels@[i]@,
            all_exact(*base_price, levels@) ==> r is Some,
            r matches Some(t) ==> (base_price@ > 0 && strictly_ascending(levels@) && all_exact(
                *base_price,
                levels@,
            ) ==> targets_ascending(t@)),
    {
        let n = levels.len();
        let mut out: Vec<FibonacciTarget> = Vec::new();
        let mut i: usize = 0;
        while i < n
            invariant
                i <= n,
                n == levels@.len(),
                out@.len() == i,
                forall|k: int|
                    0 <= k < i ==> (#[trigger] out@[k]).level == levels@[k] && Some(
                        out@[k].target_price,
                    ) == base_price.spec_checked_mul(levels@[k]),
                forall|k: int|
                    0 <= k < i && base_price.multiplies_exactly(levels@[k]) ==> (#[trigger] out@[k]).target_price@
                        * unit() == base_price@ * levels@[k]@,
            decreases n - i,
        {
            let level = levels[i];
            match base_price.checked_mul(&level) {
                Some(price) => {
                    out.push(FibonacciTarget { level, target_price: price });
                },
                None => {
                    assert(base_price.spec_checked_mul(levels@[i as int]) is None);
                    assert(!base_price.multiplies_exactly(levels@[i as int]));
                    return None;
                },
            }
            i += 1;
        }
        proof {
            assert(all_representable(*base_price, levels@)) by {
                assert forall|k: int| 0 <= k < levels@.len() implies (
                #[trigger] base_price.spec_checked_mul(levels@[k])) is Some by {
                    assert(out@[k].level == levels@[k]);
                }
            }
            assert(out@ =~= spec_targets(*base_price, levels@).unwrap());
            if base_price@ > 0 && strictly_ascending(levels@) && all_exact(*base_price, levels@) {
                assert forall|a: int, b: int| 0 <= a < b < out@.len() implies out@[a].target_price@
                    < out@[b].target_price@ by {
                    assert(base_price.multiplies_exactly(levels@[a]));
                    assert(base_price.multiplies_exactly(levels@[b]));
                    lemma_products_ordered(
                        base_price@,
                        levels@[a]@,
                        levels@[b]@,
                        out@[a].target_price@,
                        out@[b].target_price@,
                    );
                }
            }
        }
        Some(out)
    }
}

} // verus!
