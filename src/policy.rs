//! The submission policy: which observations are worth propagating.

use vstd::prelude::*;

use crate::decimal::{abs_diff, product_greater, Decimal, Uint256, DECIMAL_FRACTIONAL};
use crate::quote::QuotePrice;

verus! {

/// How a timer treats ticks it could not fire on time.
#[derive(Clone, Copy, Debug, PartialEq, Eq, Structural)]
pub enum MissedTickBehavior {
    /// A late tick still fires once; the next one comes a full period after it.
    Delay,
    /// Late ticks are dropped; the timer keeps its original cadence.
    Skip,
}

/// Which timer caused a sweep.
#[derive(Clone, Copy, Debug, PartialEq, Eq, Structural)]
pub enum Trigger {
    /// The frequent check: only observations that moved enough are submitted.
    VarianceCheck,
    /// The slow refresh: observations are submitted whatever their change.
    ForcedRefresh,
}

impl Trigger {
    /// Whether sweeps of this kind apply the variance gate.
    pub fn checks_variance(&self) -> (r: bool)
        ensures
            r == (*self == Trigger::VarianceCheck),
    {
        match self {
            Trigger::VarianceCheck => true,
            Trigger::ForcedRefresh => false,
        }
    }

    /// Variance checks catch up on missed ticks; forced refreshes skip them.
    pub fn missed_tick_behavior(&self) -> (r: MissedTickBehavior)
        ensures
            *self == Trigger::VarianceCheck ==> r == MissedTickBehavior::Delay,
            *self == Trigger::ForcedRefresh ==> r == MissedTickBehavior::Skip,
    {
        match self {
            Trigger::VarianceCheck => MissedTickBehavior::Delay,
            Trigger::ForcedRefresh => MissedTickBehavior::Skip,
        }
    }
}

/// `|current - previous| / previous > threshold`, read as exact rationals; a zero
/// `previous` counts as the largest change.
pub open spec fn spec_significant_change(current: Decimal, previous: Decimal, threshold: Decimal) -> bool {
    previous.atoms() == 0 || abs_diff(current.atoms() as int, previous.atoms() as int)
        * DECIMAL_FRACTIONAL > threshold.atoms() * previous.atoms()
}

/// Whether `new` came at least `min_gap` seconds after `previous`.
pub open spec fn spec_spaced_enough(new: QuotePrice, previous: QuotePrice, min_gap: u64) -> bool {
    new.timestamp - previous.timestamp >= min_gap
}

/// Whether `new` is to be submitted, given the last observation submitted for its asset.
pub open spec fn spec_accepts(
    new: QuotePrice,
    previous: Option<QuotePrice>,
    trigger: Trigger,
    threshold: Decimal,
    min_gap: u64,
) -> bool {
    match previous {
        None => true,
        Some(prev) => (trigger == Trigger::ForcedRefresh || spec_significant_change(
            new.value,
            prev.value,
            threshold,
        )) && spec_spaced_enough(new, prev, min_gap),
    }
}

/// Whether the relative change from `previous` to `current` exceeds `threshold`.
pub fn significant_change(current: Decimal, previous: Decimal, threshold: Decimal) -> (r: bool)
    ensures
        r == spec_significant_change(current, previous, threshold),
{
    if previous.is_zero() {
        return true;
    }
    let delta = current.abs_diff(&previous);
    product_greater(
        delta.atomics(),
        Uint256::from_u128(DECIMAL_FRACTIONAL),
        threshold.atomics(),
        previous.atomics(),
    )
}

/// Decides whether `new` is submitted, given the last submitted observation of its asset.
pub fn accepts(
    new: &QuotePrice,
    previous: Option<&QuotePrice>,
    trigger: Trigger,
    threshold: Decimal,
    min_gap: u64,
) -> (r: bool)
    ensures
        r == spec_accepts(
            *new,
            match previous {
                Some(p) => Some(*p),
                None => None,
            },
            trigger,
            threshold,
            min_gap,
        ),
{
    match previous {
        None => true,
        Some(prev) => {
            if trigger.checks_variance() && !significant_change(new.value, prev.value, threshold) {
                return false;
            }
            new.timestamp >= prev.timestamp && new.timestamp - prev.timestamp >= min_gap
        },
    }
}

/// With nothing submitted yet for its asset, an observation is accepted whatever its value
/// and whatever the trigger.
pub proof fn lemma_first_observation_accepted(
    new: QuotePrice,
    trigger: Trigger,
    threshold: Decimal,
    min_gap: u64,
)
    ensures
        spec_accepts(new, None, trigger, threshold, min_gap),
{
}

/// On a variance check, an observation with a predecessor is accepted exactly when its
/// relative change exceeds the threshold (a zero predecessor always does) and it comes at
/// least `min_gap` seconds after the predecessor.
pub proof fn lemma_variance_check_acceptance(
    new: QuotePrice,
    previous: QuotePrice,
    threshold: Decimal,
    min_gap: u64,
)
    ensures
        spec_accepts(new, Some(previous), Trigger::VarianceCheck, threshold, min_gap) <==> (
        (previous.value.atoms() == 0 || abs_diff(
            new.value.atoms() as int,
            previous.value.atoms() as int,
        ) * DECIMAL_FRACTIONAL > threshold.atoms() * previous.value.atoms())
            && new.timestamp - previous.timestamp >= min_gap),
{
}

/// On a forced refresh, an observation with a predecessor is accepted exactly when it comes
/// at least `min_gap` seconds after the predecessor, whatever the values.
pub proof fn lemma_forced_refresh_acceptance(
    new: QuotePrice,
    previous: QuotePrice,
    threshold: Decimal,
    min_gap: u64,
)
    ensures
        spec_accepts(new, Some(previous), Trigger::ForcedRefresh, threshold, min_gap) <==> (
        new.timestamp - previous.timestamp >= min_gap),
{
}

/// What successive sweeps of kind `trigger` decide for observations of one asset, fed in
/// order, starting from `last` as the last submitted one; each acceptance becomes the new
/// last submitted observation.
pub open spec fn spec_decisions(
    last: Option<QuotePrice>,
    quotes: Seq<QuotePrice>,
    trigger: Trigger,
    threshold: Decimal,
    min_gap: u64,
) -> Seq<bool>
    decreases quotes.len(),
{
    if quotes.len() == 0 {
        Seq::empty()
    } else {
        let accepted = spec_accepts(quotes[0], last, trigger, threshold, min_gap);
        let next = if accepted {
            Some(quotes[0])
        } else {
            last
        };
        seq![accepted] + spec_decisions(next, quotes.drop_first(), trigger, threshold, min_gap)
    }
}

proof fn lemma_decisions_len(
    last: Option<QuotePrice>,
    quotes: Seq<QuotePrice>,
    trigger: Trigger,
    threshold: Decimal,
    min_gap: u64,
)
    ensures
        spec_decisions(last, quotes, trigger, threshold, min_gap).len() == quotes.len(),
    decreases quotes.len(),
{
    if quotes.len() > 0 {
        let accepted = spec_accepts(quotes[0], last, trigger, threshold, min_gap);
        let next = if accepted {
            Some(quotes[0])
        } else {
            last
        };
        lemma_decisions_len(next, quotes.drop_first(), trigger, threshold, min_gap);
    }
}

proof fn lemma_unchanged_never_accepted(
    last: QuotePrice,
    quotes: Seq<QuotePrice>,
    threshold: Decimal,
    min_gap: u64,
)
    requires
        last.value.atoms() != 0,
        forall|i: int| 0 <= i < quotes.len() ==> (#[trigger] quotes[i]).value == last.value,
    ensures
        forall|i: int|
            0 <= i < quotes.len() ==> !(#[trigger] spec_decisions(
                Some(last),
                quotes,
                Trigger::VarianceCheck,
                threshold,
                min_gap,
            )[i]),
    decreases quotes.len(),
{
    if quotes.len() > 0 {
        let rest = quotes.drop_first();
        assert(quotes[0].value == last.value);
        assert(threshold.atoms() * last.value.atoms() >= 0) by (nonlinear_arith)
            requires
                threshold.atoms() >= 0,
                last.value.atoms() >= 0,
        ;
        assert(!spec_accepts(quotes[0], Some(last), Trigger::VarianceCheck, threshold, min_gap));
        assert forall|i: int| 0 <= i < rest.len() implies (#[trigger] rest[i]).value
            == last.value by {
            assert(rest[i] == quotes[i + 1]);
        }
        lemma_unchanged_never_accepted(last, rest, threshold, min_gap);
        let ds = spec_decisions(Some(last), quotes, Trigger::VarianceCheck, threshold, min_gap);
        let tail = spec_decisions(Some(last), rest, Trigger::VarianceCheck, threshold, min_gap);
        lemma_decisions_len(Some(last), rest, Trigger::VarianceCheck, threshold, min_gap);
        assert(ds =~= seq![false] + tail);
        assert forall|i: int| 0 <= i < quotes.len() implies !(#[trigger] ds[i]) by {
            if i > 0 {
                assert(ds[i] == tail[i - 1]);
            }
        }
    }
}

/// Feeding one unchanged non-zero value on successive variance checks accepts it at most
/// once: after an acceptance, every later observation of that value is rejected.
pub proof fn lemma_unchanged_value_accepted_at_most_once(
    last: Option<QuotePrice>,
    quotes: Seq<QuotePrice>,
    value: Decimal,
    threshold: Decimal,
    min_gap: u64,
)
    requires
        value.atoms() != 0,
        forall|i: int| 0 <= i < quotes.len() ==> (#[trigger] quotes[i]).value == value,
    ensures
        forall|i: int, j: int|
            0 <= i < j < quotes.len() && #[trigger] spec_decisions(
                last,
                quotes,
                Trigger::VarianceCheck,
                threshold,
                min_gap,
            )[i] ==> !#[trigger] spec_decisions(
                last,
                quotes,
                Trigger::VarianceCheck,
                threshold,
                min_gap,
            )[j],
    decreases quotes.len(),
{
    if quotes.len() > 0 {
        let ds = spec_decisions(last, quotes, Trigger::VarianceCheck, threshold, min_gap);
        let rest = quotes.drop_first();
        assert forall|i: int| 0 <= i < rest.len() implies (#[trigger] rest[i]).value == value by {
            assert(rest[i] == quotes[i + 1]);
        }
        let first = spec_accepts(quotes[0], last, Trigger::VarianceCheck, threshold, min_gap);
        let next = if first {
            Some(quotes[0])
        } else {
            last
        };
        let tail = spec_decisions(next, rest, Trigger::VarianceCheck, threshold, min_gap);
        lemma_decisions_len(next, rest, Trigger::VarianceCheck, threshold, min_gap);
        assert(ds =~= seq![first] + tail);
        if first {
            lemma_unchanged_never_accepted(quotes[0], rest, threshold, min_gap);
        } else {
            lemma_unchanged_value_accepted_at_most_once(next, rest, value, threshold, min_gap);
        }
        assert forall|i: int, j: int| 0 <= i < j < quotes.len() && #[trigger] ds[i] implies !#[trigger] ds[j] by {
            assert(ds[j] == tail[j - 1]);
            if i > 0 {
                assert(ds[i] == tail[i - 1]);
            }
        }
    }
}

} // verus!
