//! The sourcing side of the pipeline: the registry of tracked assets, the table of the
//! last observation submitted per source contract, and the decisions taken on each sweep.

use vstd::prelude::*;

use crate::config::{
    Config, DEFAULT_MIN_TIME_BETWEEN_QUOTES, DEFAULT_PRICE_VARIANCE_THRESHOLD_ATOMICS,
    DEFAULT_SUBMISSION_PERIOD, DEFAULT_VARIANCE_CHECK_PERIOD,
};
use crate::decimal::{pow10, rescaled, Decimal};
use crate::policy::{accepts, significant_change, spec_accepts, spec_significant_change, Trigger};
use crate::quote::{Address, Asset, AssetView, QuotePrice};
use crate::utils::{unix_now, ClockBeforeEpoch};

verus! {

/// Whether some asset of `assets` has the identity `a`.
pub open spec fn holds_asset(assets: Seq<Asset>, a: AssetView) -> bool {
    exists|i: int| 0 <= i < assets.len() && (#[trigger] assets[i]@) == a
}

/// Whether no two assets of `assets` share an identity.
pub open spec fn distinct_assets(assets: Seq<Asset>) -> bool {
    forall|i: int, j: int| 0 <= i < j < assets.len() ==> assets[i]@ != assets[j]@
}

/// The most recent entry of `entries` recorded under `key`.
pub open spec fn spec_latest(entries: Seq<QuotePrice>, key: Seq<u8>) -> Option<QuotePrice>
    decreases entries.len(),
{
    if entries.len() == 0 {
        None
    } else if entries.last().key() == key {
        Some(entries.last())
    } else {
        spec_latest(entries.drop_last(), key)
    }
}

/// `value`, or `default` where `value` is zero.
pub open spec fn or_default(value: u64, default: u64) -> u64 {
    if value == 0 {
        default
    } else {
        value
    }
}

proof fn lemma_latest_update(entries: Seq<QuotePrice>, i: int, quote: QuotePrice, key: Seq<u8>)
    requires
        0 <= i < entries.len(),
        entries[i].key() == quote.key(),
        forall|j: int| i < j < entries.len() ==> (#[trigger] entries[j].key()) != quote.key(),
    ensures
        spec_latest(entries.update(i, quote), key) == if key == quote.key() {
            Some(quote)
        } else {
            spec_latest(entries, key)
        },
    decreases entries.len(),
{
    if i == entries.len() - 1 {
        assert(entries.update(i, quote).drop_last() =~= entries.drop_last());
    } else {
        assert(entries.update(i, quote).drop_last() =~= entries.drop_last().update(i, quote));
        lemma_latest_update(entries.drop_last(), i, quote, key);
    }
}

/// Decides, sweep after sweep, which observations are handed on for submission.
pub struct Querier {
    assets: Vec<Asset>,
    last_submitted: Vec<QuotePrice>,
    price_variance_threshold: Decimal,
    check_variance_period: u64,
    submission_period: u64,
    min_time_between_quotes: u64,
}

impl Querier {
    /// The tracked assets.
    pub closed spec fn registry(&self) -> Seq<Asset> {
        self.assets@
    }

    /// The last observation submitted for the source contract `key`.
    pub closed spec fn last_for(&self, key: Seq<u8>) -> Option<QuotePrice> {
        spec_latest(self.last_submitted@, key)
    }

    /// The relative change a variance check must exceed.
    pub closed spec fn threshold(&self) -> Decimal {
        self.price_variance_threshold
    }

    /// Seconds between variance checks.
    pub closed spec fn variance_period(&self) -> u64 {
        self.check_variance_period
    }

    /// Seconds between forced refreshes.
    pub closed spec fn refresh_period(&self) -> u64 {
        self.submission_period
    }

    /// Least number of seconds between two submissions for one source contract.
    pub closed spec fn min_gap(&self) -> u64 {
        self.min_time_between_quotes
    }

    /// A querier for the assets of `config`, each kept once, with nothing submitted yet.
    /// A tunable left at zero takes its default.
    pub fn new(config: &Config) -> (r: Querier)
        ensures
            forall|j: int|
                0 <= j < config.assets@.len() ==> holds_asset(
                    r.registry(),
                    #[trigger] config.assets@[j]@,
                ),
            forall|i: int|
                0 <= i < r.registry().len() ==> holds_asset(
                    config.assets@,
                    #[trigger] r.registry()[i]@,
                ),
            distinct_assets(r.registry()),
            forall|key: Seq<u8>| r.last_for(key) is None,
            r.threshold().atoms() == if config.price_variance_threshold.atoms() == 0 {
                DEFAULT_PRICE_VARIANCE_THRESHOLD_ATOMICS as nat
            } else {
                config.price_variance_threshold.atoms()
            },
            r.variance_period() == or_default(
                config.check_variance_period,
                DEFAULT_VARIANCE_CHECK_PERIOD,
            ),
            r.refresh_period() == or_default(config.submission_period, DEFAULT_SUBMISSION_PERIOD),
            r.min_gap() == or_default(
                config.min_time_between_quotes,
                DEFAULT_MIN_TIME_BETWEEN_QUOTES,
            ),
    {
        let mut assets: Vec<Asset> = Vec::new();
        let mut i: usize = 0;
        while i < config.assets.len()
            invariant
                i <= config.assets@.len(),
                forall|j: int|
                    0 <= j < i ==> holds_asset(assets@, #[trigger] config.assets@[j]@),
                forall|k: int|
                    0 <= k < assets@.len() ==> holds_asset(
                        config.assets@,
                        #[trigger] assets@[k]@,
                    ),
                distinct_assets(assets@),
            decreases config.assets@.len() - i,
        {
            let candidate = &config.assets[i];
            if !contains_asset(&assets, candidate) {
                let ghost before = assets@;
                assets.push(candidate.duplicate());
                proof {
                    assert(assets@[before.len() as int]@ == candidate@);
                    assert forall|j: int| 0 <= j <= i implies holds_asset(
                        assets@,
                        #[trigger] config.assets@[j]@,
                    ) by {
                        if j < i {
                            let k = choose|k: int|
                                0 <= k < before.len() && (#[trigger] before[k]@)
                                    == config.assets@[j]@;
                            assert(assets@[k] == before[k]);
                        } else {
                            assert(assets@[before.len() as int]@ == config.assets@[j]@);
                        }
                    }
                    assert forall|k: int| 0 <= k < assets@.len() implies holds_asset(
                        config.assets@,
                        #[trigger] assets@[k]@,
                    ) by {
                        if k < before.len() {
                            assert(assets@[k] == before[k]);
                        } else {
                            assert(config.assets@[i as int]@ == assets@[k]@);
                        }
                    }
                    assert forall|a: int, b: int|
                        0 <= a < b < assets@.len() implies assets@[a]@ != assets@[b]@ by {
                        if b < before.len() {
                            assert(assets@[a] == before[a] && assets@[b] == before[b]);
                        } else {
                            assert(assets@[a] == before[a]);
                            if before[a]@ == candidate@ {
                                assert(holds_asset(before, candidate@));
                            }
                        }
                    }
                }
            }
            i = i + 1;
        }
        let threshold = if config.price_variance_threshold.is_zero() {
            Decimal::new(DEFAULT_PRICE_VARIANCE_THRESHOLD_ATOMICS)
        } else {
            config.price_variance_threshold
        };
        let r = Querier {
            assets,
            last_submitted: Vec::new(),
            price_variance_threshold: threshold,
            check_variance_period: if config.check_variance_period == 0 {
                DEFAULT_VARIANCE_CHECK_PERIOD
            } else {
                config.check_variance_period
            },
            submission_period: if config.submission_period == 0 {
                DEFAULT_SUBMISSION_PERIOD
            } else {
                config.submission_period
            },
            min_time_between_quotes: if config.min_time_between_quotes == 0 {
                DEFAULT_MIN_TIME_BETWEEN_QUOTES
            } else {
                config.min_time_between_quotes
            },
        };
        r
    }

    /// The tracked assets, each once.
    pub fn assets(&self) -> (r: &Vec<Asset>)
        ensures
            r@ == self.registry(),
    {
        &self.assets
    }

    /// Seconds between variance checks.
    pub fn check_variance_period(&self) -> (r: u64)
        ensures
            r == self.variance_period(),
    {
        self.check_variance_period
    }

    /// Seconds between forced refreshes.
    pub fn submission_period(&self) -> (r: u64)
        ensures
            r == self.refresh_period(),
    {
        self.submission_period
    }

    /// The observation of `asset` whose raw reading is `raw_rate`, taken at `timestamp`.
    pub fn quote_at(&self, asset: &Asset, raw_rate: u128, timestamp: u64) -> (r: QuotePrice)
        ensures
            r.value.atoms() == rescaled(raw_rate as nat, asset.decimals as nat),
            r.asset@ == asset@,
            r.asset.ethereum_contract == asset.ethereum_contract,
            r.timestamp == timestamp,
    {
        QuotePrice::new(asset.duplicate(), Decimal::from_atomics(raw_rate, asset.decimals), timestamp)
    }

    /// The observation of `asset` whose raw reading is `raw_rate`, stamped with the
    /// current time; fails when the clock reads before the epoch.
    pub fn get_quote(&self, asset: &Asset, raw_rate: u128) -> (r: Result<
        QuotePrice,
        ClockBeforeEpoch,
    >)
        ensures
            r matches Ok(q) ==> q.value.atoms() == rescaled(raw_rate as nat, asset.decimals as nat)
                && q.asset@ == asset@ && q.asset.ethereum_contract == asset.ethereum_contract,
    {
        let now = unix_now()?;
        Ok(self.quote_at(asset, raw_rate, now))
    }

    /// Whether the change from `previous` to `current` exceeds this querier's threshold.
    pub fn significant_change(&self, current: Decimal, previous: Decimal) -> (r: bool)
        ensures
            r == spec_significant_change(current, previous, self.threshold()),
    {
        significant_change(current, previous, self.price_variance_threshold)
    }

    /// The last observation submitted for the source contract `contract`.
    pub fn last_submitted(&self, contract: &Address) -> (r: Option<&QuotePrice>)
        ensures
            match r {
                Some(q) => self.last_for(contract@) == Some(*q),
                None => self.last_for(contract@) is None,
            },
    {
        match self.position_of(contract) {
            Some(i) => Some(&self.last_submitted[i]),
            None => None,
        }
    }

    /// The index of the most recent table entry for `contract`.
    fn position_of(&self, contract: &Address) -> (r: Option<usize>)
        ensures
            match r {
                Some(i) => {
                    &&& i < self.last_submitted@.len()
                    &&& self.last_submitted@[i as int].key() == contract@
                    &&& self.last_for(contract@) == Some(self.last_submitted@[i as int])
                    &&& forall|j: int|
                        i < j < self.last_submitted@.len() ==> (#[trigger] self.last_submitted@[j].key())
                            != contract@
                },
                None => self.last_for(contract@) is None,
            },
    {
        let entries = &self.last_submitted;
        let mut i: usize = entries.len();
        assert(entries@ == self.last_submitted@);
        assert(entries@.subrange(0, i as int) =~= entries@);
        while i > 0
            invariant
                entries@ == self.last_submitted@,
                i <= entries@.len(),
                spec_latest(entries@, contract@) == spec_latest(
                    entries@.subrange(0, i as int),
                    contract@,
                ),
                forall|j: int| i <= j < entries@.len() ==> (#[trigger] entries@[j].key()) != contract@,
            decreases i,
        {
            assert(entries@.subrange(0, i - 1) =~= entries@.subrange(0, i as int).drop_last());
            if entries[i - 1].asset.ethereum_contract.same_as(contract) {
                assert(entries@.subrange(0, i as int).last() == entries@[i - 1]);
                return Some(i - 1);
            }
            i = i - 1;
        }
        None
    }

    /// Whether `quote` is to be submitted on a sweep of kind `trigger`, given what was
    /// last submitted for its source contract.
    pub fn should_submit(&self, quote: &QuotePrice, trigger: Trigger) -> (r: bool)
        ensures
            r == spec_accepts(
                *quote,
                self.last_for(quote.key()),
                trigger,
                self.threshold(),
                self.min_gap(),
            ),
    {
        let previous = self.last_submitted(&quote.asset.ethereum_contract);
        accepts(quote, previous, trigger, self.price_variance_threshold, self.min_time_between_quotes)
    }

    /// Records `quote` as the last observation submitted for its source contract, once it
    /// has been handed on.
    pub fn record_submitted(&mut self, quote: QuotePrice)
        ensures
            forall|key: Seq<u8>|
                #![trigger final(self).last_for(key)]
                final(self).last_for(key) == if key == quote.key() {
                    Some(quote)
                } else {
                    old(self).last_for(key)
                },
            final(self).registry() == old(self).registry(),
            final(self).threshold() == old(self).threshold(),
            final(self).variance_period() == old(self).variance_period(),
            final(self).refresh_period() == old(self).refresh_period(),
            final(self).min_gap() == old(self).min_gap(),
    {
        match self.position_of(&quote.asset.ethereum_contract) {
            Some(i) => {
                let ghost before = self.last_submitted@;
                self.last_submitted.set(i, quote);
                proof {
                    assert forall|key: Seq<u8>| #![auto]
                        spec_latest(self.last_submitted@, key) == if key == quote.key() {
                            Some(quote)
                        } else {
                            spec_latest(before, key)
                        } by {
                        lemma_latest_update(before, i as int, quote, key);
                    }
                }
            },
            None => {
                let ghost before = self.last_submitted@;
                self.last_submitted.push(quote);
                assert(self.last_submitted@.drop_last() =~= before);
            },
        }
    }
}

/// The number of raw share units in one whole share with `decimals` decimals, `10^decimals`,
/// when it fits in 64 bits.
pub fn redemption_unit(decimals: u32) -> (r: Option<u64>)
    ensures
        match r {
            Some(unit) => unit == pow10(decimals as nat),
            None => pow10(decimals as nat) > u64::MAX,
        },
{
    let mut unit: u64 = 1;
    let mut i: u32 = 0;
    while i < decimals
        invariant
            i <= decimals,
            unit == pow10(i as nat),
        decreases decimals - i,
    {
        match unit.checked_mul(10) {
            Some(next) => unit = next,
            None => {
                proof {
                    lemma_pow10_grows(i as nat, decimals as nat);
                }
                return None;
            },
        }
        i = i + 1;
    }
    Some(unit)
}

proof fn lemma_pow10_grows(a: nat, b: nat)
    requires
        a < b,
    ensures
        pow10(b) >= 10 * pow10(a),
    decreases b,
{
    if a + 1 < b {
        lemma_pow10_grows(a, (b - 1) as nat);
    }
}

/// Whether `assets` holds an asset with the identity of `asset`.
fn contains_asset(assets: &Vec<Asset>, asset: &Asset) -> (r: bool)
    ensures
        r == holds_asset(assets@, asset@),
{
    let mut i: usize = 0;
    while i < assets.len()
        invariant
            i <= assets@.len(),
            forall|j: int| 0 <= j < i ==> (#[trigger] assets@[j]@) != asset@,
        decreases assets@.len() - i,
    {
        if assets[i].same_as(asset) {
            return true;
        }
        i = i + 1;
    }
    false
}

} // verus!
