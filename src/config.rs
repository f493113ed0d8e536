//! The relay's configuration and the checks it must pass before the pipeline starts.

use vstd::prelude::*;

use crate::decimal::Decimal;
use crate::quote::{Address, Asset};

verus! {

/// Default relative change that a variance check must exceed: 0.25%.
pub const DEFAULT_PRICE_VARIANCE_THRESHOLD_ATOMICS: u128 = 2_500_000_000_000_000;

/// Default seconds between variance checks.
pub const DEFAULT_VARIANCE_CHECK_PERIOD: u64 = 15;

/// Default seconds between forced refreshes.
pub const DEFAULT_SUBMISSION_PERIOD: u64 = 300;

/// Default least number of seconds between two submissions for one asset.
pub const DEFAULT_MIN_TIME_BETWEEN_QUOTES: u64 = 6;

/// One entry of the destination map: the destination contract that receives the rate
/// read from a source contract.
#[derive(Clone, Debug)]
pub struct ContractRoute {
    pub ethereum_contract: Address,
    pub contract: String,
}

impl ContractRoute {
    /// A copy of this entry.
    pub fn duplicate(&self) -> (r: ContractRoute)
        ensures
            r == *self,
    {
        ContractRoute { ethereum_contract: self.ethereum_contract, contract: self.contract.clone() }
    }
}

/// A copy of `routes`.
pub fn copy_routes(routes: &Vec<ContractRoute>) -> (r: Vec<ContractRoute>)
    ensures
        r@ == routes@,
{
    let mut r: Vec<ContractRoute> = Vec::new();
    let mut i: usize = 0;
    while i < routes.len()
        invariant
            i <= routes@.len(),
            r@ == routes@.subrange(0, i as int),
        decreases routes@.len() - i,
    {
        r.push(routes[i].duplicate());
        assert(r@ =~= routes@.subrange(0, i + 1));
        i = i + 1;
    }
    assert(routes@.subrange(0, i as int) =~= routes@);
    r
}

/// The destination contract for `source` in `routes`; a later entry overrides an earlier one.
pub open spec fn spec_route(routes: Seq<ContractRoute>, source: Seq<u8>) -> Option<Seq<char>>
    decreases routes.len(),
{
    if routes.len() == 0 {
        None
    } else if routes.last().ethereum_contract@ == source {
        Some(routes.last().contract@)
    } else {
        spec_route(routes.drop_last(), source)
    }
}

/// Looks up the destination contract for `source`.
pub fn find_route(routes: &Vec<ContractRoute>, source: &Address) -> (r: Option<String>)
    ensures
        match r {
            Some(c) => spec_route(routes@, source@) == Some(c@),
            None => spec_route(routes@, source@) is None,
        },
{
    let mut i: usize = routes.len();
    assert(routes@.subrange(0, i as int) =~= routes@);
    while i > 0
        invariant
            i <= routes@.len(),
            spec_route(routes@, source@) == spec_route(routes@.subrange(0, i as int), source@),
        decreases i,
    {
        let entry = &routes[i - 1];
        assert(routes@.subrange(0, i - 1) =~= routes@.subrange(0, i as int).drop_last());
        if entry.ethereum_contract.same_as(source) {
            return Some(entry.contract.clone());
        }
        i = i - 1;
    }
    None
}

/// Everything the relay is configured with.
#[derive(Clone, Debug)]
pub struct Config {
    pub ethereum_rpc_url: String,
    pub osmosis_rpc_url: String,
    pub osmosis_grpc_url: String,
    pub price_variance_threshold: Decimal,
    pub check_variance_period: u64,
    pub submission_period: u64,
    pub min_time_between_quotes: u64,
    pub assets: Vec<Asset>,
    pub contract_map: Vec<ContractRoute>,
}

impl Default for Config {
    fn default() -> (r: Config)
        ensures
            r.ethereum_rpc_url@ == "http://localhost:8545"@,
            r.osmosis_rpc_url@ == "https://osmosis-rpc.polkachu.com:443"@,
            r.osmosis_grpc_url@ == "grpc://osmosis-grpc.polkachu.com:12590"@,
            r.price_variance_threshold.atoms() == DEFAULT_PRICE_VARIANCE_THRESHOLD_ATOMICS,
            r.check_variance_period == DEFAULT_VARIANCE_CHECK_PERIOD,
            r.submission_period == DEFAULT_SUBMISSION_PERIOD,
            r.min_time_between_quotes == DEFAULT_MIN_TIME_BETWEEN_QUOTES,
            r.assets@.len() == 0,
            r.contract_map@.len() == 0,
    {
        Config {
            ethereum_rpc_url: String::from_str("http://localhost:8545"),
            osmosis_rpc_url: String::from_str("https://osmosis-rpc.polkachu.com:443"),
            osmosis_grpc_url: String::from_str("grpc://osmosis-grpc.polkachu.com:12590"),
            price_variance_threshold: Decimal::new(DEFAULT_PRICE_VARIANCE_THRESHOLD_ATOMICS),
            check_variance_period: DEFAULT_VARIANCE_CHECK_PERIOD,
            submission_period: DEFAULT_SUBMISSION_PERIOD,
            min_time_between_quotes: DEFAULT_MIN_TIME_BETWEEN_QUOTES,
            assets: Vec::new(),
            contract_map: Vec::new(),
        }
    }
}

/// Why a configuration cannot start the relay.
#[derive(Clone, Debug)]
pub enum ConfigError {
    /// No asset is tracked.
    NoAssets,
    /// This tracked source contract has no destination contract.
    MissingContract(Address),
}

/// Whether every asset in `assets` has a destination contract in `routes`.
pub open spec fn all_routed(assets: Seq<Asset>, routes: Seq<ContractRoute>) -> bool {
    forall|i: int| 0 <= i < assets.len() ==> (#[trigger] spec_route(routes, assets[i].ethereum_contract@)) is Some
}

/// Checks that at least one asset is tracked and that each has a destination contract;
/// on a missing one, names the first asset without it.
pub fn check_required_fields(config: &Config) -> (r: Result<(), ConfigError>)
    ensures
        r is Ok <==> config.assets@.len() > 0 && all_routed(config.assets@, config.contract_map@),
        r matches Err(ConfigError::NoAssets) <==> config.assets@.len() == 0,
        r matches Err(ConfigError::MissingContract(a)) ==> exists|i: int|
            0 <= i < config.assets@.len() && config.assets@[i].ethereum_contract == a
                && spec_route(config.contract_map@, a@) is None
                && all_routed(config.assets@.subrange(0, i), config.contract_map@),
{
    if config.assets.len() == 0 {
        return Err(ConfigError::NoAssets);
    }
    let mut i: usize = 0;
    while i < config.assets.len()
        invariant
            i <= config.assets@.len(),
            all_routed(config.assets@.subrange(0, i as int), config.contract_map@),
        decreases config.assets@.len() - i,
    {
        let source = config.assets[i].ethereum_contract;
        if find_route(&config.contract_map, &source).is_none() {
            return Err(ConfigError::MissingContract(source));
        }
        proof {
            let next = config.assets@.subrange(0, i + 1);
            assert forall|j: int| 0 <= j < next.len() implies (#[trigger] spec_route(
                config.contract_map@,
                next[j].ethereum_contract@,
            )) is Some by {
                if j < i {
                    assert(next[j] == config.assets@.subrange(0, i as int)[j]);
                }
            }
        }
        i = i + 1;
    }
    assert(config.assets@.subrange(0, config.assets@.len() as int) =~= config.assets@);
    Ok(())
}

} // verus!
