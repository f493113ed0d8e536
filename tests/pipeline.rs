use simple_oracle_client::config::{check_required_fields, Config, ConfigError, ContractRoute};
use simple_oracle_client::decimal::{Decimal, Uint256};
use simple_oracle_client::handoff::{HandoffQueue, PushError};
use simple_oracle_client::oracle::{Oracle, SubmitError};
use simple_oracle_client::policy::Trigger;
use simple_oracle_client::querier::{redemption_unit, Querier};
use simple_oracle_client::quote::{Address, Asset, QuotePrice};
use simple_oracle_client::schedule::Scheduler;

const ONE: u128 = 1_000_000_000_000_000_000;

fn asset(tag: u8) -> Asset {
    Asset::new(Address::new([tag; 20]), 18, "ETH".to_string(), format!("vault{tag}"))
}

fn quote(tag: u8, atomics: u128, timestamp: u64) -> QuotePrice {
    QuotePrice::new(asset(tag), Decimal::new(atomics), timestamp)
}

fn route(tag: u8, contract: &str) -> ContractRoute {
    ContractRoute { ethereum_contract: Address::new([tag; 20]), contract: contract.to_string() }
}

fn routed_config() -> Config {
    let mut config = Config::default();
    config.assets.push(asset(1));
    config.assets.push(asset(2));
    config.contract_map.push(route(1, "osmo1first"));
    config.contract_map.push(route(2, "osmo1second"));
    config
}

#[test]
fn default_config_has_documented_tunables() {
    let config = Config::default();
    assert_eq!(config.ethereum_rpc_url, "http://localhost:8545");
    assert_eq!(config.osmosis_rpc_url, "https://osmosis-rpc.polkachu.com:443");
    assert_eq!(config.osmosis_grpc_url, "grpc://osmosis-grpc.polkachu.com:12590");
    assert_eq!(config.price_variance_threshold, Decimal::new(2_500_000_000_000_000));
    assert_eq!(config.check_variance_period, 15);
    assert_eq!(config.submission_period, 300);
    assert_eq!(config.min_time_between_quotes, 6);
    assert!(config.assets.is_empty());
    assert!(config.contract_map.is_empty());
}

#[test]
fn config_without_assets_is_refused() {
    let config = Config::default();
    assert!(matches!(check_required_fields(&config), Err(ConfigError::NoAssets)));
}

#[test]
fn config_with_unrouted_asset_is_refused() {
    let mut config = routed_config();
    config.assets.push(asset(3));
    match check_required_fields(&config) {
        Err(ConfigError::MissingContract(a)) => assert_eq!(a, Address::new([3; 20])),
        other => panic!("unexpected {other:?}"),
    }
    assert!(check_required_fields(&routed_config()).is_ok());
}

#[test]
fn querier_keeps_each_asset_once_and_defaults_zero_tunables() {
    let mut config = routed_config();
    config.assets.push(asset(1));
    config.check_variance_period = 0;
    config.submission_period = 0;
    config.min_time_between_quotes = 0;
    config.price_variance_threshold = Decimal::zero();
    let querier = Querier::new(&config);
    assert_eq!(querier.assets().len(), 2);
    assert_eq!(querier.check_variance_period(), 15);
    assert_eq!(querier.submission_period(), 300);
    assert!(!querier.significant_change(Decimal::new(1_002_000_000_000_000_000), Decimal::new(ONE)));
    assert!(querier.significant_change(Decimal::new(1_003_000_000_000_000_000), Decimal::new(ONE)));
    assert!(querier.last_submitted(&Address::new([1; 20])).is_none());
}

#[test]
fn querier_keeps_configured_tunables() {
    let mut config = routed_config();
    config.check_variance_period = 20;
    config.submission_period = 600;
    config.min_time_between_quotes = 10;
    config.price_variance_threshold = Decimal::new(10_000_000_000_000_000);
    let mut querier = Querier::new(&config);
    assert_eq!(querier.check_variance_period(), 20);
    assert_eq!(querier.submission_period(), 600);
    querier.record_submitted(quote(1, ONE, 100));
    assert!(!querier.should_submit(&quote(1, 1_005_000_000_000_000_000, 200), Trigger::VarianceCheck));
    assert!(!querier.should_submit(&quote(1, 2 * ONE, 109), Trigger::VarianceCheck));
    assert!(querier.should_submit(&quote(1, 2 * ONE, 110), Trigger::VarianceCheck));
}

#[test]
fn quotes_are_scaled_by_asset_decimals() {
    let querier = Querier::new(&routed_config());
    let mut six = asset(1);
    six.decimals = 6;
    let q = querier.quote_at(&six, 1_250_000, 77);
    assert_eq!(q.value, Decimal::new(1_250_000_000_000_000_000));
    assert_eq!(q.timestamp, 77);
    assert_eq!(q.asset, six);
    let now = querier.get_quote(&six, 2_000_000).unwrap();
    assert_eq!(now.value, Decimal::new(2 * ONE));
    assert!(now.timestamp > 1_600_000_000);
    let mut zero = asset(1);
    zero.decimals = 0;
    let huge = querier.quote_at(&zero, u128::MAX, 1);
    assert_eq!(huge.value, Decimal::from_uint256(Uint256::new(
        999_999_999_999_999_999,
        u128::MAX - 999_999_999_999_999_999,
    )));
}

#[test]
fn redemption_unit_is_a_power_of_ten() {
    assert_eq!(redemption_unit(0), Some(1));
    assert_eq!(redemption_unit(6), Some(1_000_000));
    assert_eq!(redemption_unit(18), Some(1_000_000_000_000_000_000));
    assert_eq!(redemption_unit(19), Some(10_000_000_000_000_000_000));
    assert_eq!(redemption_unit(20), None);
}

#[test]
fn table_is_keyed_by_source_contract() {
    let mut querier = Querier::new(&routed_config());
    querier.record_submitted(quote(1, ONE, 100));
    querier.record_submitted(quote(2, 3 * ONE, 105));
    querier.record_submitted(quote(1, 2 * ONE, 130));
    let first = querier.last_submitted(&Address::new([1; 20])).unwrap();
    assert_eq!((first.value, first.timestamp), (Decimal::new(2 * ONE), 130));
    let second = querier.last_submitted(&Address::new([2; 20])).unwrap();
    assert_eq!((second.value, second.timestamp), (Decimal::new(3 * ONE), 105));
    assert!(querier.should_submit(&quote(3, 0, 0), Trigger::VarianceCheck));
}

#[test]
fn scheduler_refreshes_at_once_and_checks_after_one_period() {
    let mut s = Scheduler::new(0, 15, 300);
    assert_eq!(s.next_deadline(), 0);
    assert_eq!(s.poll(0), Some(Trigger::ForcedRefresh));
    assert_eq!(s.next_deadline(), 15);
    assert_eq!(s.poll(14), None);
    assert_eq!(s.poll(15), Some(Trigger::VarianceCheck));
    assert_eq!(s.next_deadline(), 30);
}

#[test]
fn late_variance_check_fires_once_then_waits_a_full_period() {
    let mut s = Scheduler::new(0, 15, 300);
    assert_eq!(s.poll(0), Some(Trigger::ForcedRefresh));
    assert_eq!(s.poll(100), Some(Trigger::VarianceCheck));
    assert_eq!(s.poll(100), None);
    assert_eq!(s.next_deadline(), 115);
}

#[test]
fn late_forced_refresh_skips_missed_ticks() {
    let mut s = Scheduler::new(0, 1000, 300);
    assert_eq!(s.poll(0), Some(Trigger::ForcedRefresh));
    assert_eq!(s.poll(750), Some(Trigger::ForcedRefresh));
    assert_eq!(s.poll(750), None);
    assert_eq!(s.next_deadline(), 900);
}

#[test]
fn earlier_deadline_runs_first_and_ties_go_to_refresh() {
    let mut s = Scheduler::new(0, 300, 300);
    assert_eq!(s.poll(0), Some(Trigger::ForcedRefresh));
    assert_eq!(s.poll(300), Some(Trigger::ForcedRefresh));
    assert_eq!(s.poll(300), Some(Trigger::VarianceCheck));
    let mut t = Scheduler::new(0, 10, 25);
    assert_eq!(t.poll(0), Some(Trigger::ForcedRefresh));
    assert_eq!(t.poll(30), Some(Trigger::VarianceCheck));
    assert_eq!(t.poll(30), Some(Trigger::ForcedRefresh));
}

#[test]
fn full_queue_delays_without_dropping() {
    let mut queue = HandoffQueue::new(1);
    assert!(queue.try_push(quote(1, ONE, 100)).is_ok());
    let refused = match queue.try_push(quote(2, 2 * ONE, 101)) {
        Err(PushError::Full(q)) => q,
        other => panic!("unexpected {other:?}"),
    };
    assert_eq!(queue.len(), 1);
    assert_eq!(queue.pop().unwrap().timestamp, 100);
    assert!(queue.try_push(refused).is_ok());
    let delivered = queue.pop().unwrap();
    assert_eq!((delivered.value, delivered.timestamp), (Decimal::new(2 * ONE), 101));
    assert!(queue.pop().is_none());
}

#[test]
fn closed_queue_refuses_but_still_delivers() {
    let mut queue = HandoffQueue::new(2);
    assert!(queue.try_push(quote(1, ONE, 100)).is_ok());
    queue.close();
    assert!(queue.is_closed());
    assert!(matches!(queue.try_push(quote(2, ONE, 101)), Err(PushError::Closed(_))));
    assert_eq!(queue.pop().unwrap().timestamp, 100);
    assert!(queue.pop().is_none());
}

#[test]
fn failed_submission_does_not_block_next_asset() {
    let mut oracle = Oracle::new(&routed_config());
    let first = oracle.submit_quote(quote(1, ONE, 100)).unwrap();
    assert_eq!(first.contract, "osmo1first");
    assert!(oracle.is_busy());
    let failed = oracle.finish_submission(false).unwrap();
    assert_eq!(failed.timestamp, 100);
    assert!(!oracle.is_busy());
    let next = oracle.submit_quote(quote(2, 3 * ONE, 101)).unwrap();
    assert_eq!(next.contract, "osmo1second");
    assert_eq!(next.value, Decimal::new(3 * ONE));
    assert_eq!(next.timestamp, 101);
}

#[test]
fn worker_keeps_one_write_in_flight() {
    let mut oracle = Oracle::new(&routed_config());
    assert!(oracle.submit_quote(quote(1, ONE, 100)).is_ok());
    assert_eq!(oracle.submit_quote(quote(2, ONE, 101)).unwrap_err(), SubmitError::Busy);
    assert!(oracle.finish_submission(true).is_some());
    assert!(oracle.finish_submission(true).is_none());
}

#[test]
fn worker_refuses_unrouted_and_after_close() {
    let mut oracle = Oracle::new(&routed_config());
    assert_eq!(
        oracle.submit_quote(quote(9, ONE, 100)).unwrap_err(),
        SubmitError::MissingContract(Address::new([9; 20]))
    );
    assert!(!oracle.is_busy());
    oracle.close();
    assert!(oracle.is_stopped());
    assert_eq!(oracle.submit_quote(quote(1, ONE, 100)).unwrap_err(), SubmitError::Stopped);
}
