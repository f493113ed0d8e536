use simple_oracle_client::config::Config;
use simple_oracle_client::decimal::Decimal;
use simple_oracle_client::policy::{accepts, significant_change, MissedTickBehavior, Trigger};
use simple_oracle_client::querier::Querier;
use simple_oracle_client::quote::{Address, Asset, QuotePrice};

const ONE: u128 = 1_000_000_000_000_000_000;

fn asset(tag: u8) -> Asset {
    Asset::new(Address::new([tag; 20]), 18, "ETH".to_string(), format!("vault{tag}"))
}

fn quote(tag: u8, atomics: u128, timestamp: u64) -> QuotePrice {
    QuotePrice::new(asset(tag), Decimal::new(atomics), timestamp)
}

fn threshold() -> Decimal {
    Decimal::new(2_500_000_000_000_000)
}

#[test]
fn first_observation_is_always_accepted() {
    let q = quote(1, 0, 0);
    assert!(accepts(&q, None, Trigger::VarianceCheck, threshold(), 6));
    assert!(accepts(&q, None, Trigger::ForcedRefresh, threshold(), 6));
}

#[test]
fn variance_below_threshold_is_rejected() {
    let previous = quote(1, ONE, 100);
    let new = quote(1, 1_002_470_000_000_000_000, 200);
    assert!(!significant_change(new.value, previous.value, threshold()));
    assert!(!accepts(&new, Some(&previous), Trigger::VarianceCheck, threshold(), 6));
}

#[test]
fn variance_above_threshold_is_accepted() {
    let previous = quote(1, ONE, 100);
    let new = quote(1, 1_002_600_000_000_000_000, 200);
    assert!(significant_change(new.value, previous.value, threshold()));
    assert!(accepts(&new, Some(&previous), Trigger::VarianceCheck, threshold(), 6));
}

#[test]
fn variance_counts_falls_as_well_as_rises() {
    let previous = quote(1, ONE, 100);
    let new = quote(1, 997_000_000_000_000_000, 200);
    assert!(accepts(&new, Some(&previous), Trigger::VarianceCheck, threshold(), 6));
}

#[test]
fn change_exactly_at_threshold_is_rejected() {
    let previous = quote(1, ONE, 100);
    let new = quote(1, 1_002_500_000_000_000_000, 200);
    assert!(!significant_change(new.value, previous.value, threshold()));
}

#[test]
fn zero_previous_counts_as_significant() {
    let previous = quote(1, 0, 100);
    let new = quote(1, 0, 200);
    assert!(significant_change(new.value, previous.value, threshold()));
    assert!(accepts(&new, Some(&previous), Trigger::VarianceCheck, threshold(), 6));
}

#[test]
fn too_soon_after_last_submission_is_rejected() {
    let previous = quote(1, ONE, 100);
    let early = quote(1, 2 * ONE, 105);
    let on_time = quote(1, 2 * ONE, 106);
    assert!(!accepts(&early, Some(&previous), Trigger::VarianceCheck, threshold(), 6));
    assert!(accepts(&on_time, Some(&previous), Trigger::VarianceCheck, threshold(), 6));
}

#[test]
fn earlier_timestamp_than_last_submission_is_rejected() {
    let previous = quote(1, ONE, 100);
    let stale = quote(1, 2 * ONE, 50);
    assert!(!accepts(&stale, Some(&previous), Trigger::ForcedRefresh, threshold(), 6));
}

#[test]
fn forced_refresh_ignores_unchanged_value() {
    let previous = quote(1, ONE, 100);
    let new = quote(1, ONE, 400);
    assert!(accepts(&new, Some(&previous), Trigger::ForcedRefresh, threshold(), 6));
    let too_soon = quote(1, ONE, 103);
    assert!(!accepts(&too_soon, Some(&previous), Trigger::ForcedRefresh, threshold(), 6));
}

#[test]
fn forced_refresh_updates_last_submitted() {
    let mut config = Config::default();
    config.assets.push(asset(1));
    let mut querier = Querier::new(&config);
    querier.record_submitted(quote(1, ONE, 100));

    let new = quote(1, ONE, 400);
    assert!(querier.should_submit(&new, Trigger::ForcedRefresh));
    querier.record_submitted(new);

    let last = querier.last_submitted(&Address::new([1; 20])).unwrap();
    assert_eq!(last.value, Decimal::new(ONE));
    assert_eq!(last.timestamp, 400);
}

#[test]
fn unchanged_value_is_accepted_once_on_variance_checks() {
    let mut config = Config::default();
    config.assets.push(asset(1));
    let mut querier = Querier::new(&config);
    let mut accepted = 0;
    for tick in 0..10u64 {
        let q = quote(1, ONE, 100 + 15 * tick);
        if querier.should_submit(&q, Trigger::VarianceCheck) {
            accepted += 1;
            querier.record_submitted(q);
        }
    }
    assert_eq!(accepted, 1);
    assert_eq!(querier.last_submitted(&Address::new([1; 20])).unwrap().timestamp, 100);
}

#[test]
fn triggers_have_their_own_tick_policy() {
    assert_eq!(Trigger::VarianceCheck.missed_tick_behavior(), MissedTickBehavior::Delay);
    assert_eq!(Trigger::ForcedRefresh.missed_tick_behavior(), MissedTickBehavior::Skip);
    assert!(Trigger::VarianceCheck.checks_variance());
    assert!(!Trigger::ForcedRefresh.checks_variance());
}
