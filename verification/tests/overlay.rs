use std::sync::{Arc, RwLock};

use control_plane::ids::{StrategyId, UnixNanos};
use control_plane::overlay::RiskOverlayTable;

#[test]
fn unvetoed_strategy_is_not_vetoed() {
    let table = RiskOverlayTable::new();
    let strategy_id = StrategyId::new("S-001");
    assert!(!table.is_vetoed(&strategy_id, UnixNanos::from(100)));
}

#[test]
fn veto_applies_before_expiry_and_not_after() {
    let mut table = RiskOverlayTable::new();
    let strategy_id = StrategyId::new("S-001");
    table.veto_strategy(strategy_id.clone(), UnixNanos::from(1_000));

    assert!(table.is_vetoed(&strategy_id, UnixNanos::from(500)));
    assert!(table.is_vetoed(&strategy_id, UnixNanos::from(999)));
    assert!(!table.is_vetoed(&strategy_id, UnixNanos::from(1_000)));
    assert!(!table.is_vetoed(&strategy_id, UnixNanos::from(1_500)));
}

#[test]
fn clear_strategy_veto_lifts_it_immediately() {
    let mut table = RiskOverlayTable::new();
    let strategy_id = StrategyId::new("S-001");
    table.veto_strategy(strategy_id.clone(), UnixNanos::from(1_000));
    assert!(table.is_vetoed(&strategy_id, UnixNanos::from(500)));

    table.clear_strategy_veto(&strategy_id);
    assert!(!table.is_vetoed(&strategy_id, UnixNanos::from(500)));
}

#[test]
fn a_veto_set_under_a_lock_is_seen_by_every_holder() {
    let table = Arc::new(RwLock::new(RiskOverlayTable::new()));
    let handle = table.clone();
    let strategy_id = StrategyId::new("S-001");

    handle.write().unwrap().veto_strategy(strategy_id.clone(), UnixNanos::from(1_000));

    assert!(table.read().unwrap().is_vetoed(&strategy_id, UnixNanos::from(500)));
}

#[test]
fn vetoes_are_scoped_per_strategy() {
    let mut table = RiskOverlayTable::new();
    let vetoed = StrategyId::new("S-001");
    let other = StrategyId::new("S-002");
    table.veto_strategy(vetoed.clone(), UnixNanos::from(1_000));

    assert!(table.is_vetoed(&vetoed, UnixNanos::from(500)));
    assert!(!table.is_vetoed(&other, UnixNanos::from(500)));

    table.veto_strategy(other.clone(), UnixNanos::from(2_000));
    table.clear_strategy_veto(&vetoed);
    assert!(!table.is_vetoed(&vetoed, UnixNanos::from(500)));
    assert!(table.is_vetoed(&other, UnixNanos::from(500)));
}

#[test]
fn the_latest_veto_counts() {
    let mut table = RiskOverlayTable::default();
    let strategy_id = StrategyId::new("S-001");
    table.veto_strategy(strategy_id.clone(), UnixNanos::from(1_000));
    table.veto_strategy(strategy_id.clone(), UnixNanos::from(200));

    assert!(table.is_vetoed(&strategy_id, UnixNanos::from(199)));
    assert!(!table.is_vetoed(&strategy_id, UnixNanos::from(200)));
}

#[test]
fn every_veto_ends() {
    let mut table = RiskOverlayTable::new();
    let strategy_id = StrategyId::new("S-001");
    table.veto_strategy(strategy_id.clone(), UnixNanos::from(u64::MAX));

    assert!(table.is_vetoed(&strategy_id, UnixNanos::from(u64::MAX - 1)));
    assert!(!table.is_vetoed(&strategy_id, UnixNanos::from(u64::MAX)));
}

#[test]
fn clearing_an_unvetoed_strategy_changes_nothing() {
    let mut table = RiskOverlayTable::new();
    let vetoed = StrategyId::new("S-001");
    table.veto_strategy(vetoed.clone(), UnixNanos::from(1_000));
    table.clear_strategy_veto(&StrategyId::new("S-002"));
    assert!(table.is_vetoed(&vetoed, UnixNanos::from(0)));
}
