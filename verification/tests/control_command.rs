use control_plane::control_command::{
    ControlAction, ControlCommand, ControlCommandSeverity, ControlCommandType,
};
use control_plane::ids::{StrategyId, UnixNanos, UUID4};
use control_plane::overlay::RiskOverlayTable;

fn command(command_type: ControlCommandType, target_id: &str, ttl_ms: u64) -> ControlCommand {
    ControlCommand {
        command_id: UUID4::from_text("2d89666b-1a1e-4a75-b193-4eb3b454c757"),
        command_type,
        target_type: "Strategy".to_string(),
        target_id: target_id.to_string(),
        severity: ControlCommandSeverity::Critical,
        ttl_ms,
        requires_ack: true,
        reasoner_id: "GlobalExposureReasoner".to_string(),
        policy_version: "risk-policy-v17".to_string(),
        graph_snapshot_id: "snapshot-8842".to_string(),
        explanation: "test".to_string(),
        evidence: vec!["position:btc-perp".to_string()],
    }
}

#[test]
fn pause_strategy_resolves_to_stop() {
    let cmd = command(ControlCommandType::PauseStrategy, "stat_arb-001", 30_000);
    let actions = cmd.resolve(UnixNanos::from(1_000));
    assert_eq!(
        actions,
        vec![ControlAction::StopStrategy { strategy_id: StrategyId::new("stat_arb-001") }]
    );
}

#[test]
fn resume_strategy_resolves_to_resume() {
    let cmd = command(ControlCommandType::ResumeStrategy, "stat_arb-001", 0);
    let actions = cmd.resolve(UnixNanos::from(1_000));
    assert_eq!(
        actions,
        vec![ControlAction::ResumeStrategy { strategy_id: StrategyId::new("stat_arb-001") }]
    );
}

#[test]
fn throttle_strategy_resolves_to_veto_with_ttl_applied() {
    let cmd = command(ControlCommandType::ThrottleStrategy, "stat_arb-001", 30_000);
    let actions = cmd.resolve(UnixNanos::from(1_000));
    assert_eq!(
        actions,
        vec![ControlAction::VetoStrategy {
            strategy_id: StrategyId::new("stat_arb-001"),
            // 30_000 ms * 1_000_000 ns/ms + now(1_000)
            expires_at: UnixNanos::from(30_000_001_000),
        }]
    );
}

#[test]
fn require_human_approval_also_resolves_to_veto() {
    let cmd = command(ControlCommandType::RequireHumanApproval, "stat_arb-001", 60_000);
    let actions = cmd.resolve(UnixNanos::from(0));
    assert_eq!(
        actions,
        vec![ControlAction::VetoStrategy {
            strategy_id: StrategyId::new("stat_arb-001"),
            expires_at: UnixNanos::from(60_000_000_000),
        }]
    );
}

#[test]
fn unimplemented_command_types_resolve_to_unsupported() {
    let types = [
        ControlCommandType::DisableVenue,
        ControlCommandType::ChangeRiskLimit,
        ControlCommandType::ChangeCapitalAllocation,
        ControlCommandType::SetTradingState,
        ControlCommandType::ForceHedge,
        ControlCommandType::CancelOrders,
        ControlCommandType::CancelInstrumentOrders,
        ControlCommandType::ReduceExposure,
        ControlCommandType::RejectOrderIntent,
    ];
    for command_type in types {
        let cmd = command(command_type, "stat_arb-001", 0);
        let actions = cmd.resolve(UnixNanos::from(0));
        assert_eq!(actions, vec![ControlAction::Unsupported { command_type }]);
    }
}

#[test]
fn unsupported_commands_may_target_anything() {
    let cmd = command(ControlCommandType::DisableVenue, "BINANCE", 0);
    assert_eq!(
        cmd.resolve(UnixNanos::from(0)),
        vec![ControlAction::Unsupported { command_type: ControlCommandType::DisableVenue }]
    );
}

#[test]
fn expiry_saturates() {
    for (ttl_ms, now) in [(u64::MAX, 0), (1, u64::MAX), (u64::MAX / 1_000_000, u64::MAX)] {
        let cmd = command(ControlCommandType::ThrottleStrategy, "S-001", ttl_ms);
        assert_eq!(
            cmd.resolve(UnixNanos::from(now)),
            vec![ControlAction::VetoStrategy {
                strategy_id: StrategyId::new("S-001"),
                expires_at: UnixNanos::from(u64::MAX),
            }]
        );
    }
}

#[test]
fn a_zero_time_to_live_expires_at_once() {
    let cmd = command(ControlCommandType::ThrottleStrategy, "S-001", 0);
    assert_eq!(
        cmd.resolve(UnixNanos::from(7)),
        vec![ControlAction::VetoStrategy {
            strategy_id: StrategyId::new("S-001"),
            expires_at: UnixNanos::from(7),
        }]
    );
}

fn apply(table: &mut RiskOverlayTable, actions: Vec<ControlAction>) {
    for action in actions {
        match action {
            ControlAction::VetoStrategy { strategy_id, expires_at } => {
                table.veto_strategy(strategy_id, expires_at)
            }
            ControlAction::ResumeStrategy { strategy_id } => {
                table.clear_strategy_veto(&strategy_id)
            }
            _ => {}
        }
    }
}

#[test]
fn throttling_vetoes_for_the_time_to_live_and_resuming_lifts_it() {
    let id = StrategyId::new("S-001");
    let other = StrategyId::new("S-002");
    let mut table = RiskOverlayTable::new();

    let throttle = command(ControlCommandType::ThrottleStrategy, "S-001", 5);
    apply(&mut table, throttle.resolve(UnixNanos::from(100)));
    assert!(table.is_vetoed(&id, UnixNanos::from(5_000_099)));
    assert!(!table.is_vetoed(&id, UnixNanos::from(5_000_100)));
    assert!(!table.is_vetoed(&other, UnixNanos::from(100)));

    let resume = command(ControlCommandType::ResumeStrategy, "S-001", 0);
    apply(&mut table, resume.resolve(UnixNanos::from(200)));
    assert!(!table.is_vetoed(&id, UnixNanos::from(200)));
}
