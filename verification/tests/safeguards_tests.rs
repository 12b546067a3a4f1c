use pmkt::market::TradingMode;
use pmkt::risk::RiskState;
use pmkt::safeguards::{run_pre_trade_checks, EntryLimits, NotionalCheck, SafetyCheckResult};

/// The order of the original scenarios: 10 contracts at 0.80 against the
/// default 50.00 notional limit.
fn make_notional() -> NotionalCheck {
    let price = 0.80_f64;
    let size = 10.0_f64;
    let notional = price * size;
    let limit = 50.0_f64;
    NotionalCheck {
        exceeds_limit: notional > limit,
        notional: format!("{:.2}", notional),
        limit: format!("{:.2}", limit),
    }
}

#[test]
fn test_off_mode_fails() {
    let risk_state = RiskState::new();
    let limits = EntryLimits::default();
    let result = run_pre_trade_checks(TradingMode::Off, &risk_state, &limits, 0, 0, 120, &make_notional());
    assert!(!result.passed);
    assert!(result.failures.iter().any(|f| f.contains("OFF")));
}

#[test]
fn test_kill_switch_fails() {
    let mut risk_state = RiskState::new();
    risk_state.kill_switch_triggered = true;
    let limits = EntryLimits::default();
    let result = run_pre_trade_checks(TradingMode::Dry, &risk_state, &limits, 0, 0, 120, &make_notional());
    assert!(!result.passed);
    assert!(result.failures.iter().any(|f| f.contains("kill switch")));
}

#[test]
fn test_live_disarmed_fails() {
    let mut risk_state = RiskState::new();
    risk_state.artifact_valid = true;
    risk_state.reconciliation_complete = true;
    let limits = EntryLimits::default();
    let result = run_pre_trade_checks(
        TradingMode::LiveDisarmed,
        &risk_state,
        &limits,
        0,
        0,
        120,
        &make_notional(),
    );
    assert!(!result.passed);
}

#[test]
fn test_dry_mode_passes_with_fresh_data() {
    let risk_state = RiskState::new();
    let limits = EntryLimits::default();
    let result = run_pre_trade_checks(TradingMode::Dry, &risk_state, &limits, 0, 0, 120, &make_notional());
    assert!(result.passed, "failures: {:?}", result.failures);
}

#[test]
fn test_stale_data_fails() {
    let risk_state = RiskState::new();
    let limits = EntryLimits::default();
    // market data 60s old, exceeds the 30s limit
    let result = run_pre_trade_checks(TradingMode::Dry, &risk_state, &limits, 60, 0, 120, &make_notional());
    assert!(!result.passed);
}

#[test]
fn test_every_failure_in_order() {
    let mut risk_state = RiskState::new();
    risk_state.kill_switch_triggered = true;
    risk_state.connectivity_healthy = false;
    risk_state.session_loss_limit_breached = true;
    risk_state.daily_loss_limit_breached = true;
    let limits = EntryLimits::default();
    let notional = NotionalCheck {
        exceeds_limit: true,
        notional: "80.00".to_string(),
        limit: "50.00".to_string(),
    };
    let result = run_pre_trade_checks(TradingMode::LiveDisarmed, &risk_state, &limits, 45, 31, 10, &notional);
    assert!(!result.passed);
    assert_eq!(
        result.failures,
        vec![
            "kill switch is active",
            "live mode is DISARMED",
            "strategy artifact is not valid",
            "reconciliation not complete",
            "exchange connectivity unhealthy",
            "session loss limit breached",
            "daily loss limit breached",
            "market data stale: 45s old (max 30s)",
            "order book stale: 31s old (max 30s)",
            "too close to market close: 10s remaining (min 30s)",
            "notional 80.00 exceeds limit 50.00",
        ]
    );
}

#[test]
fn test_live_armed_passes_when_ready() {
    let mut risk_state = RiskState::new();
    risk_state.artifact_valid = true;
    risk_state.reconciliation_complete = true;
    let limits = EntryLimits::default();
    let result = run_pre_trade_checks(TradingMode::LiveArmed, &risk_state, &limits, 30, 30, 30, &make_notional());
    assert!(result.passed);
    assert!(result.failures.is_empty());
}

#[test]
fn test_result_constructors() {
    let ok = SafetyCheckResult::ok();
    assert!(ok.passed && ok.failures.is_empty());
    let fail = SafetyCheckResult::fail("boom".to_string());
    assert!(!fail.passed);
    assert_eq!(fail.failures, vec!["boom".to_string()]);
}
