use pmkt::control::{push_recent, ControlState, EVENT_LOG_CAPACITY, RECENT_RESULTS_CAPACITY};
use pmkt::market::{BotState, TradingMode};
use pmkt::reconcile::ReconciliationStatus;
use pmkt::risk::RiskState;

#[test]
fn test_risk_state_new() {
    let r = RiskState::new();
    assert!(r.connectivity_healthy);
    assert!(!r.artifact_valid);
    assert!(!r.reconciliation_complete);
    assert!(!r.is_safe_for_live());
    let d = RiskState::default();
    assert!(!d.connectivity_healthy);
}

#[test]
fn test_risk_state_kill_switch() {
    let mut r = RiskState::new();
    r.artifact_valid = true;
    r.reconciliation_complete = true;
    assert!(r.is_safe_for_live());
    r.trigger_kill_switch();
    assert!(r.kill_switch_triggered);
    assert!(!r.is_safe_for_live());
    assert_eq!(r.risk_flags, vec!["KILL SWITCH TRIGGERED".to_string()]);
}

#[test]
fn test_record_event_line() {
    let mut s = ControlState::new();
    s.record_event("12:34:56", "hello".to_string());
    assert_eq!(s.event_log, vec!["[12:34:56] hello".to_string()]);
    assert_eq!(s.last_action.as_deref(), Some("hello"));
}

#[test]
fn test_event_log_bounded() {
    let mut s = ControlState::new();
    for i in 0..(EVENT_LOG_CAPACITY + 5) {
        s.record_event("00:00:00", format!("event {}", i));
    }
    assert_eq!(s.event_log.len(), EVENT_LOG_CAPACITY);
    assert_eq!(s.event_log[0], "[00:00:00] event 5");
    assert_eq!(s.event_log[EVENT_LOG_CAPACITY - 1], "[00:00:00] event 204");
}

#[test]
fn test_control_kill_switch() {
    let mut s = ControlState::new();
    s.set_mode("12:00:00", TradingMode::Dry);
    s.trigger_kill_switch("12:00:01");
    assert_eq!(s.mode, TradingMode::Off);
    assert_eq!(s.bot_state, BotState::Halted);
    assert!(s.risk_state.kill_switch_triggered);
    assert_eq!(s.event_log[1], "[12:00:01] \u{26a0}\u{fe0f}  KILL SWITCH TRIGGERED");
}

#[test]
fn test_control_messages() {
    let mut s = ControlState::new();
    s.set_mode("12:00:00", TradingMode::LiveDisarmed);
    assert_eq!(s.event_log[0], "[12:00:00] Mode changed to LIVE_DISARMED");
    s.load_artifact("12:00:02", "abc");
    assert!(s.risk_state.artifact_valid);
    assert_eq!(s.event_log[1], "[12:00:02] Artifact loaded: abc");
    s.set_current_market("12:00:03", "btc-5m");
    assert_eq!(s.bot_state, BotState::Monitoring);
    assert_eq!(s.event_log[2], "[12:00:03] Market activated: btc-5m");
    s.note_signal("12:00:04", "Signal: x".to_string(), true);
    assert_eq!(s.bot_state, BotState::SignalReady);
    s.set_error("12:00:05", "bad".to_string());
    assert_eq!(s.last_error.as_deref(), Some("bad"));
    assert_eq!(s.last_action.as_deref(), Some("ERROR: bad"));
    assert_eq!(s.event_log[3], "[12:00:04] Signal: x");
    assert_eq!(s.event_log[4], "[12:00:05] ERROR: bad");
}

#[test]
fn test_recent_results_bounded() {
    let mut v: Vec<u32> = Vec::new();
    for i in 0..60 {
        push_recent(&mut v, i);
    }
    assert_eq!(v.len(), RECENT_RESULTS_CAPACITY);
    assert_eq!(v[0], 59);
    assert_eq!(v[49], 10);
}

#[test]
fn test_reconciliation_stub() {
    let r = ReconciliationStatus::perform_stub();
    assert!(r.complete && r.open_orders_confirmed && r.positions_confirmed);
    assert_eq!(r.notes, vec!["stub reconciliation: no exchange query in v1".to_string()]);
}
