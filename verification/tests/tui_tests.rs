use pmkt::cli::parse_flag;
use pmkt::control::ControlState;
use pmkt::market::{BotState, TradingMode};
use pmkt::tui::{handle_key, truncate, ActiveTab, Key, KeyPress, LoopStep};

fn press(c: char) -> KeyPress {
    KeyPress { key: Key::Char(c), control_only: false }
}

#[test]
fn test_tab_cycle_and_labels() {
    let mut t = ActiveTab::Main;
    let mut seen = Vec::new();
    for _ in 0..6 {
        seen.push(t.label());
        t = t.next();
    }
    assert_eq!(t, ActiveTab::Main);
    assert_eq!(seen, vec!["Main", "Bucket", "Signal", "Orders", "Health", "Risk"]);
}

#[test]
fn test_quit_keys() {
    let mut s = ControlState::new();
    assert_eq!(handle_key(&mut s, "12:00:00", ActiveTab::Main, press('q')), LoopStep::Quit);
    assert_eq!(handle_key(&mut s, "12:00:00", ActiveTab::Main, press('Q')), LoopStep::Quit);
    assert_eq!(
        handle_key(&mut s, "12:00:00", ActiveTab::Main, KeyPress { key: Key::Char('c'), control_only: true }),
        LoopStep::Quit
    );
    assert_eq!(handle_key(&mut s, "12:00:00", ActiveTab::Main, press('c')), LoopStep::Stay(ActiveTab::Main));
    assert!(s.event_log.is_empty());
}

#[test]
fn test_tab_keys() {
    let mut s = ControlState::new();
    let tab = KeyPress { key: Key::Tab, control_only: false };
    assert_eq!(handle_key(&mut s, "12:00:00", ActiveTab::RiskAlerts, tab), LoopStep::Stay(ActiveTab::Main));
    assert_eq!(handle_key(&mut s, "12:00:00", ActiveTab::Main, press('3')), LoopStep::Stay(ActiveTab::SignalExplanation));
    assert_eq!(handle_key(&mut s, "12:00:00", ActiveTab::Main, press('5')), LoopStep::Stay(ActiveTab::SystemHealth));
    assert_eq!(handle_key(&mut s, "12:00:00", ActiveTab::OrderLog, press('6')), LoopStep::Stay(ActiveTab::OrderLog));
}

#[test]
fn test_mode_key_cycles() {
    let mut s = ControlState::new();
    handle_key(&mut s, "12:00:00", ActiveTab::Main, press('m'));
    assert_eq!(s.mode, TradingMode::Dry);
    handle_key(&mut s, "12:00:00", ActiveTab::Main, press('m'));
    assert_eq!(s.mode, TradingMode::LiveDisarmed);
    handle_key(&mut s, "12:00:00", ActiveTab::Main, press('m'));
    assert_eq!(s.mode, TradingMode::Off);
    assert_eq!(s.event_log.len(), 3);
}

#[test]
fn test_arm_refused_when_unsafe() {
    let mut s = ControlState::new();
    s.mode = TradingMode::LiveDisarmed;
    handle_key(&mut s, "12:00:00", ActiveTab::Main, press('a'));
    assert_eq!(s.mode, TradingMode::LiveDisarmed);
    assert_eq!(s.last_error.as_deref(), Some("Cannot arm: safety checks failed"));
}

#[test]
fn test_arm_and_disarm_when_safe() {
    let mut s = ControlState::new();
    s.mode = TradingMode::LiveDisarmed;
    s.risk_state.artifact_valid = true;
    s.risk_state.reconciliation_complete = true;
    handle_key(&mut s, "12:00:00", ActiveTab::Main, press('a'));
    assert_eq!(s.mode, TradingMode::LiveArmed);
    handle_key(&mut s, "12:00:00", ActiveTab::Main, press('a'));
    assert_eq!(s.mode, TradingMode::LiveDisarmed);
    s.mode = TradingMode::Dry;
    handle_key(&mut s, "12:00:00", ActiveTab::Main, press('a'));
    assert_eq!(s.mode, TradingMode::Dry);
}

#[test]
fn test_kill_and_reload_keys() {
    let mut s = ControlState::new();
    s.mode = TradingMode::LiveArmed;
    assert_eq!(handle_key(&mut s, "12:00:00", ActiveTab::Main, press('k')), LoopStep::Stay(ActiveTab::Main));
    assert_eq!(s.mode, TradingMode::Off);
    assert_eq!(s.bot_state, BotState::Halted);
    assert!(s.risk_state.kill_switch_triggered);
    handle_key(&mut s, "12:00:00", ActiveTab::Main, press('r'));
    assert_eq!(
        s.last_action.as_deref(),
        Some("Reload artifacts (stub \u{2014} use pmkt-analyze to build)")
    );
}

#[test]
fn test_truncate() {
    assert_eq!(truncate("btc-5m", 12), "btc-5m");
    assert_eq!(truncate("btc-usd-gt-67000-5m", 12), "btc-usd-gt-\u{2026}");
    assert_eq!(truncate("abcd", 4), "abcd");
    assert_eq!(truncate("abcde", 4), "abc\u{2026}");
}

#[test]
fn test_parse_flag() {
    let args: Vec<String> = ["--time-left", "90", "--vol", "0.03", "--up-price"]
        .iter()
        .map(|s| s.to_string())
        .collect();
    assert_eq!(parse_flag(&args, "--time-left"), Some("90".to_string()));
    assert_eq!(parse_flag(&args, "--vol"), Some("0.03".to_string()));
    assert_eq!(parse_flag(&args, "--up-price"), None);
    assert_eq!(parse_flag(&args, "--missing"), None);
    assert_eq!(parse_flag(&[], "--vol"), None);
}

#[test]
fn test_no_key_reaches_live_trading_or_arms_unsafely() {
    let keys = ['q', 'Q', 'c', '1', '2', '3', '4', '5', '6', 'm', 'a', 'k', 'r', 'x'];
    let modes = [
        TradingMode::Off,
        TradingMode::Dry,
        TradingMode::LiveDisarmed,
        TradingMode::LiveArmed,
    ];
    for &mode in &modes {
        for &safe in &[false, true] {
            for &c in &keys {
                for &ctrl in &[false, true] {
                    let mut s = ControlState::new();
                    s.mode = mode;
                    s.risk_state.artifact_valid = safe;
                    s.risk_state.reconciliation_complete = safe;
                    handle_key(&mut s, "12:00:00", ActiveTab::Main, KeyPress { key: Key::Char(c), control_only: ctrl });
                    assert_ne!(s.mode, TradingMode::LiveTrading);
                    if s.mode == TradingMode::LiveArmed && mode != TradingMode::LiveArmed {
                        assert_eq!(mode, TradingMode::LiveDisarmed);
                        assert!(safe);
                    }
                    if s.mode.is_live() && !mode.is_live() {
                        assert_eq!(s.mode, TradingMode::LiveDisarmed);
                    }
                }
            }
        }
    }
}
