use pmkt::execution::OrderStatus;
use pmkt::market::{
    parse_mode, parse_outcome, parse_participation, BotState, MarketId, MarketOutcome,
    ParticipationMode, Side, TradingMode,
};

#[test]
fn test_mode_labels_round_trip() {
    for m in [
        TradingMode::Off,
        TradingMode::Dry,
        TradingMode::LiveDisarmed,
        TradingMode::LiveArmed,
        TradingMode::LiveTrading,
    ] {
        assert_eq!(parse_mode(m.as_str()), m);
    }
    assert_eq!(TradingMode::LiveDisarmed.as_str(), "LIVE_DISARMED");
    assert_eq!(parse_mode("garbage"), TradingMode::Off);
    assert_eq!(parse_mode("dry"), TradingMode::Off);
}

#[test]
fn test_outcome_labels_round_trip() {
    for o in [MarketOutcome::Up, MarketOutcome::Down, MarketOutcome::Unknown] {
        assert_eq!(parse_outcome(o.as_str()), o);
    }
    assert_eq!(MarketOutcome::Unknown.as_str(), "?");
    assert_eq!(parse_outcome(""), MarketOutcome::Unknown);
}

#[test]
fn test_participation_labels_round_trip() {
    for p in [ParticipationMode::No, ParticipationMode::Dry, ParticipationMode::Live] {
        assert_eq!(parse_participation(p.as_str()), p);
    }
    assert_eq!(parse_participation("LIVE_TRADING"), ParticipationMode::No);
}

#[test]
fn test_mode_permissions() {
    assert!(!TradingMode::Off.is_live());
    assert!(!TradingMode::Dry.is_live());
    assert!(TradingMode::LiveDisarmed.is_live());
    assert!(TradingMode::LiveArmed.is_live());
    assert!(TradingMode::LiveTrading.is_live());
    assert!(TradingMode::LiveTrading.allows_real_orders());
    assert!(!TradingMode::LiveArmed.allows_real_orders());
    assert!(TradingMode::Dry.allows_sim_orders());
    assert!(!TradingMode::LiveTrading.allows_sim_orders());
    assert_eq!(TradingMode::default(), TradingMode::Off);
}

#[test]
fn test_other_labels() {
    assert_eq!(Side::Up.as_str(), "UP");
    assert_eq!(Side::Down.as_str(), "DOWN");
    assert_eq!(Side::default(), Side::Up);
    assert_eq!(BotState::SignalReady.as_str(), "SIGNAL_READY");
    assert_eq!(BotState::default(), BotState::Starting);
    assert_eq!(OrderStatus::PartiallyFilled.as_str(), "PARTIAL");
    assert_eq!(OrderStatus::Cancelled.as_str(), "CANCELLED");
    let id = MarketId::from("mkt-001".to_string());
    assert_eq!(id.as_str(), "mkt-001");
}
