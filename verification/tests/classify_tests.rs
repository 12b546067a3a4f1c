use pmkt::bucket::StrategyClassification;
use pmkt::classify::{classify_bucket, join_strings, BucketChecks};

/// The default whitelist configuration: 30 OOS trades, 3 OOS windows, 60%
/// profitable windows, worst window loss -20.00, OOS P&L 0.00; blacklisting
/// below -10.00 P&L or a 0.35 win rate with at least 20 samples.
fn make_checks(
    oos_trades: usize,
    oos_windows: usize,
    pct_profitable: f64,
    worst_loss: f64,
    total_pnl: f64,
    win_rate: f64,
    total_samples: usize,
) -> BucketChecks {
    BucketChecks {
        total_samples,
        blacklist_min_support: 20,
        oos_trades,
        min_oos_trades: 30,
        oos_windows,
        min_oos_windows: 3,
        pnl_below_blacklist: total_pnl < -10.0,
        win_rate_below_blacklist: win_rate < 0.35,
        pct_profitable_below_min: pct_profitable < 0.60,
        worst_loss_below_limit: worst_loss < -20.0,
        pnl_below_min: total_pnl < 0.0,
        total_pnl: format!("{:.2}", total_pnl),
        blacklist_pnl_threshold: format!("{:.2}", -10.0),
        win_rate: format!("{:.2}", win_rate),
        blacklist_win_rate_threshold: format!("{:.2}", 0.35),
        pct_profitable_windows: format!("{:.2}", pct_profitable),
        min_pct_profitable_windows: format!("{:.2}", 0.60),
        worst_window_loss: format!("{:.2}", worst_loss),
        max_worst_window_loss: format!("{:.2}", -20.0),
        min_oos_pnl: format!("{:.2}", 0.0),
    }
}

#[test]
fn test_whitelist_passes() {
    let (class, reason) = classify_bucket(&make_checks(50, 5, 0.70, -5.0, 15.0, 0.60, 50));
    assert_eq!(class, StrategyClassification::Whitelisted);
    assert_eq!(reason, "passes all checks: trades=50, win_rate=0.60, pnl=15.00");
}

#[test]
fn test_blacklist_bad_pnl() {
    let (class, reason) = classify_bucket(&make_checks(50, 5, 0.70, -5.0, -50.0, 0.60, 50));
    assert_eq!(class, StrategyClassification::Blacklisted);
    assert_eq!(reason, "bad OOS P&L -50.00 < threshold -10.00 with 50 samples");
}

#[test]
fn test_neutral_insufficient_samples() {
    let (class, reason) = classify_bucket(&make_checks(5, 1, 0.70, -5.0, 10.0, 0.60, 5));
    assert_eq!(class, StrategyClassification::Neutral);
    assert_eq!(reason, "neutral: oos_trades 5 < min 30; oos_windows 1 < min 3");
}

#[test]
fn test_no_trade_on_blacklisted_unknown() {
    // Blacklisted and neutral buckets are never whitelisted.
    let configs = [
        make_checks(50, 5, 0.20, -50.0, -100.0, 0.25, 50),
        make_checks(1, 1, 0.50, 0.0, 0.0, 0.50, 1),
    ];
    for checks in &configs {
        let (class, _) = classify_bucket(checks);
        assert_ne!(class, StrategyClassification::Whitelisted);
    }
}

#[test]
fn test_blacklist_bad_win_rate_and_support() {
    let (class, reason) = classify_bucket(&make_checks(50, 5, 0.70, -5.0, 5.0, 0.20, 50));
    assert_eq!(class, StrategyClassification::Blacklisted);
    assert_eq!(reason, "bad win rate 0.20 < threshold 0.35 with 50 samples");
    // Without enough samples the blacklist checks do not apply.
    let (class, reason) = classify_bucket(&make_checks(50, 5, 0.70, -5.0, -50.0, 0.60, 19));
    assert_eq!(class, StrategyClassification::Neutral);
    assert_eq!(reason, "neutral: total_pnl -50.00 < min_oos_pnl 0.00");
}

#[test]
fn test_every_whitelist_failure() {
    let (class, reason) = classify_bucket(&make_checks(1, 1, 0.10, -30.0, -1.0, 0.50, 5));
    assert_eq!(class, StrategyClassification::Neutral);
    assert_eq!(
        reason,
        "neutral: oos_trades 1 < min 30; oos_windows 1 < min 3; pct_profitable_windows 0.10 < min 0.60; \
         worst_window_loss -30.00 < limit -20.00; total_pnl -1.00 < min_oos_pnl 0.00"
    );
}

#[test]
fn test_join_strings() {
    assert_eq!(join_strings(&vec![], "; "), "");
    assert_eq!(join_strings(&vec!["a".to_string()], "; "), "a");
    assert_eq!(join_strings(&vec!["a".to_string(), "b".to_string(), "c".to_string()], "; "), "a; b; c");
}
