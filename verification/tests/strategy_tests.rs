use pmkt::bucket::{BucketKey, PriceBin, PriceZone, StrategyClassification, TimeBucket, VolRegime};
use pmkt::strategy::{
    classify_key, group_by_key, key_in_list, partition_lists, score_gate, BacktestTally,
    GateRejection, ProfileSummary,
};

/// The key of a state 90s before close at 0.82 with 30s volatility 0.03
/// against the default 0.02 / 0.05 thresholds.
fn key_late_82_mid() -> BucketKey {
    BucketKey::new(TimeBucket::Late, PriceBin::from_step(16), VolRegime::Medium)
}

#[test]
fn test_artifact_classification_empty() {
    let key = key_late_82_mid();
    assert_eq!(classify_key(&vec![], &vec![], false, &key), StrategyClassification::Unknown);
}

#[test]
fn test_artifact_classification_lists() {
    let key = key_late_82_mid();
    let k = key.to_key_string();
    assert_eq!(k, "t=late_p=0.80-0.85_v=mid");
    let listed = vec![k.clone()];
    assert!(key_in_list(&listed, &key));
    assert_eq!(classify_key(&listed, &vec![], true, &key), StrategyClassification::Whitelisted);
    assert_eq!(classify_key(&listed, &listed, true, &key), StrategyClassification::Blacklisted);
    assert_eq!(classify_key(&vec![], &vec![], true, &key), StrategyClassification::Neutral);
}

#[test]
fn test_no_trade_unknown_bucket() {
    let d = score_gate(
        PriceZone::HeavyFav,
        &vec![],
        90,
        240,
        &key_late_82_mid(),
        &vec![],
        &vec![],
        &None,
        20,
    );
    assert_eq!(d.rejection, Some(GateRejection::BucketUnknown));
    assert_eq!(d.classification, StrategyClassification::Unknown);
    assert_eq!(d.classification_reason, "bucket unknown: no historical data");
}

#[test]
fn test_no_trade_mode_off_time_exceeded() {
    let key = BucketKey::new(TimeBucket::Early, PriceBin::from_step(16), VolRegime::Medium);
    let d = score_gate(PriceZone::HeavyFav, &vec![], 300, 60, &key, &vec![], &vec![], &None, 20);
    assert_eq!(d.rejection, Some(GateRejection::TimeLeftExceeded { time_left_sec: 300, max: 60 }));
    assert_eq!(d.classification_reason, "time_left 300s > max 60s");
}

#[test]
fn test_edge_calculation() {
    // 0.75 falls in step 15; without a whitelisted bucket there is no trade.
    let key = BucketKey::new(TimeBucket::Late, PriceBin::from_step(15), VolRegime::Medium);
    let d = score_gate(PriceZone::HeavyFav, &vec![], 90, 240, &key, &vec![], &vec![], &None, 20);
    assert!(d.rejection.is_some());
    assert_eq!(key.to_key_string(), "t=late_p=0.75-0.80_v=mid");
}

#[test]
fn test_gate_banned_zone() {
    let d = score_gate(
        PriceZone::Underdog,
        &vec!["underdog".to_string()],
        90,
        240,
        &key_late_82_mid(),
        &vec![],
        &vec![],
        &None,
        20,
    );
    assert_eq!(d.rejection, Some(GateRejection::BannedPriceZone { zone: PriceZone::Underdog }));
    assert_eq!(d.classification_reason, "price zone underdog is banned");
}

#[test]
fn test_gate_whitelisted_paths() {
    let key = key_late_82_mid();
    let wl = vec![key.to_key_string()];
    let profile = Some(ProfileSummary { classification_reason: "passes".to_string(), total_samples: 10 });
    let d = score_gate(PriceZone::HeavyFav, &vec![], 90, 240, &key, &wl, &vec![], &profile, 20);
    assert_eq!(d.rejection, Some(GateRejection::InsufficientSamples { samples: 10, required: 20 }));
    assert_eq!(d.samples, 10);
    let profile = Some(ProfileSummary { classification_reason: "passes".to_string(), total_samples: 50 });
    let d = score_gate(PriceZone::HeavyFav, &vec![], 90, 240, &key, &wl, &vec![], &profile, 20);
    assert_eq!(d.rejection, None);
    assert_eq!(d.classification, StrategyClassification::Whitelisted);
    assert_eq!(d.classification_reason, "passes");
    assert_eq!(d.samples, 50);
    let d = score_gate(PriceZone::HeavyFav, &vec![], 90, 240, &key, &wl, &vec![], &None, 20);
    assert_eq!(d.rejection, Some(GateRejection::BucketUnknown));
    assert_eq!(d.classification_reason, "whitelist entry exists but no profile data");
    let d = score_gate(PriceZone::HeavyFav, &vec![], 90, 240, &key, &wl, &wl, &profile, 20);
    assert_eq!(d.rejection, Some(GateRejection::BucketBlacklisted));
    assert_eq!(d.classification_reason, "passes");
}

#[test]
fn test_partition_lists() {
    let entries = vec![
        ("a".to_string(), StrategyClassification::Whitelisted),
        ("b".to_string(), StrategyClassification::Blacklisted),
        ("c".to_string(), StrategyClassification::Neutral),
        ("d".to_string(), StrategyClassification::Whitelisted),
        ("e".to_string(), StrategyClassification::Unknown),
    ];
    let (wl, bl) = partition_lists(&entries);
    assert_eq!(wl, vec!["a".to_string(), "d".to_string()]);
    assert_eq!(bl, vec!["b".to_string()]);
    assert!(wl.iter().all(|k| !bl.contains(k)));
    for list in [&wl, &bl] {
        for i in 0..list.len() {
            for j in 0..list.len() {
                assert!(i == j || list[i] != list[j]);
            }
        }
    }
}

#[test]
fn test_backtest_tally() {
    let mut t = BacktestTally::new();
    t.record(true, true);
    t.record(false, true);
    t.record(true, false);
    t.record(true, true);
    assert_eq!(t.total_signals, 4);
    assert_eq!(t.trades_taken, 3);
    assert_eq!(t.wins, 2);
    assert_eq!(t.losses, 1);
}

#[test]
fn test_group_by_key() {
    let a = key_late_82_mid();
    let b = BucketKey::new(TimeBucket::Mid, PriceBin::from_step(13), VolRegime::Medium);
    let keys = vec![a, a, b, a, b];
    let g = group_by_key(&keys);
    assert_eq!(g.keys, vec![a, b]);
    assert_eq!(g.group_of, vec![0, 0, 1, 0, 1]);
    let empty = group_by_key(&vec![]);
    assert!(empty.keys.is_empty() && empty.group_of.is_empty());
}
