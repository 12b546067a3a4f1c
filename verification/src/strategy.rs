//! Strategy artifact rules that do not depend on price arithmetic: bucket
//! classification by the artifact's lists, the gating steps of live scoring,
//! the whitelist and blacklist partition, backtest counting, and the grouping
//! of historical records by bucket.
use vstd::prelude::*;
use crate::bucket::{BucketKey, PriceZone, StrategyClassification};
use crate::text::{dec_digits, decimal_string, list_contains, views};

verus! {

/// The classification that an artifact's lists give the key string `k`:
/// blacklisting wins over whitelisting, and a key on neither list is
/// `Neutral` when it has a profile and `Unknown` otherwise.
pub open spec fn classification_by_lists(
    whitelist: Seq<Seq<char>>,
    blacklist: Seq<Seq<char>>,
    has_profile: bool,
    k: Seq<char>,
) -> StrategyClassification {
    if blacklist.contains(k) {
        StrategyClassification::Blacklisted
    } else if whitelist.contains(k) {
        StrategyClassification::Whitelisted
    } else if has_profile {
        StrategyClassification::Neutral
    } else {
        StrategyClassification::Unknown
    }
}

/// Whether the key's string form is on the list.
pub fn key_in_list(list: &Vec<String>, key: &BucketKey) -> (r: bool)
    ensures
        r == views(list@).contains(key.key_chars()),
{
    let k = key.to_key_string();
    list_contains(list, k.as_str())
}

/// Classifies a bucket by the artifact's whitelist and blacklist;
/// `has_profile` tells whether the artifact holds a profile for the key.
pub fn classify_key(
    whitelist: &Vec<String>,
    blacklist: &Vec<String>,
    has_profile: bool,
    key: &BucketKey,
) -> (c: StrategyClassification)
    ensures
        c == classification_by_lists(views(whitelist@), views(blacklist@), has_profile, key.key_chars()),
{
    if key_in_list(blacklist, key) {
        StrategyClassification::Blacklisted
    } else if key_in_list(whitelist, key) {
        StrategyClassification::Whitelisted
    } else if has_profile {
        StrategyClassification::Neutral
    } else {
        StrategyClassification::Unknown
    }
}

/// A key on the blacklist is blacklisted, whatever else the artifact says of it.
pub proof fn lemma_blacklist_wins(
    whitelist: Seq<Seq<char>>,
    blacklist: Seq<Seq<char>>,
    has_profile: bool,
    k: Seq<char>,
)
    requires
        blacklist.contains(k),
    ensures
        classification_by_lists(whitelist, blacklist, has_profile, k)
            == StrategyClassification::Blacklisted,
{
}

/// What the scorer needs of a bucket's profile.
#[derive(Clone, Debug)]
pub struct ProfileSummary {
    pub classification_reason: String,
    pub total_samples: usize,
}

/// Why the gating steps of scoring reject a state.
#[derive(Clone, Copy, Debug, PartialEq, Eq, Structural)]
pub enum GateRejection {
    BannedPriceZone { zone: PriceZone },
    TimeLeftExceeded { time_left_sec: u64, max: u64 },
    BucketBlacklisted,
    BucketNeutral,
    BucketUnknown,
    InsufficientSamples { samples: usize, required: usize },
}

/// The outcome of the gating steps, with the explanation fields they fill.
#[derive(Clone, Debug)]
pub struct GateDecision {
    /// `None` when the state passes every gate and goes on to pricing.
    pub rejection: Option<GateRejection>,
    pub classification: StrategyClassification,
    pub classification_reason: String,
    pub samples: usize,
}

/// `price zone {zone} is banned`
pub open spec fn banned_reason(zone: PriceZone) -> Seq<char> {
    "price zone "@ + zone.label_chars() + " is banned"@
}

/// `time_left {t}s > max {m}s`
pub open spec fn time_left_reason(t: nat, m: nat) -> Seq<char> {
    "time_left "@ + dec_digits(t) + "s > max "@ + dec_digits(m) + "s"@
}

/// The reason from the profile when there is one, else `fallback`.
pub open spec fn profile_reason_or(profile: Option<ProfileSummary>, fallback: Seq<char>) -> Seq<char> {
    match profile {
        Some(p) => p.classification_reason@,
        None => fallback,
    }
}

/// The gating steps of scoring, in order: a banned price zone, too much time
/// left, a bucket that is not whitelisted, a whitelisted bucket without a
/// profile, and too few samples each reject the state; `(rejection,
/// classification, reason, samples)`.
pub open spec fn gate_outcome(
    zone: PriceZone,
    banned: Seq<Seq<char>>,
    time_left_sec: nat,
    max_time_left_sec: nat,
    k: Seq<char>,
    whitelist: Seq<Seq<char>>,
    blacklist: Seq<Seq<char>>,
    profile: Option<ProfileSummary>,
    min_samples: nat,
) -> (Option<GateRejection>, StrategyClassification, Seq<char>, nat) {
    if banned.contains(zone.label_chars()) {
        (
            Some(GateRejection::BannedPriceZone { zone }),
            StrategyClassification::Unknown,
            banned_reason(zone),
            0,
        )
    } else if time_left_sec > max_time_left_sec {
        (
            Some(
                GateRejection::TimeLeftExceeded {
                    time_left_sec: time_left_sec as u64,
                    max: max_time_left_sec as u64,
                },
            ),
            StrategyClassification::Unknown,
            time_left_reason(time_left_sec, max_time_left_sec),
            0,
        )
    } else {
        let c = classification_by_lists(whitelist, blacklist, profile is Some, k);
        match c {
            StrategyClassification::Blacklisted => (
                Some(GateRejection::BucketBlacklisted),
                c,
                profile_reason_or(profile, "bucket is blacklisted"@),
                0,
            ),
            StrategyClassification::Neutral => (
                Some(GateRejection::BucketNeutral),
                c,
                profile_reason_or(profile, "bucket is neutral"@),
                0,
            ),
            StrategyClassification::Unknown => (
                Some(GateRejection::BucketUnknown),
                c,
                "bucket unknown: no historical data"@,
                0,
            ),
            StrategyClassification::Whitelisted => match profile {
                None => (
                    Some(GateRejection::BucketUnknown),
                    c,
                    "whitelist entry exists but no profile data"@,
                    0,
                ),
                Some(p) => if p.total_samples < min_samples {
                    (
                        Some(
                            GateRejection::InsufficientSamples {
                                samples: p.total_samples,
                                required: min_samples as usize,
                            },
                        ),
                        c,
                        p.classification_reason@,
                        p.total_samples as nat,
                    )
                } else {
                    (None, c, p.classification_reason@, p.total_samples as nat)
                },
            },
        }
    }
}

fn owned_reason(profile: &Option<ProfileSummary>, fallback: &str) -> (s: String)
    ensures
        s@ == profile_reason_or(*profile, fallback@),
{
    match profile {
        Some(p) => p.classification_reason.clone(),
        None => String::from_str(fallback),
    }
}

/// Runs the gating steps of live scoring on a state whose price zone and
/// bucket key are already derived. `profile` is the artifact's profile for
/// the key, if it has one. A state that passes every gate goes on to the
/// probability and edge checks.
pub fn score_gate(
    zone: PriceZone,
    banned_price_zones: &Vec<String>,
    time_left_sec: u64,
    max_time_left_sec: u64,
    key: &BucketKey,
    whitelist: &Vec<String>,
    blacklist: &Vec<String>,
    profile: &Option<ProfileSummary>,
    min_samples: usize,
) -> (d: GateDecision)
    ensures
        (d.rejection, d.classification, d.classification_reason@, d.samples as nat) == gate_outcome(
            zone,
            views(banned_price_zones@),
            time_left_sec as nat,
            max_time_left_sec as nat,
            key.key_chars(),
            views(whitelist@),
            views(blacklist@),
            *profile,
            min_samples as nat,
        ),
{
    if list_contains(banned_price_zones, zone.as_str()) {
        let mut reason = String::from_str("price zone ");
        reason.append(zone.as_str());
        reason.append(" is banned");
        return GateDecision {
            rejection: Some(GateRejection::BannedPriceZone { zone }),
            classification: StrategyClassification::Unknown,
            classification_reason: reason,
            samples: 0,
        };
    }
    if time_left_sec > max_time_left_sec {
        let mut reason = String::from_str("time_left ");
        let t = decimal_string(time_left_sec);
        reason.append(t.as_str());
        reason.append("s > max ");
        let m = decimal_string(max_time_left_sec);
        reason.append(m.as_str());
        reason.append("s");
        return GateDecision {
            rejection: Some(
                GateRejection::TimeLeftExceeded { time_left_sec, max: max_time_left_sec },
            ),
            classification: StrategyClassification::Unknown,
            classification_reason: reason,
            samples: 0,
        };
    }
    let c = classify_key(whitelist, blacklist, profile.is_some(), key);
    match c {
        StrategyClassification::Blacklisted => GateDecision {
            rejection: Some(GateRejection::BucketBlacklisted),
            classification: c,
            classification_reason: owned_reason(profile, "bucket is blacklisted"),
            samples: 0,
        },
        StrategyClassification::Neutral => GateDecision {
            rejection: Some(GateRejection::BucketNeutral),
            classification: c,
            classification_reason: owned_reason(profile, "bucket is neutral"),
            samples: 0,
        },
        StrategyClassification::Unknown => GateDecision {
            rejection: Some(GateRejection::BucketUnknown),
            classification: c,
            classification_reason: String::from_str("bucket unknown: no historical data"),
            samples: 0,
        },
        StrategyClassification::Whitelisted => match profile {
            None => GateDecision {
                rejection: Some(GateRejection::BucketUnknown),
                classification: c,
                classification_reason: String::from_str("whitelist entry exists but no profile data"),
                samples: 0,
            },
            Some(p) => {
                let rejection = if p.total_samples < min_samples {
                    Some(
                        GateRejection::InsufficientSamples {
                            samples: p.total_samples,
                            required: min_samples,
                        },
                    )
                } else {
                    None
                };
                GateDecision {
                    rejection,
                    classification: c,
                    classification_reason: p.classification_reason.clone(),
                    samples: p.total_samples,
                }
            },
        },
    }
}

/// A state passes the gates only when its bucket is whitelisted and not
/// blacklisted, its zone is not banned, its time left is within the limit,
/// and its profile has enough samples.
pub proof fn lemma_gate_pass_requires_whitelist(
    zone: PriceZone,
    banned: Seq<Seq<char>>,
    time_left_sec: nat,
    max_time_left_sec: nat,
    k: Seq<char>,
    whitelist: Seq<Seq<char>>,
    blacklist: Seq<Seq<char>>,
    profile: Option<ProfileSummary>,
    min_samples: nat,
)
    requires
        gate_outcome(
            zone,
            banned,
            time_left_sec,
            max_time_left_sec,
            k,
            whitelist,
            blacklist,
            profile,
            min_samples,
        ).0 is None,
    ensures
        whitelist.contains(k),
        !blacklist.contains(k),
        !banned.contains(zone.label_chars()),
        time_left_sec <= max_time_left_sec,
        profile is Some,
        profile->0.total_samples >= min_samples,
{
}

/// The keys of the entries classified `c`, in entry order.
pub open spec fn keys_classified(
    entries: Seq<(String, StrategyClassification)>,
    c: StrategyClassification,
) -> Seq<Seq<char>>
    decreases entries.len(),
{
    if entries.len() == 0 {
        seq![]
    } else {
        keys_classified(entries.drop_last(), c) + if entries.last().1 == c {
            seq![entries.last().0@]
        } else {
            seq![]
        }
    }
}

/// Splits classified buckets into the whitelist and the blacklist, keeping
/// the entries' order; neutral and unknown buckets go on neither list.
pub fn partition_lists(entries: &Vec<(String, StrategyClassification)>) -> (r: (
    Vec<String>,
    Vec<String>,
))
    ensures
        views(r.0@) == keys_classified(entries@, StrategyClassification::Whitelisted),
        views(r.1@) == keys_classified(entries@, StrategyClassification::Blacklisted),
{
    let mut whitelist: Vec<String> = Vec::new();
    let mut blacklist: Vec<String> = Vec::new();
    let n = entries.len();
    let mut i: usize = 0;
    while i < n
        invariant
            n == entries@.len(),
            i <= n,
            views(whitelist@) == keys_classified(
                entries@.subrange(0, i as int),
                StrategyClassification::Whitelisted,
            ),
            views(blacklist@) == keys_classified(
                entries@.subrange(0, i as int),
                StrategyClassification::Blacklisted,
            ),
        decreases n - i,
    {
        let ghost w0 = views(whitelist@);
        let ghost b0 = views(blacklist@);
        assert(entries@.subrange(0, i + 1).drop_last() =~= entries@.subrange(0, i as int));
        let c = entries[i].1;
        if c == StrategyClassification::Whitelisted {
            whitelist.push(entries[i].0.clone());
        } else if c == StrategyClassification::Blacklisted {
            blacklist.push(entries[i].0.clone());
        }
        assert(views(whitelist@) =~= keys_classified(
            entries@.subrange(0, i + 1),
            StrategyClassification::Whitelisted,
        ));
        assert(views(blacklist@) =~= keys_classified(
            entries@.subrange(0, i + 1),
            StrategyClassification::Blacklisted,
        ));
        i = i + 1;
    }
    assert(entries@.subrange(0, n as int) =~= entries@);
    (whitelist, blacklist)
}

/// A key on the list of keys classified `c` belongs to an entry classified `c`.
pub proof fn lemma_keys_classified_source(
    entries: Seq<(String, StrategyClassification)>,
    c: StrategyClassification,
    k: Seq<char>,
)
    requires
        keys_classified(entries, c).contains(k),
    ensures
        exists|i: int| 0 <= i < entries.len() && entries[i].0@ == k && entries[i].1 == c,
    decreases entries.len(),
{
    if entries.len() > 0 {
        let rest = entries.drop_last();
        let tail = if entries.last().1 == c {
            seq![entries.last().0@]
        } else {
            seq![]
        };
        let j = choose|j: int| 0 <= j < keys_classified(entries, c).len()
            && keys_classified(entries, c)[j] == k;
        if j < keys_classified(rest, c).len() {
            assert(keys_classified(rest, c)[j] == k);
            lemma_keys_classified_source(rest, c, k);
            let i = choose|i: int| 0 <= i < rest.len() && rest[i].0@ == k && rest[i].1 == c;
            assert(entries[i] == rest[i]);
        } else {
            assert(entries[entries.len() - 1].0@ == k);
        }
    }
}

/// When the classified keys are distinct, no bucket is both whitelisted and
/// blacklisted.
pub proof fn lemma_lists_disjoint(entries: Seq<(String, StrategyClassification)>, k: Seq<char>)
    requires
        forall|i: int, j: int|
            0 <= i < entries.len() && 0 <= j < entries.len() && i != j ==> entries[i].0@
                != entries[j].0@,
    ensures
        !(keys_classified(entries, StrategyClassification::Whitelisted).contains(k)
            && keys_classified(entries, StrategyClassification::Blacklisted).contains(k)),
{
    if keys_classified(entries, StrategyClassification::Whitelisted).contains(k)
        && keys_classified(entries, StrategyClassification::Blacklisted).contains(k) {
        lemma_keys_classified_source(entries, StrategyClassification::Whitelisted, k);
        lemma_keys_classified_source(entries, StrategyClassification::Blacklisted, k);
        let i = choose|i: int| 0 <= i < entries.len() && entries[i].0@ == k && entries[i].1
            == StrategyClassification::Whitelisted;
        let j = choose|j: int| 0 <= j < entries.len() && entries[j].0@ == k && entries[j].1
            == StrategyClassification::Blacklisted;
        assert(i != j);
    }
}

/// Every key on the list of keys classified `c` comes from an entry at or
/// after position `lo` when the list is built from the entries from `lo` on.
proof fn lemma_keys_classified_positions(
    entries: Seq<(String, StrategyClassification)>,
    c: StrategyClassification,
)
    ensures
        forall|a: int|
            0 <= a < keys_classified(entries, c).len() ==> exists|i: int|
                0 <= i < entries.len() && entries[i].0@ == #[trigger] keys_classified(entries, c)[a]
                    && entries[i].1 == c,
    decreases entries.len(),
{
    if entries.len() > 0 {
        lemma_keys_classified_positions(entries.drop_last(), c);
        let rest = entries.drop_last();
        assert forall|a: int| 0 <= a < keys_classified(entries, c).len() implies exists|i: int|
            0 <= i < entries.len() && entries[i].0@ == #[trigger] keys_classified(entries, c)[a]
                && entries[i].1 == c by {
            if a < keys_classified(rest, c).len() {
                assert(keys_classified(entries, c)[a] == keys_classified(rest, c)[a]);
                let i = choose|i: int| 0 <= i < rest.len() && rest[i].0@ == keys_classified(rest, c)[a]
                    && rest[i].1 == c;
                assert(entries[i] == rest[i]);
            } else {
                assert(entries[entries.len() - 1].0@ == keys_classified(entries, c)[a]);
            }
        }
    }
}

/// When the classified keys are distinct, neither the whitelist nor the
/// blacklist holds a key twice.
pub proof fn lemma_lists_duplicate_free(
    entries: Seq<(String, StrategyClassification)>,
    c: StrategyClassification,
)
    requires
        forall|i: int, j: int|
            0 <= i < entries.len() && 0 <= j < entries.len() && i != j ==> entries[i].0@
                != entries[j].0@,
    ensures
        keys_classified(entries, c).no_duplicates(),
    decreases entries.len(),
{
    if entries.len() > 0 {
        let rest = entries.drop_last();
        lemma_lists_duplicate_free(rest, c);
        lemma_keys_classified_positions(rest, c);
        let last = entries.last();
        let kr = keys_classified(rest, c);
        let k = keys_classified(entries, c);
        if last.1 == c {
            assert forall|a: int, b: int| 0 <= a < k.len() && 0 <= b < k.len() && a != b implies k[a]
                != k[b] by {
                if a < kr.len() && b < kr.len() {
                    assert(k[a] == kr[a] && k[b] == kr[b]);
                } else if a < kr.len() {
                    assert(k[a] == kr[a]);
                    let i = choose|i: int| 0 <= i < rest.len() && rest[i].0@ == #[trigger] kr[a]
                        && rest[i].1 == c;
                    assert(entries[i] == rest[i]);
                    assert(k[b] == last.0@);
                } else if b < kr.len() {
                    assert(k[b] == kr[b]);
                    let i = choose|i: int| 0 <= i < rest.len() && rest[i].0@ == #[trigger] kr[b]
                        && rest[i].1 == c;
                    assert(entries[i] == rest[i]);
                    assert(k[a] == last.0@);
                }
            }
        } else {
            assert(k =~= kr);
        }
    }
}

/// The counters of a whitelist backtest.
#[derive(Clone, Copy, Debug)]
pub struct BacktestTally {
    pub total_signals: usize,
    pub trades_taken: usize,
    pub wins: usize,
    pub losses: usize,
}

impl BacktestTally {
    /// Each trade taken is either a win or a loss, and no more trades are
    /// taken than signals scored.
    pub open spec fn consistent(self) -> bool {
        self.wins + self.losses == self.trades_taken && self.trades_taken <= self.total_signals
    }

    /// All counters at zero.
    pub fn new() -> (t: Self)
        ensures
            t.total_signals == 0,
            t.trades_taken == 0,
            t.wins == 0,
            t.losses == 0,
    {
        BacktestTally { total_signals: 0, trades_taken: 0, wins: 0, losses: 0 }
    }

    /// Counts one scored record: a trade signal counts as a trade taken, and
    /// as a win when the record's outcome was correct, else as a loss.
    pub fn record(&mut self, is_trade: bool, outcome_correct: bool)
        requires
            old(self).total_signals < usize::MAX,
            old(self).trades_taken < usize::MAX,
            old(self).wins < usize::MAX,
            old(self).losses < usize::MAX,
        ensures
            old(self).consistent() ==> final(self).consistent(),
            final(self).total_signals == old(self).total_signals + 1,
            final(self).trades_taken == old(self).trades_taken + if is_trade { 1int } else { 0int },
            final(self).wins == old(self).wins + if is_trade && outcome_correct { 1int } else { 0int },
            final(self).losses == old(self).losses + if is_trade && !outcome_correct { 1int } else { 0int },
    {
        self.total_signals = self.total_signals + 1;
        if is_trade {
            self.trades_taken = self.trades_taken + 1;
            if outcome_correct {
                self.wins = self.wins + 1;
            } else {
                self.losses = self.losses + 1;
            }
        }
    }
}

/// Records grouped by bucket key: the distinct keys in order of first
/// appearance, and for each record the position of its key.
#[derive(Clone, Debug)]
pub struct KeyGroups {
    pub keys: Vec<BucketKey>,
    pub group_of: Vec<usize>,
}

/// Whether `g` groups the first `n` of `keys`: its keys are distinct, each
/// record's group has the record's key, and every group has a record.
pub open spec fn groups_records(keys: Seq<BucketKey>, n: int, g_keys: Seq<BucketKey>, group_of: Seq<usize>) -> bool {
    &&& group_of.len() == n
    &&& forall|a: int, b: int| 0 <= a < b < g_keys.len() ==> g_keys[a] != g_keys[b]
    &&& forall|i: int| 0 <= i < n ==> (#[trigger] group_of[i] as int) < g_keys.len() && g_keys[group_of[i] as int] == keys[i]
    &&& forall|g: int| 0 <= g < g_keys.len() ==> #[trigger] has_member(group_of, n, g)
}

/// Whether one of the first `n` records is in group `g`.
pub open spec fn has_member(group_of: Seq<usize>, n: int, g: int) -> bool {
    exists|i: int| 0 <= i < n && #[trigger] group_of[i] as int == g
}

/// Groups records by their bucket keys.
pub fn group_by_key(keys: &Vec<BucketKey>) -> (r: KeyGroups)
    ensures
        groups_records(keys@, keys@.len() as int, r.keys@, r.group_of@),
{
    let mut g_keys: Vec<BucketKey> = Vec::new();
    let mut group_of: Vec<usize> = Vec::new();
    let n = keys.len();
    let mut i: usize = 0;
    while i < n
        invariant
            n == keys@.len(),
            i <= n,
            g_keys@.len() <= i,
            groups_records(keys@, i as int, g_keys@, group_of@),
        decreases n - i,
    {
        let key = keys[i];
        let m = g_keys.len();
        let mut j: usize = 0;
        while j < m && g_keys[j] != key
            invariant
                m == g_keys@.len(),
                j <= m,
                forall|a: int| 0 <= a < j ==> g_keys@[a] != key,
            decreases m - j,
        {
            j = j + 1;
        }
        let ghost before = group_of@;
        let ghost old_keys = g_keys@;
        assert(key == keys@[i as int]);
        assert(j < m ==> g_keys@[j as int] == key);
        if j < m {
            group_of.push(j);
            assert forall|g: int| 0 <= g < g_keys@.len() implies #[trigger] has_member(
                group_of@,
                i + 1,
                g,
            ) by {
                assert(has_member(before, i as int, g));
                let x = choose|x: int| 0 <= x < i && #[trigger] before[x] as int == g;
                assert(group_of@[x] == before[x]);
            }
        } else {
            g_keys.push(key);
            group_of.push(m);
            assert forall|g: int| 0 <= g < g_keys@.len() implies #[trigger] has_member(
                group_of@,
                i + 1,
                g,
            ) by {
                if g < m {
                    assert(has_member(before, i as int, g));
                    let x = choose|x: int| 0 <= x < i && #[trigger] before[x] as int == g;
                    assert(group_of@[x] == before[x]);
                } else {
                    assert(group_of@[i as int] as int == g);
                }
            }
        }
        assert forall|x: int| 0 <= x < i + 1 implies (#[trigger] group_of@[x] as int) < g_keys@.len()
            && g_keys@[group_of@[x] as int] == keys@[x] by {
            if x < i {
                assert(group_of@[x] == before[x]);
                assert((before[x] as int) < old_keys.len());
                assert(old_keys[before[x] as int] == keys@[x]);
            } else {
                assert(x == i);
                assert(g_keys@[group_of@[x] as int] == key);
            }
        }
        i = i + 1;
    }
    KeyGroups { keys: g_keys, group_of }
}

/// A state is rejected for its price zone only when its own zone's label is
/// on the banned list: banning other zones never rejects it.
pub proof fn lemma_gate_bans_only_listed_zone(
    zone: PriceZone,
    banned: Seq<Seq<char>>,
    time_left_sec: nat,
    max_time_left_sec: nat,
    k: Seq<char>,
    whitelist: Seq<Seq<char>>,
    blacklist: Seq<Seq<char>>,
    profile: Option<ProfileSummary>,
    min_samples: nat,
)
    ensures
        (gate_outcome(
            zone,
            banned,
            time_left_sec,
            max_time_left_sec,
            k,
            whitelist,
            blacklist,
            profile,
            min_samples,
        ).0 == Some(GateRejection::BannedPriceZone { zone })) <==> banned.contains(
            zone.label_chars(),
        ),
{
}

/// A state whose zone is not banned, whose time left is within the limit,
/// whose key is whitelisted and not blacklisted, and whose profile has at
/// least the minimum number of samples passes every gate, as whitelisted,
/// with the profile's reason and sample count.
pub proof fn lemma_gate_passes_qualified_state(
    zone: PriceZone,
    banned: Seq<Seq<char>>,
    time_left_sec: nat,
    max_time_left_sec: nat,
    k: Seq<char>,
    whitelist: Seq<Seq<char>>,
    blacklist: Seq<Seq<char>>,
    profile: Option<ProfileSummary>,
    min_samples: nat,
)
    requires
        !banned.contains(zone.label_chars()),
        time_left_sec <= max_time_left_sec,
        whitelist.contains(k),
        !blacklist.contains(k),
        profile is Some,
        profile->0.total_samples >= min_samples,
    ensures
        ({
            let g = gate_outcome(
                zone,
                banned,
                time_left_sec,
                max_time_left_sec,
                k,
                whitelist,
                blacklist,
                profile,
                min_samples,
            );
            &&& g.0 is None
            &&& g.1 == StrategyClassification::Whitelisted
            &&& g.2 == profile->0.classification_reason@
            &&& g.3 == profile->0.total_samples
        }),
{
}

/// Every entry classified `c` has its key on the list of keys classified `c`,
/// however many entries there are.
pub proof fn lemma_keys_classified_complete(
    entries: Seq<(String, StrategyClassification)>,
    c: StrategyClassification,
    i: int,
)
    requires
        0 <= i < entries.len(),
        entries[i].1 == c,
    ensures
        keys_classified(entries, c).contains(entries[i].0@),
    decreases entries.len(),
{
    let rest = entries.drop_last();
    let k = keys_classified(entries, c);
    if i == entries.len() - 1 {
        assert(k[k.len() - 1] == entries[i].0@);
    } else {
        assert(rest[i] == entries[i]);
        lemma_keys_classified_complete(rest, c, i);
        let kr = keys_classified(rest, c);
        let j = choose|j: int| 0 <= j < kr.len() && kr[j] == entries[i].0@;
        assert(k[j] == kr[j]);
    }
}

} // verus!
