//! Typed market buckets: time-left buckets, price bins, volatility regimes,
//! price zones and the composite bucket key with its string form.
use vstd::prelude::*;
use crate::text::{fixed2_chars, fixed2_string, is_digit_char, lemma_fixed2_prefix};

verus! {

/// Volatility regime classification.
#[derive(Clone, Copy, Debug, PartialEq, Eq, Hash, Structural)]
pub enum VolRegime {
    Low,
    Medium,
    High,
}

impl VolRegime {
    /// The display label of the regime.
    pub open spec fn label_chars(self) -> Seq<char> {
        match self {
            VolRegime::Low => "low"@,
            VolRegime::Medium => "mid"@,
            VolRegime::High => "high"@,
        }
    }

    /// The display label of the regime (`low`, `mid`, `high`).
    pub fn as_str(&self) -> (s: &'static str)
        ensures
            s@ == self.label_chars(),
    {
        match self {
            VolRegime::Low => "low",
            VolRegime::Medium => "mid",
            VolRegime::High => "high",
        }
    }
}

/// Price zone classification of the favoured side's price.
#[derive(Clone, Copy, Debug, PartialEq, Eq, Hash, Structural)]
pub enum PriceZone {
    /// Price at least 0.75: heavy favourite
    HeavyFav,
    /// Price 0.60 to 0.74: moderate favourite
    ModerateFav,
    /// Price 0.45 to 0.59: near toss-up
    NearTossup,
    /// Price at most 0.44: underdog
    Underdog,
}

impl PriceZone {
    /// The display label of the zone.
    pub open spec fn label_chars(self) -> Seq<char> {
        match self {
            PriceZone::HeavyFav => "heavy_fav"@,
            PriceZone::ModerateFav => "moderate_fav"@,
            PriceZone::NearTossup => "near_tossup"@,
            PriceZone::Underdog => "underdog"@,
        }
    }

    /// The display label of the zone, as banned-zone lists name it.
    pub fn as_str(&self) -> (s: &'static str)
        ensures
            s@ == self.label_chars(),
    {
        match self {
            PriceZone::HeavyFav => "heavy_fav",
            PriceZone::ModerateFav => "moderate_fav",
            PriceZone::NearTossup => "near_tossup",
            PriceZone::Underdog => "underdog",
        }
    }
}

/// Time-left bucket (seconds remaining in the market).
#[derive(Clone, Copy, Debug, PartialEq, Eq, Hash, Structural)]
pub enum TimeBucket {
    /// more than 240s remaining
    Early,
    /// 120 to 240s
    Mid,
    /// 60 to 119s
    Late,
    /// under 60s
    VeryLate,
}

/// The bucket that `secs` seconds remaining fall into.
pub open spec fn time_bucket_of(secs: nat) -> TimeBucket {
    if secs > 240 {
        TimeBucket::Early
    } else if secs >= 120 {
        TimeBucket::Mid
    } else if secs >= 60 {
        TimeBucket::Late
    } else {
        TimeBucket::VeryLate
    }
}

impl TimeBucket {
    /// Classifies the seconds remaining in a market.
    pub fn from_seconds(secs: u64) -> (b: Self)
        ensures
            b == time_bucket_of(secs as nat),
    {
        if secs > 240 {
            TimeBucket::Early
        } else if secs >= 120 {
            TimeBucket::Mid
        } else if secs >= 60 {
            TimeBucket::Late
        } else {
            TimeBucket::VeryLate
        }
    }

    /// The display label of the bucket.
    pub open spec fn label_chars(self) -> Seq<char> {
        match self {
            TimeBucket::Early => "early"@,
            TimeBucket::Mid => "mid"@,
            TimeBucket::Late => "late"@,
            TimeBucket::VeryLate => "very_late"@,
        }
    }

    /// The display label of the bucket (`early`, `mid`, `late`, `very_late`).
    pub fn as_str(&self) -> (s: &'static str)
        ensures
            s@ == self.label_chars(),
    {
        match self {
            TimeBucket::Early => "early",
            TimeBucket::Mid => "mid",
            TimeBucket::Late => "late",
            TimeBucket::VeryLate => "very_late",
        }
    }
}

/// A discretized price bin of width 0.05, its bounds held in hundredths
/// (the bin 0.80 to 0.85 has `lo == 80` and `hi == 85`).
#[derive(Clone, Copy, Debug, PartialEq, Eq, Hash, Structural)]
pub struct PriceBin {
    pub lo: u64,
    pub hi: u64,
}

impl PriceBin {
    /// The bin number `step` of width 0.05, from `step * 0.05` to `(step + 1) * 0.05`.
    pub fn from_step(step: u64) -> (b: Self)
        requires
            5 * step + 5 <= u64::MAX,
        ensures
            b.lo == 5 * step,
            b.hi == 5 * step + 5,
    {
        PriceBin { lo: 5 * step, hi: 5 * step + 5 }
    }

    /// The bin written as `lo-hi` with two decimals each.
    pub open spec fn label_chars(self) -> Seq<char> {
        fixed2_chars(self.lo as nat) + "-"@ + fixed2_chars(self.hi as nat)
    }

    /// Renders the bin as `0.80-0.85`.
    pub fn to_string(&self) -> (s: String)
        ensures
            s@ == self.label_chars(),
    {
        let mut s = fixed2_string(self.lo);
        s.append("-");
        let hi = fixed2_string(self.hi);
        s.append(hi.as_str());
        s
    }
}

/// The composite typed bucket key; it is turned into a string only at the
/// display and storage boundaries.
#[derive(Clone, Copy, Debug, PartialEq, Eq, Hash, Structural)]
pub struct BucketKey {
    pub time_bucket: TimeBucket,
    pub price_bin: PriceBin,
    pub vol_regime: VolRegime,
}

impl BucketKey {
    pub fn new(time_bucket: TimeBucket, price_bin: PriceBin, vol_regime: VolRegime) -> (k: Self)
        ensures
            k.time_bucket == time_bucket,
            k.price_bin == price_bin,
            k.vol_regime == vol_regime,
    {
        BucketKey { time_bucket, price_bin, vol_regime }
    }

    /// The key string `t={time}_p={lo}-{hi}_v={vol}`.
    pub open spec fn key_chars(self) -> Seq<char> {
        "t="@ + self.time_bucket.label_chars() + "_p="@ + self.price_bin.label_chars() + "_v="@
            + self.vol_regime.label_chars()
    }

    /// Renders the key as `t=late_p=0.80-0.85_v=high`.
    pub fn to_key_string(&self) -> (s: String)
        ensures
            s@ == self.key_chars(),
    {
        let mut s = String::from_str("t=");
        s.append(self.time_bucket.as_str());
        s.append("_p=");
        let bin = self.price_bin.to_string();
        s.append(bin.as_str());
        s.append("_v=");
        s.append(self.vol_regime.as_str());
        s
    }
}

proof fn lemma_time_label_first_char(a: TimeBucket, b: TimeBucket)
    ensures
        a.label_chars().len() >= 1,
        a.label_chars()[0] == b.label_chars()[0] ==> a == b,
{
    reveal_strlit("early");
    reveal_strlit("mid");
    reveal_strlit("late");
    reveal_strlit("very_late");
}

proof fn lemma_vol_label_first_char(a: VolRegime, b: VolRegime)
    ensures
        a.label_chars().len() >= 1,
        a.label_chars()[0] == b.label_chars()[0] ==> a == b,
{
    reveal_strlit("low");
    reveal_strlit("mid");
    reveal_strlit("high");
}

/// The text after the low bound of the price bin in a key string.
spec fn after_lo(k: BucketKey) -> Seq<char> {
    "-"@ + fixed2_chars(k.price_bin.hi as nat) + "_v="@ + k.vol_regime.label_chars()
}

proof fn lemma_key_chars_split(k: BucketKey)
    ensures
        k.key_chars() =~= "t="@ + k.time_bucket.label_chars() + "_p="@ + (fixed2_chars(
            k.price_bin.lo as nat,
        ) + after_lo(k)),
        after_lo(k).skip(1) =~= fixed2_chars(k.price_bin.hi as nat) + ("_v="@
            + k.vol_regime.label_chars()),
{
    reveal_strlit("-");
}

/// Distinct bucket keys have distinct key strings, so tables keyed by the
/// string form never merge two buckets.
pub proof fn lemma_key_string_injective(a: BucketKey, b: BucketKey)
    requires
        a.key_chars() == b.key_chars(),
    ensures
        a == b,
{
    reveal_strlit("t=");
    reveal_strlit("_p=");
    reveal_strlit("-");
    reveal_strlit("_v=");
    lemma_key_chars_split(a);
    lemma_key_chars_split(b);
    lemma_time_label_first_char(a.time_bucket, b.time_bucket);
    lemma_time_label_first_char(b.time_bucket, a.time_bucket);
    lemma_vol_label_first_char(a.vol_regime, b.vol_regime);
    lemma_vol_label_first_char(b.vol_regime, a.vol_regime);
    let s = a.key_chars();
    let ta = a.time_bucket.label_chars();
    assert(s[2] == ta[0]);
    assert(b.key_chars()[2] == b.time_bucket.label_chars()[0]);
    assert(a.time_bucket == b.time_bucket);
    let n: int = 2 + ta.len() as int + 3;
    let lo_a = fixed2_chars(a.price_bin.lo as nat) + after_lo(a);
    let lo_b = fixed2_chars(b.price_bin.lo as nat) + after_lo(b);
    assert(lo_a =~= s.skip(n));
    assert(lo_b =~= b.key_chars().skip(n));
    assert(!is_digit_char(after_lo(a)[0]));
    assert(!is_digit_char(after_lo(b)[0]));
    lemma_fixed2_prefix(a.price_bin.lo as nat, b.price_bin.lo as nat, after_lo(a), after_lo(b));
    let tail_a = "_v="@ + a.vol_regime.label_chars();
    let tail_b = "_v="@ + b.vol_regime.label_chars();
    assert(!is_digit_char(tail_a[0]));
    assert(!is_digit_char(tail_b[0]));
    lemma_fixed2_prefix(a.price_bin.hi as nat, b.price_bin.hi as nat, tail_a, tail_b);
    assert(tail_a[3] == a.vol_regime.label_chars()[0]);
    assert(tail_b[3] == b.vol_regime.label_chars()[0]);
}

/// Classification of a bucket.
#[derive(Clone, Copy, Debug, PartialEq, Eq, Hash, Structural)]
pub enum StrategyClassification {
    Whitelisted,
    Blacklisted,
    Neutral,
    Unknown,
}

impl StrategyClassification {
    /// The display label of the classification.
    pub open spec fn label_chars(self) -> Seq<char> {
        match self {
            StrategyClassification::Whitelisted => "WHITELISTED"@,
            StrategyClassification::Blacklisted => "BLACKLISTED"@,
            StrategyClassification::Neutral => "NEUTRAL"@,
            StrategyClassification::Unknown => "UNKNOWN"@,
        }
    }

    /// The display label of the classification (`WHITELISTED`, ...).
    pub fn as_str(&self) -> (s: &'static str)
        ensures
            s@ == self.label_chars(),
    {
        match self {
            StrategyClassification::Whitelisted => "WHITELISTED",
            StrategyClassification::Blacklisted => "BLACKLISTED",
            StrategyClassification::Neutral => "NEUTRAL",
            StrategyClassification::Unknown => "UNKNOWN",
        }
    }
}

impl Default for StrategyClassification {
    fn default() -> (c: Self)
        ensures
            c == StrategyClassification::Unknown,
    {
        StrategyClassification::Unknown
    }
}

} // verus!
