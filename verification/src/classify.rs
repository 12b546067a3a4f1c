//! Classification of a bucket from its out-of-sample statistics: blacklist
//! checks first, then the whitelist checks that must all pass. The
//! statistics are floating-point; the comparisons of those values arrive
//! here as flags, together with the values written as the messages show them.
use vstd::prelude::*;
use crate::bucket::StrategyClassification;
use crate::safeguards::failure_if;
use crate::text::{dec_digits, decimal_string, views};

verus! {

/// What the classification reads of a bucket's statistics and the thresholds.
#[derive(Clone, Debug)]
pub struct BucketChecks {
    pub total_samples: usize,
    pub blacklist_min_support: usize,
    pub oos_trades: usize,
    pub min_oos_trades: usize,
    pub oos_windows: usize,
    pub min_oos_windows: usize,
    /// Total P&L below the blacklist threshold.
    pub pnl_below_blacklist: bool,
    /// Win rate below the blacklist threshold.
    pub win_rate_below_blacklist: bool,
    /// Share of profitable windows below the minimum.
    pub pct_profitable_below_min: bool,
    /// Worst window loss below the limit.
    pub worst_loss_below_limit: bool,
    /// Total P&L below the whitelist minimum.
    pub pnl_below_min: bool,
    /// The values as the messages write them (two decimals).
    pub total_pnl: String,
    pub blacklist_pnl_threshold: String,
    pub win_rate: String,
    pub blacklist_win_rate_threshold: String,
    pub pct_profitable_windows: String,
    pub min_pct_profitable_windows: String,
    pub worst_window_loss: String,
    pub max_worst_window_loss: String,
    pub min_oos_pnl: String,
}

/// `parts` joined with `sep` between consecutive parts.
pub open spec fn join_with(parts: Seq<Seq<char>>, sep: Seq<char>) -> Seq<char>
    decreases parts.len(),
{
    if parts.len() == 0 {
        seq![]
    } else if parts.len() == 1 {
        parts[0]
    } else {
        join_with(parts.drop_last(), sep) + sep + parts.last()
    }
}

/// The failed whitelist checks, in the order they run.
pub open spec fn whitelist_failures(c: BucketChecks) -> Seq<Seq<char>> {
    failure_if(
        c.oos_trades < c.min_oos_trades,
        "oos_trades "@ + dec_digits(c.oos_trades as nat) + " < min "@ + dec_digits(c.min_oos_trades as nat),
    ) + failure_if(
        c.oos_windows < c.min_oos_windows,
        "oos_windows "@ + dec_digits(c.oos_windows as nat) + " < min "@ + dec_digits(c.min_oos_windows as nat),
    ) + failure_if(
        c.pct_profitable_below_min,
        "pct_profitable_windows "@ + c.pct_profitable_windows@ + " < min "@ + c.min_pct_profitable_windows@,
    ) + failure_if(
        c.worst_loss_below_limit,
        "worst_window_loss "@ + c.worst_window_loss@ + " < limit "@ + c.max_worst_window_loss@,
    ) + failure_if(
        c.pnl_below_min,
        "total_pnl "@ + c.total_pnl@ + " < min_oos_pnl "@ + c.min_oos_pnl@,
    )
}

/// Whether the bucket has enough samples for the blacklist checks to apply.
pub open spec fn has_blacklist_support(c: BucketChecks) -> bool {
    c.total_samples >= c.blacklist_min_support
}

/// The classification and its reason.
pub open spec fn bucket_classification(c: BucketChecks) -> (StrategyClassification, Seq<char>) {
    if has_blacklist_support(c) && c.pnl_below_blacklist {
        (
            StrategyClassification::Blacklisted,
            "bad OOS P&L "@ + c.total_pnl@ + " < threshold "@ + c.blacklist_pnl_threshold@ + " with "@
                + dec_digits(c.total_samples as nat) + " samples"@,
        )
    } else if has_blacklist_support(c) && c.win_rate_below_blacklist {
        (
            StrategyClassification::Blacklisted,
            "bad win rate "@ + c.win_rate@ + " < threshold "@ + c.blacklist_win_rate_threshold@
                + " with "@ + dec_digits(c.total_samples as nat) + " samples"@,
        )
    } else if whitelist_failures(c).len() == 0 {
        (
            StrategyClassification::Whitelisted,
            "passes all checks: trades="@ + dec_digits(c.oos_trades as nat) + ", win_rate="@
                + c.win_rate@ + ", pnl="@ + c.total_pnl@,
        )
    } else {
        (StrategyClassification::Neutral, "neutral: "@ + join_with(whitelist_failures(c), "; "@))
    }
}

fn push_if(failures: &mut Vec<String>, cond: bool, msg: String)
    ensures
        views(final(failures)@) == views(old(failures)@) + failure_if(cond, msg@),
{
    let ghost before = views(failures@);
    if cond {
        failures.push(msg);
        assert(views(failures@) =~= before + seq![msg@]);
    } else {
        assert(before + seq![] =~= before);
    }
}

fn count_message(label: &str, value: usize, min: usize) -> (s: String)
    ensures
        s@ == label@ + dec_digits(value as nat) + " < min "@ + dec_digits(min as nat),
{
    let mut s = String::from_str(label);
    let v = decimal_string(value as u64);
    s.append(v.as_str());
    s.append(" < min ");
    let m = decimal_string(min as u64);
    s.append(m.as_str());
    s
}

fn figure_message(label: &str, value: &String, relation: &str, bound: &String) -> (s: String)
    ensures
        s@ == label@ + value@ + relation@ + bound@,
{
    let mut s = String::from_str(label);
    s.append(value.as_str());
    s.append(relation);
    s.append(bound.as_str());
    s
}

/// Joins the parts with `sep` between consecutive parts.
pub fn join_strings(parts: &Vec<String>, sep: &str) -> (s: String)
    ensures
        s@ == join_with(views(parts@), sep@),
{
    let mut s = String::new();
    let n = parts.len();
    let mut i: usize = 0;
    while i < n
        invariant
            n == parts@.len(),
            i <= n,
            s@ == join_with(views(parts@).subrange(0, i as int), sep@),
        decreases n - i,
    {
        let ghost prev = views(parts@).subrange(0, i as int);
        let ghost next = views(parts@).subrange(0, i + 1);
        assert(next.drop_last() =~= prev);
        assert(next.last() == parts@[i as int]@);
        if i > 0 {
            s.append(sep);
        } else {
            assert(s@ =~= seq![]);
        }
        s.append(parts[i].as_str());
        if i == 0 {
            assert(s@ =~= next[0]);
        }
        i = i + 1;
    }
    assert(views(parts@).subrange(0, n as int) =~= views(parts@));
    s
}

fn collect_whitelist_failures(c: &BucketChecks) -> (f: Vec<String>)
    ensures
        views(f@) == whitelist_failures(*c),
{
    let mut f: Vec<String> = Vec::new();
    push_if(&mut f, c.oos_trades < c.min_oos_trades, count_message("oos_trades ", c.oos_trades, c.min_oos_trades));
    assert(views(f@) =~= failure_if(
        c.oos_trades < c.min_oos_trades,
        "oos_trades "@ + dec_digits(c.oos_trades as nat) + " < min "@ + dec_digits(c.min_oos_trades as nat),
    ));
    push_if(&mut f, c.oos_windows < c.min_oos_windows, count_message("oos_windows ", c.oos_windows, c.min_oos_windows));
    push_if(
        &mut f,
        c.pct_profitable_below_min,
        figure_message("pct_profitable_windows ", &c.pct_profitable_windows, " < min ", &c.min_pct_profitable_windows),
    );
    push_if(
        &mut f,
        c.worst_loss_below_limit,
        figure_message("worst_window_loss ", &c.worst_window_loss, " < limit ", &c.max_worst_window_loss),
    );
    push_if(
        &mut f,
        c.pnl_below_min,
        figure_message("total_pnl ", &c.total_pnl, " < min_oos_pnl ", &c.min_oos_pnl),
    );
    f
}

fn samples_message(label: &str, value: &String, bound: &String, samples: usize) -> (s: String)
    ensures
        s@ == label@ + value@ + " < threshold "@ + bound@ + " with "@ + dec_digits(samples as nat)
            + " samples"@,
{
    let mut s = String::from_str(label);
    s.append(value.as_str());
    s.append(" < threshold ");
    s.append(bound.as_str());
    s.append(" with ");
    let n = decimal_string(samples as u64);
    s.append(n.as_str());
    s.append(" samples");
    s
}

/// Classifies a bucket: with enough samples, bad P&L and then a bad win rate
/// blacklist it; otherwise it is whitelisted when every whitelist check
/// passes and neutral, with the failed checks listed, when any fails.
pub fn classify_bucket(checks: &BucketChecks) -> (r: (StrategyClassification, String))
    ensures
        (r.0, r.1@) == bucket_classification(*checks),
{
    if checks.total_samples >= checks.blacklist_min_support {
        if checks.pnl_below_blacklist {
            let reason = samples_message(
                "bad OOS P&L ",
                &checks.total_pnl,
                &checks.blacklist_pnl_threshold,
                checks.total_samples,
            );
            return (StrategyClassification::Blacklisted, reason);
        }
        if checks.win_rate_below_blacklist {
            let reason = samples_message(
                "bad win rate ",
                &checks.win_rate,
                &checks.blacklist_win_rate_threshold,
                checks.total_samples,
            );
            return (StrategyClassification::Blacklisted, reason);
        }
    }
    let failures = collect_whitelist_failures(checks);
    if failures.len() == 0 {
        let mut reason = String::from_str("passes all checks: trades=");
        let t = decimal_string(checks.oos_trades as u64);
        reason.append(t.as_str());
        reason.append(", win_rate=");
        reason.append(checks.win_rate.as_str());
        reason.append(", pnl=");
        reason.append(checks.total_pnl.as_str());
        (StrategyClassification::Whitelisted, reason)
    } else {
        let mut reason = String::from_str("neutral: ");
        let joined = join_strings(&failures, "; ");
        reason.append(joined.as_str());
        (StrategyClassification::Neutral, reason)
    }
}

/// A bucket is whitelisted only when no blacklist check applies and every
/// whitelist check passes; in particular a bucket with bad P&L or win rate
/// and enough samples is never whitelisted.
pub proof fn lemma_whitelisted_passes_every_check(c: BucketChecks)
    requires
        bucket_classification(c).0 == StrategyClassification::Whitelisted,
    ensures
        !(has_blacklist_support(c) && (c.pnl_below_blacklist || c.win_rate_below_blacklist)),
        c.oos_trades >= c.min_oos_trades,
        c.oos_windows >= c.min_oos_windows,
        !c.pct_profitable_below_min,
        !c.worst_loss_below_limit,
        !c.pnl_below_min,
{
}

/// A bucket with enough samples and a win rate below the blacklist threshold,
/// or a P&L below the blacklist threshold, is blacklisted, whatever its
/// whitelist checks say.
pub proof fn lemma_poor_bucket_is_blacklisted(c: BucketChecks)
    requires
        c.total_samples >= c.blacklist_min_support,
        c.win_rate_below_blacklist || c.pnl_below_blacklist,
    ensures
        bucket_classification(c).0 == StrategyClassification::Blacklisted,
{
}

/// Without enough samples no bucket is blacklisted; it is whitelisted exactly
/// when every whitelist check passes.
pub proof fn lemma_unsupported_bucket_never_blacklisted(c: BucketChecks)
    requires
        c.total_samples < c.blacklist_min_support,
    ensures
        bucket_classification(c).0 != StrategyClassification::Blacklisted,
        (bucket_classification(c).0 == StrategyClassification::Whitelisted) <==> (
        c.oos_trades >= c.min_oos_trades && c.oos_windows >= c.min_oos_windows
            && !c.pct_profitable_below_min && !c.worst_loss_below_limit && !c.pnl_below_min),
{
}

} // verus!
