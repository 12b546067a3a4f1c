//! Pre-trade safety checks run before any real or simulated order.
use vstd::prelude::*;
use crate::market::TradingMode;
use crate::risk::RiskState;
use crate::text::{dec_digits, decimal_string, views};

verus! {

/// Pre-trade safety check result.
#[derive(Debug)]
pub struct SafetyCheckResult {
    pub passed: bool,
    pub failures: Vec<String>,
}

impl SafetyCheckResult {
    /// A passing result with no failure.
    pub fn ok() -> (r: Self)
        ensures
            r.passed,
            r.failures@.len() == 0,
    {
        SafetyCheckResult { passed: true, failures: Vec::new() }
    }

    /// A failing result with the one failure `reason`.
    pub fn fail(reason: String) -> (r: Self)
        ensures
            !r.passed,
            r.failures@ == seq![reason],
    {
        let mut failures: Vec<String> = Vec::new();
        failures.push(reason);
        SafetyCheckResult { passed: false, failures }
    }
}

/// The time limits that the checks hold market data, order books and entries to.
#[derive(Clone, Copy, Debug)]
pub struct EntryLimits {
    pub stale_data_cutoff_secs: u64,
    pub stale_order_book_cutoff_secs: u64,
    pub no_entry_within_secs: u64,
}

impl Default for EntryLimits {
    /// Thirty seconds for each limit.
    fn default() -> (l: Self)
        ensures
            l.stale_data_cutoff_secs == 30,
            l.stale_order_book_cutoff_secs == 30,
            l.no_entry_within_secs == 30,
    {
        EntryLimits {
            stale_data_cutoff_secs: 30,
            stale_order_book_cutoff_secs: 30,
            no_entry_within_secs: 30,
        }
    }
}

/// The outcome of comparing an order's notional with the per-trade limit:
/// whether it exceeds the limit, and both amounts as the report writes them.
#[derive(Clone, Debug)]
pub struct NotionalCheck {
    pub exceeds_limit: bool,
    pub notional: String,
    pub limit: String,
}

/// `seq![msg]` when `cond` holds, else no message.
pub open spec fn failure_if(cond: bool, msg: Seq<char>) -> Seq<Seq<char>> {
    if cond {
        seq![msg]
    } else {
        seq![]
    }
}

/// `{prefix}{age}s old (max {max}s)`
pub open spec fn stale_message(prefix: Seq<char>, age: nat, max: nat) -> Seq<char> {
    prefix + dec_digits(age) + "s old (max "@ + dec_digits(max) + "s)"@
}

/// `too close to market close: {left}s remaining (min {min}s)`
pub open spec fn close_message(left: nat, min: nat) -> Seq<char> {
    "too close to market close: "@ + dec_digits(left) + "s remaining (min "@ + dec_digits(min)
        + "s)"@
}

/// `notional {notional} exceeds limit {limit}`
pub open spec fn notional_message(notional: Seq<char>, limit: Seq<char>) -> Seq<char> {
    "notional "@ + notional + " exceeds limit "@ + limit
}

/// The failures of the mode and readiness checks.
pub open spec fn mode_failures(mode: TradingMode, risk: RiskState) -> Seq<Seq<char>> {
    failure_if(risk.kill_switch_triggered, "kill switch is active"@)
    + failure_if(mode == TradingMode::Off, "mode is OFF"@)
    + failure_if(mode == TradingMode::LiveDisarmed, "live mode is DISARMED"@)
    + failure_if(mode.spec_is_live() && !risk.artifact_valid, "strategy artifact is not valid"@)
    + failure_if(mode.spec_is_live() && !risk.reconciliation_complete, "reconciliation not complete"@)
    + failure_if(mode.spec_is_live() && !risk.connectivity_healthy, "exchange connectivity unhealthy"@)
}

/// The failures of the loss-limit checks.
pub open spec fn loss_failures(risk: RiskState) -> Seq<Seq<char>> {
    failure_if(risk.session_loss_limit_breached, "session loss limit breached"@)
    + failure_if(risk.daily_loss_limit_breached, "daily loss limit breached"@)
}

/// The failures of the data freshness, closing-time and notional checks.
pub open spec fn timing_failures(
    limits: EntryLimits,
    market_data_age_secs: nat,
    order_book_age_secs: nat,
    time_left_sec: nat,
    notional: NotionalCheck,
) -> Seq<Seq<char>> {
    failure_if(
        market_data_age_secs > limits.stale_data_cutoff_secs,
        stale_message("market data stale: "@, market_data_age_secs, limits.stale_data_cutoff_secs as nat),
    )
    + failure_if(
        order_book_age_secs > limits.stale_order_book_cutoff_secs,
        stale_message("order book stale: "@, order_book_age_secs, limits.stale_order_book_cutoff_secs as nat),
    )
    + failure_if(
        time_left_sec < limits.no_entry_within_secs,
        close_message(time_left_sec, limits.no_entry_within_secs as nat),
    )
    + failure_if(notional.exceeds_limit, notional_message(notional.notional@, notional.limit@))
}

/// The failures of the pre-trade checks, in the order the checks run.
pub open spec fn pre_trade_failures(
    mode: TradingMode,
    risk: RiskState,
    limits: EntryLimits,
    market_data_age_secs: nat,
    order_book_age_secs: nat,
    time_left_sec: nat,
    notional: NotionalCheck,
) -> Seq<Seq<char>> {
    mode_failures(mode, risk) + loss_failures(risk) + timing_failures(
        limits,
        market_data_age_secs,
        order_book_age_secs,
        time_left_sec,
        notional,
    )
}

/// Whether no pre-trade check fails.
pub open spec fn pre_trade_clear(
    mode: TradingMode,
    risk: RiskState,
    limits: EntryLimits,
    market_data_age_secs: nat,
    order_book_age_secs: nat,
    time_left_sec: nat,
    notional: NotionalCheck,
) -> bool {
    &&& !risk.kill_switch_triggered
    &&& mode != TradingMode::Off
    &&& mode != TradingMode::LiveDisarmed
    &&& mode.spec_is_live() ==> risk.artifact_valid && risk.reconciliation_complete
        && risk.connectivity_healthy
    &&& !risk.session_loss_limit_breached
    &&& !risk.daily_loss_limit_breached
    &&& market_data_age_secs <= limits.stale_data_cutoff_secs
    &&& order_book_age_secs <= limits.stale_order_book_cutoff_secs
    &&& time_left_sec >= limits.no_entry_within_secs
    &&& !notional.exceeds_limit
}

fn push_failure(failures: &mut Vec<String>, msg: String)
    ensures
        views(final(failures)@) == views(old(failures)@).push(msg@),
{
    let ghost before = failures@;
    failures.push(msg);
    assert(views(failures@) =~= views(before).push(msg@));
}

fn push_if(failures: &mut Vec<String>, cond: bool, msg: String)
    ensures
        views(final(failures)@) == views(old(failures)@) + failure_if(cond, msg@),
{
    if cond {
        push_failure(failures, msg);
        assert(views(old(failures)@).push(msg@) =~= views(old(failures)@) + seq![msg@]);
    } else {
        assert(views(old(failures)@) + seq![] =~= views(old(failures)@));
    }
}

fn stale_text(prefix: &str, age: u64, max: u64) -> (s: String)
    ensures
        s@ == stale_message(prefix@, age as nat, max as nat),
{
    let mut s = String::from_str(prefix);
    let a = decimal_string(age);
    s.append(a.as_str());
    s.append("s old (max ");
    let m = decimal_string(max);
    s.append(m.as_str());
    s.append("s)");
    s
}

fn close_text(left: u64, min: u64) -> (s: String)
    ensures
        s@ == close_message(left as nat, min as nat),
{
    let mut s = String::from_str("too close to market close: ");
    let t = decimal_string(left);
    s.append(t.as_str());
    s.append("s remaining (min ");
    let n = decimal_string(min);
    s.append(n.as_str());
    s.append("s)");
    s
}

fn notional_text(notional: &NotionalCheck) -> (s: String)
    ensures
        s@ == notional_message(notional.notional@, notional.limit@),
{
    let mut s = String::from_str("notional ");
    s.append(notional.notional.as_str());
    s.append(" exceeds limit ");
    s.append(notional.limit.as_str());
    s
}

fn push_mode_failures(failures: &mut Vec<String>, mode: TradingMode, risk_state: &RiskState)
    ensures
        views(final(failures)@) == views(old(failures)@) + mode_failures(mode, *risk_state),
{
    let ghost start = views(failures@);
    let live = mode.is_live();
    push_if(failures, risk_state.kill_switch_triggered, String::from_str("kill switch is active"));
    push_if(failures, mode == TradingMode::Off, String::from_str("mode is OFF"));
    push_if(failures, mode == TradingMode::LiveDisarmed, String::from_str("live mode is DISARMED"));
    push_if(failures, live && !risk_state.artifact_valid, String::from_str("strategy artifact is not valid"));
    push_if(failures, live && !risk_state.reconciliation_complete, String::from_str("reconciliation not complete"));
    push_if(failures, live && !risk_state.connectivity_healthy, String::from_str("exchange connectivity unhealthy"));
    assert(views(failures@) =~= start + mode_failures(mode, *risk_state));
}

fn push_loss_failures(failures: &mut Vec<String>, risk_state: &RiskState)
    ensures
        views(final(failures)@) == views(old(failures)@) + loss_failures(*risk_state),
{
    let ghost start = views(failures@);
    push_if(failures, risk_state.session_loss_limit_breached, String::from_str("session loss limit breached"));
    push_if(failures, risk_state.daily_loss_limit_breached, String::from_str("daily loss limit breached"));
    assert(views(failures@) =~= start + loss_failures(*risk_state));
}

fn push_timing_failures(
    failures: &mut Vec<String>,
    limits: &EntryLimits,
    market_data_age_secs: u64,
    order_book_age_secs: u64,
    time_left_sec: u64,
    notional: &NotionalCheck,
)
    ensures
        views(final(failures)@) == views(old(failures)@) + timing_failures(
            *limits,
            market_data_age_secs as nat,
            order_book_age_secs as nat,
            time_left_sec as nat,
            *notional,
        ),
{
    let ghost start = views(failures@);
    let data_msg = stale_text("market data stale: ", market_data_age_secs, limits.stale_data_cutoff_secs);
    push_if(failures, market_data_age_secs > limits.stale_data_cutoff_secs, data_msg);
    let book_msg = stale_text("order book stale: ", order_book_age_secs, limits.stale_order_book_cutoff_secs);
    push_if(failures, order_book_age_secs > limits.stale_order_book_cutoff_secs, book_msg);
    let close_msg = close_text(time_left_sec, limits.no_entry_within_secs);
    push_if(failures, time_left_sec < limits.no_entry_within_secs, close_msg);
    let notional_msg = notional_text(notional);
    push_if(failures, notional.exceeds_limit, notional_msg);
    assert(views(failures@) =~= start + timing_failures(
        *limits,
        market_data_age_secs as nat,
        order_book_age_secs as nat,
        time_left_sec as nat,
        *notional,
    ));
}

/// The checks' failure list is empty exactly when no check fails.
pub proof fn lemma_no_failures_iff_clear(
    mode: TradingMode,
    risk: RiskState,
    limits: EntryLimits,
    market_data_age_secs: nat,
    order_book_age_secs: nat,
    time_left_sec: nat,
    notional: NotionalCheck,
)
    ensures
        (pre_trade_failures(
            mode,
            risk,
            limits,
            market_data_age_secs,
            order_book_age_secs,
            time_left_sec,
            notional,
        ).len() == 0) <==> pre_trade_clear(
            mode,
            risk,
            limits,
            market_data_age_secs,
            order_book_age_secs,
            time_left_sec,
            notional,
        ),
{
}

/// Runs every pre-trade safety check before an order is submitted or simulated.
/// The result lists each failing check's message, in the order the checks run;
/// it passes exactly when none fails.
pub fn run_pre_trade_checks(
    mode: TradingMode,
    risk_state: &RiskState,
    limits: &EntryLimits,
    market_data_age_secs: u64,
    order_book_age_secs: u64,
    time_left_sec: u64,
    notional: &NotionalCheck,
) -> (r: SafetyCheckResult)
    ensures
        views(r.failures@) == pre_trade_failures(
            mode,
            *risk_state,
            *limits,
            market_data_age_secs as nat,
            order_book_age_secs as nat,
            time_left_sec as nat,
            *notional,
        ),
        r.passed <==> r.failures@.len() == 0,
        r.passed <==> pre_trade_clear(
            mode,
            *risk_state,
            *limits,
            market_data_age_secs as nat,
            order_book_age_secs as nat,
            time_left_sec as nat,
            *notional,
        ),
{
    let mut failures: Vec<String> = Vec::new();
    push_mode_failures(&mut failures, mode, risk_state);
    assert(views(failures@) =~= mode_failures(mode, *risk_state));
    push_loss_failures(&mut failures, risk_state);
    push_timing_failures(
        &mut failures,
        limits,
        market_data_age_secs,
        order_book_age_secs,
        time_left_sec,
        notional,
    );
    proof {
        lemma_no_failures_iff_clear(
            mode,
            *risk_state,
            *limits,
            market_data_age_secs as nat,
            order_book_age_secs as nat,
            time_left_sec as nat,
            *notional,
        );
    }
    assert(failures@.len() == views(failures@).len());
    if failures.is_empty() {
        SafetyCheckResult::ok()
    } else {
        SafetyCheckResult { passed: false, failures }
    }
}

} // verus!
