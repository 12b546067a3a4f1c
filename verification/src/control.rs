//! The operator-facing control state: trading mode, bot state, risk state,
//! last action and error, and the bounded event log.
use vstd::prelude::*;
use crate::market::{BotState, TradingMode};
use crate::risk::RiskState;
use crate::text::views;

verus! {

/// The event log keeps at most this many lines.
pub const EVENT_LOG_CAPACITY: usize = 200;

/// The list of recent market results keeps at most this many entries.
pub const RECENT_RESULTS_CAPACITY: usize = 50;

/// The log after appending `line`: when that makes it longer than the
/// capacity, the oldest line is dropped.
pub open spec fn log_after(log: Seq<Seq<char>>, line: Seq<char>) -> Seq<Seq<char>> {
    if log.len() + 1 > EVENT_LOG_CAPACITY {
        log.push(line).drop_first()
    } else {
        log.push(line)
    }
}

/// The event log line `[{ts}] {msg}`.
pub open spec fn log_line(ts: Seq<char>, msg: Seq<char>) -> Seq<char> {
    "["@ + ts + "] "@ + msg
}

/// Whether `o` holds a string with the characters `msg`.
pub open spec fn holds_text(o: Option<String>, msg: Seq<char>) -> bool {
    o is Some && o->0@ == msg
}

/// The non-numeric part of the application state that the operator drives.
#[derive(Debug)]
pub struct ControlState {
    pub mode: TradingMode,
    pub bot_state: BotState,
    pub risk_state: RiskState,
    /// Last error message.
    pub last_error: Option<String>,
    /// Last action taken.
    pub last_action: Option<String>,
    /// Event log lines (most recent last).
    pub event_log: Vec<String>,
}

impl ControlState {
    /// Whether `b` keeps `a`'s mode, bot state, risk state and last error.
    pub open spec fn same_core(a: ControlState, b: ControlState) -> bool {
        &&& b.mode == a.mode
        &&& b.bot_state == a.bot_state
        &&& b.risk_state == a.risk_state
        &&& b.last_error == a.last_error
    }

    /// Whether `b` is `a` after logging `msg` stamped `ts`: the line
    /// `[{ts}] {msg}` is appended to the bounded log and `msg` becomes the
    /// last action.
    pub open spec fn logged(a: ControlState, b: ControlState, ts: Seq<char>, msg: Seq<char>) -> bool {
        &&& views(b.event_log@) == log_after(views(a.event_log@), log_line(ts, msg))
        &&& holds_text(b.last_action, msg)
    }

    /// Whether the event log is within its capacity.
    pub open spec fn wf(self) -> bool {
        self.event_log@.len() <= EVENT_LOG_CAPACITY
    }

    /// Mode `Off`, bot `Starting`, a fresh risk state and an empty log.
    pub fn new() -> (s: Self)
        ensures
            s.mode == TradingMode::Off,
            s.bot_state == BotState::Starting,
            s.risk_state.connectivity_healthy,
            !s.risk_state.kill_switch_triggered,
            !s.risk_state.artifact_valid,
            !s.risk_state.reconciliation_complete,
            !s.risk_state.session_loss_limit_breached,
            !s.risk_state.daily_loss_limit_breached,
            !s.risk_state.max_positions_reached,
            !s.risk_state.max_orders_reached,
            !s.risk_state.stale_market_data,
            !s.risk_state.stale_order_book,
            s.risk_state.risk_flags@.len() == 0,
            s.last_error is None,
            s.last_action is None,
            s.event_log@.len() == 0,
    {
        ControlState {
            mode: TradingMode::Off,
            bot_state: BotState::Starting,
            risk_state: RiskState::new(),
            last_error: None,
            last_action: None,
            event_log: Vec::new(),
        }
    }

    /// Appends `[{ts}] {msg}` to the event log, dropping the oldest line when
    /// the log would exceed its capacity, and records `msg` as the last action.
    pub fn record_event(&mut self, ts: &str, msg: String)
        ensures
            views(final(self).event_log@) == log_after(views(old(self).event_log@), log_line(ts@, msg@)),
            final(self).last_action == Some(msg),
            ControlState::same_core(*old(self), *final(self)),
    {
        let ghost before = views(self.event_log@);
        let mut line = String::from_str("[");
        line.append(ts);
        line.append("] ");
        line.append(msg.as_str());
        self.event_log.push(line);
        assert(views(self.event_log@) =~= before.push(log_line(ts@, msg@)));
        if self.event_log.len() > EVENT_LOG_CAPACITY {
            self.event_log.remove(0);
            assert(views(self.event_log@) =~= before.push(log_line(ts@, msg@)).drop_first());
        }
        self.last_action = Some(msg);
    }

    /// Logs `msg`, stamped with the time of day `ts` (the caller reads the clock).
    pub fn log_event(&mut self, ts: &str, msg: String)
        ensures
            ControlState::logged(*old(self), *final(self), ts@, msg@),
            ControlState::same_core(*old(self), *final(self)),
    {
        self.record_event(ts, msg);
    }

    /// Switches the trading mode and logs `Mode changed to {mode}`.
    pub fn set_mode(&mut self, ts: &str, mode: TradingMode)
        ensures
            final(self).mode == mode,
            final(self).bot_state == old(self).bot_state,
            final(self).risk_state == old(self).risk_state,
            final(self).last_error == old(self).last_error,
            ControlState::logged(*old(self), *final(self), ts@, "Mode changed to "@ + mode.label_chars()),
    {
        self.mode = mode;
        let mut msg = String::from_str("Mode changed to ");
        msg.append(mode.as_str());
        self.log_event(ts, msg);
    }

    /// Triggers the kill switch: the risk state's kill switch is set, the mode
    /// goes to `Off`, the bot halts, and the event is logged.
    pub fn trigger_kill_switch(&mut self, ts: &str)
        ensures
            final(self).risk_state.kill_switch_triggered,
            views(final(self).risk_state.risk_flags@) == views(old(self).risk_state.risk_flags@).push(
                "KILL SWITCH TRIGGERED"@,
            ),
            RiskState::same_except_kill(old(self).risk_state, final(self).risk_state),
            final(self).mode == TradingMode::Off,
            final(self).bot_state == BotState::Halted,
            final(self).last_error == old(self).last_error,
            ControlState::logged(*old(self), *final(self), ts@, "\u{26a0}\u{fe0f}  KILL SWITCH TRIGGERED"@),
    {
        self.risk_state.trigger_kill_switch();
        self.mode = TradingMode::Off;
        self.bot_state = BotState::Halted;
        self.log_event(ts, String::from_str("\u{26a0}\u{fe0f}  KILL SWITCH TRIGGERED"));
    }

    /// Marks the strategy artifact valid and logs `Artifact loaded: {id}`.
    pub fn load_artifact(&mut self, ts: &str, artifact_id: &str)
        ensures
            final(self).risk_state.artifact_valid,
            final(self).risk_state.risk_flags == old(self).risk_state.risk_flags,
            final(self).risk_state.kill_switch_triggered == old(self).risk_state.kill_switch_triggered,
            RiskState::same_except_kill(
                RiskState { artifact_valid: true, ..old(self).risk_state },
                final(self).risk_state,
            ),
            final(self).mode == old(self).mode,
            final(self).bot_state == old(self).bot_state,
            final(self).last_error == old(self).last_error,
            ControlState::logged(*old(self), *final(self), ts@, "Artifact loaded: "@ + artifact_id@),
    {
        self.risk_state.artifact_valid = true;
        let mut msg = String::from_str("Artifact loaded: ");
        msg.append(artifact_id);
        self.log_event(ts, msg);
    }

    /// Logs `Market activated: {slug}` and starts monitoring.
    pub fn set_current_market(&mut self, ts: &str, slug: &str)
        ensures
            final(self).bot_state == BotState::Monitoring,
            final(self).mode == old(self).mode,
            final(self).risk_state == old(self).risk_state,
            final(self).last_error == old(self).last_error,
            ControlState::logged(*old(self), *final(self), ts@, "Market activated: "@ + slug@),
    {
        let mut msg = String::from_str("Market activated: ");
        msg.append(slug);
        self.log_event(ts, msg);
        self.bot_state = BotState::Monitoring;
    }

    /// Logs a new signal's summary; a trade signal makes the bot `SignalReady`.
    pub fn note_signal(&mut self, ts: &str, summary: String, is_trade: bool)
        ensures
            final(self).bot_state == (if is_trade { BotState::SignalReady } else { old(self).bot_state }),
            final(self).mode == old(self).mode,
            final(self).risk_state == old(self).risk_state,
            final(self).last_error == old(self).last_error,
            ControlState::logged(*old(self), *final(self), ts@, summary@),
    {
        self.log_event(ts, summary);
        if is_trade {
            self.bot_state = BotState::SignalReady;
        }
    }

    /// Records `err` as the last error and logs `ERROR: {err}`.
    pub fn set_error(&mut self, ts: &str, err: String)
        ensures
            final(self).last_error == Some(err),
            final(self).mode == old(self).mode,
            final(self).bot_state == old(self).bot_state,
            final(self).risk_state == old(self).risk_state,
            ControlState::logged(*old(self), *final(self), ts@, "ERROR: "@ + err@),
    {
        let mut msg = String::from_str("ERROR: ");
        msg.append(err.as_str());
        self.last_error = Some(err.clone());
        self.log_event(ts, msg);
    }
}

/// The list after putting `item` in front of `results`, cut to the capacity.
pub open spec fn recent_after<T>(results: Seq<T>, item: T) -> Seq<T> {
    let s = seq![item] + results;
    if s.len() > RECENT_RESULTS_CAPACITY {
        s.subrange(0, RECENT_RESULTS_CAPACITY as int)
    } else {
        s
    }
}

/// Puts the newest result first and keeps only the most recent ones.
pub fn push_recent<T>(results: &mut Vec<T>, item: T)
    ensures
        final(results)@ == recent_after(old(results)@, item),
{
    results.insert(0, item);
    assert(results@ =~= seq![item] + old(results)@);
    if results.len() > RECENT_RESULTS_CAPACITY {
        results.truncate(RECENT_RESULTS_CAPACITY);
    }
}

/// Appending to a log within its capacity keeps it within its capacity, and
/// the appended line is the newest.
pub proof fn lemma_log_stays_bounded(log: Seq<Seq<char>>, line: Seq<char>)
    requires
        log.len() <= EVENT_LOG_CAPACITY,
    ensures
        log_after(log, line).len() <= EVENT_LOG_CAPACITY,
        log_after(log, line).last() == line,
{
}

/// The recent-results list never exceeds its capacity and always starts with
/// the newest result.
pub proof fn lemma_recent_bounded<T>(results: Seq<T>, item: T)
    ensures
        recent_after(results, item).len() <= RECENT_RESULTS_CAPACITY,
        recent_after(results, item)[0] == item,
{
}

} // verus!
