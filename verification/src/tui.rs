//! Dashboard navigation and the operator's key bindings, decided apart from
//! the terminal: the loop hands each key press in and performs the step that
//! comes back.
use vstd::prelude::*;
use vstd::string::StringSliceAdditionalSpecFns;
use vstd::utf8::{decode_utf8, encode_utf8_decode_utf8, encode_utf8_valid_utf8, is_char_boundary};
use crate::control::{holds_text, ControlState};
use crate::market::{BotState, TradingMode};
use crate::risk::RiskState;
use crate::text::views;

verus! {

/// Currently active tab of the dashboard.
#[derive(Clone, Copy, Debug, PartialEq, Eq, Hash, Structural)]
pub enum ActiveTab {
    Main,
    BucketDiagnostics,
    SignalExplanation,
    OrderLog,
    SystemHealth,
    RiskAlerts,
}

impl Default for ActiveTab {
    fn default() -> (t: Self)
        ensures
            t == ActiveTab::Main,
    {
        ActiveTab::Main
    }
}

impl ActiveTab {
    /// The tab after `self`, wrapping from the last back to `Main`.
    pub open spec fn following(self) -> ActiveTab {
        match self {
            ActiveTab::Main => ActiveTab::BucketDiagnostics,
            ActiveTab::BucketDiagnostics => ActiveTab::SignalExplanation,
            ActiveTab::SignalExplanation => ActiveTab::OrderLog,
            ActiveTab::OrderLog => ActiveTab::SystemHealth,
            ActiveTab::SystemHealth => ActiveTab::RiskAlerts,
            ActiveTab::RiskAlerts => ActiveTab::Main,
        }
    }

    pub fn next(self) -> (t: Self)
        ensures
            t == self.following(),
    {
        match self {
            ActiveTab::Main => ActiveTab::BucketDiagnostics,
            ActiveTab::BucketDiagnostics => ActiveTab::SignalExplanation,
            ActiveTab::SignalExplanation => ActiveTab::OrderLog,
            ActiveTab::OrderLog => ActiveTab::SystemHealth,
            ActiveTab::SystemHealth => ActiveTab::RiskAlerts,
            ActiveTab::RiskAlerts => ActiveTab::Main,
        }
    }

    /// The tab's title.
    pub open spec fn label_chars(self) -> Seq<char> {
        match self {
            ActiveTab::Main => "Main"@,
            ActiveTab::BucketDiagnostics => "Bucket"@,
            ActiveTab::SignalExplanation => "Signal"@,
            ActiveTab::OrderLog => "Orders"@,
            ActiveTab::SystemHealth => "Health"@,
            ActiveTab::RiskAlerts => "Risk"@,
        }
    }

    pub fn label(self) -> (s: &'static str)
        ensures
            s@ == self.label_chars(),
    {
        match self {
            ActiveTab::Main => "Main",
            ActiveTab::BucketDiagnostics => "Bucket",
            ActiveTab::SignalExplanation => "Signal",
            ActiveTab::OrderLog => "Orders",
            ActiveTab::SystemHealth => "Health",
            ActiveTab::RiskAlerts => "Risk",
        }
    }
}

/// Pressing Tab six times comes back to the tab one started from.
pub proof fn lemma_tabs_cycle(t: ActiveTab)
    ensures
        t.following().following().following().following().following().following() == t,
{
}

/// A key, as far as the bindings tell keys apart.
#[derive(Clone, Copy, Debug, PartialEq, Eq, Structural)]
pub enum Key {
    Char(char),
    Tab,
    Other,
}

/// A key press; `control_only` holds when Control is the only modifier.
#[derive(Clone, Copy, Debug, PartialEq, Eq, Structural)]
pub struct KeyPress {
    pub key: Key,
    pub control_only: bool,
}

/// What the dashboard loop does after a key press.
#[derive(Clone, Copy, Debug, PartialEq, Eq, Structural)]
pub enum LoopStep {
    Quit,
    Stay(ActiveTab),
}

/// The mode that the mode key switches to.
pub open spec fn cycled_mode(m: TradingMode) -> TradingMode {
    match m {
        TradingMode::Off => TradingMode::Dry,
        TradingMode::Dry => TradingMode::LiveDisarmed,
        _ => TradingMode::Off,
    }
}

/// The tab that a digit key selects.
pub open spec fn tab_for_digit(c: char) -> Option<ActiveTab> {
    if c == '1' {
        Some(ActiveTab::Main)
    } else if c == '2' {
        Some(ActiveTab::BucketDiagnostics)
    } else if c == '3' {
        Some(ActiveTab::SignalExplanation)
    } else if c == '4' {
        Some(ActiveTab::OrderLog)
    } else if c == '5' {
        Some(ActiveTab::SystemHealth)
    } else {
        None
    }
}

/// Whether the press quits the dashboard: `q`, `Q`, or Control-`c`.
pub open spec fn quits(p: KeyPress) -> bool {
    p.key == Key::Char('q') || p.key == Key::Char('Q') || (p.key == Key::Char('c') && p.control_only)
}

/// The effect of a key press on the control state and the tab.
pub open spec fn key_effect(
    a: ControlState,
    b: ControlState,
    ts: Seq<char>,
    tab: ActiveTab,
    p: KeyPress,
    step: LoopStep,
) -> bool {
    if quits(p) {
        step == LoopStep::Quit && b == a
    } else if p.key == Key::Tab {
        step == LoopStep::Stay(tab.following()) && b == a
    } else if p.key is Char && tab_for_digit(p.key->Char_0) is Some {
        step == LoopStep::Stay(tab_for_digit(p.key->Char_0)->0) && b == a
    } else if p.key == Key::Char('m') {
        &&& step == LoopStep::Stay(tab)
        &&& b.mode == cycled_mode(a.mode)
        &&& b.bot_state == a.bot_state && b.risk_state == a.risk_state
            && b.last_error == a.last_error
        &&& ControlState::logged(a, b, ts, "Mode changed to "@ + b.mode.label_chars())
    } else if p.key == Key::Char('a') {
        &&& step == LoopStep::Stay(tab)
        &&& b.bot_state == a.bot_state && b.risk_state == a.risk_state
        &&& if a.mode == TradingMode::LiveDisarmed && a.risk_state.safe_for_live() {
            &&& b.mode == TradingMode::LiveArmed
            &&& b.last_error == a.last_error
            &&& ControlState::logged(a, b, ts, "Mode changed to "@ + "LIVE_ARMED"@)
        } else if a.mode == TradingMode::LiveDisarmed {
            &&& b.mode == a.mode
            &&& holds_text(b.last_error, "Cannot arm: safety checks failed"@)
            &&& ControlState::logged(a, b, ts, "ERROR: "@ + "Cannot arm: safety checks failed"@)
        } else if a.mode == TradingMode::LiveArmed {
            &&& b.mode == TradingMode::LiveDisarmed
            &&& b.last_error == a.last_error
            &&& ControlState::logged(a, b, ts, "Mode changed to "@ + "LIVE_DISARMED"@)
        } else {
            b == a
        }
    } else if p.key == Key::Char('k') {
        &&& step == LoopStep::Stay(tab)
        &&& b.risk_state.kill_switch_triggered
        &&& views(b.risk_state.risk_flags@) == views(a.risk_state.risk_flags@).push(
            "KILL SWITCH TRIGGERED"@,
        )
        &&& RiskState::same_except_kill(a.risk_state, b.risk_state)
        &&& b.mode == TradingMode::Off
        &&& b.bot_state == BotState::Halted
        &&& b.last_error == a.last_error
        &&& ControlState::logged(a, b, ts, "\u{26a0}\u{fe0f}  KILL SWITCH TRIGGERED"@)
    } else if p.key == Key::Char('r') {
        &&& step == LoopStep::Stay(tab)
        &&& ControlState::same_core(a, b)
        &&& ControlState::logged(
            a,
            b,
            ts,
            "Reload artifacts (stub \u{2014} use pmkt-analyze to build)"@,
        )
    } else {
        step == LoopStep::Stay(tab) && b == a
    }
}

/// Applies one key press of the dashboard's bindings to the control state;
/// any line logged is stamped `ts`.
/// No key ever switches to `LiveTrading`; arming happens only from
/// `LiveDisarmed` and only when the risk state is safe for live trading; and
/// the only live mode that a non-live mode leads to is `LiveDisarmed`.
pub fn handle_key(state: &mut ControlState, ts: &str, tab: ActiveTab, press: KeyPress) -> (step: LoopStep)
    ensures
        key_effect(*old(state), *final(state), ts@, tab, press, step),
        final(state).mode == TradingMode::LiveTrading ==> old(state).mode == TradingMode::LiveTrading,
        final(state).mode == TradingMode::LiveArmed && old(state).mode != TradingMode::LiveArmed
            ==> old(state).mode == TradingMode::LiveDisarmed && old(state).risk_state.safe_for_live(),
        final(state).mode.spec_is_live() && !old(state).mode.spec_is_live()
            ==> final(state).mode == TradingMode::LiveDisarmed,
{
    match press.key {
        Key::Char('q') | Key::Char('Q') => LoopStep::Quit,
        Key::Char('c') if press.control_only => LoopStep::Quit,
        Key::Tab => LoopStep::Stay(tab.next()),
        Key::Char('1') => LoopStep::Stay(ActiveTab::Main),
        Key::Char('2') => LoopStep::Stay(ActiveTab::BucketDiagnostics),
        Key::Char('3') => LoopStep::Stay(ActiveTab::SignalExplanation),
        Key::Char('4') => LoopStep::Stay(ActiveTab::OrderLog),
        Key::Char('5') => LoopStep::Stay(ActiveTab::SystemHealth),
        Key::Char('m') => {
            let new_mode = match state.mode {
                TradingMode::Off => TradingMode::Dry,
                TradingMode::Dry => TradingMode::LiveDisarmed,
                TradingMode::LiveDisarmed => TradingMode::Off,
                _ => TradingMode::Off,
            };
            state.set_mode(ts, new_mode);
            LoopStep::Stay(tab)
        },
        Key::Char('a') => {
            match state.mode {
                TradingMode::LiveDisarmed => {
                    if state.risk_state.is_safe_for_live() {
                        state.set_mode(ts, TradingMode::LiveArmed);
                    } else {
                        state.set_error(ts, String::from_str("Cannot arm: safety checks failed"));
                    }
                },
                TradingMode::LiveArmed => {
                    state.set_mode(ts, TradingMode::LiveDisarmed);
                },
                _ => {},
            }
            LoopStep::Stay(tab)
        },
        Key::Char('k') => {
            state.trigger_kill_switch(ts);
            LoopStep::Stay(tab)
        },
        Key::Char('r') => {
            state.log_event(ts, String::from_str("Reload artifacts (stub \u{2014} use pmkt-analyze to build)"));
            LoopStep::Stay(tab)
        },
        _ => LoopStep::Stay(tab),
    }
}

/// `s` cut to at most `max` bytes: when longer, its first `max - 1` bytes
/// followed by an ellipsis.
pub open spec fn truncated(s: &str, max: nat) -> Seq<char> {
    if s.spec_bytes().len() <= max {
        s@
    } else {
        decode_utf8(s.spec_bytes().subrange(0, max - 1)) + "\u{2026}"@
    }
}

/// Shortens a label for a table cell. A string longer than `max` bytes keeps
/// its first `max - 1` bytes, which must end on a character boundary, and
/// gets an ellipsis.
pub fn truncate(s: &str, max: usize) -> (r: String)
    requires
        s.spec_bytes().len() > max ==> max >= 1 && is_char_boundary(s.spec_bytes(), max - 1),
    ensures
        r@ == truncated(s, max as nat),
{
    proof {
        encode_utf8_valid_utf8(s@);
    }
    let len = s.as_bytes().len();
    if len <= max {
        s.to_owned()
    } else {
        let (head, _tail) = s.split_at(max - 1);
        proof {
            encode_utf8_decode_utf8(head@);
            assert(head.spec_bytes() =~= s.spec_bytes().subrange(0, max - 1));
            assert(decode_utf8(s.spec_bytes().subrange(0, max - 1)) == head@);
        }
        let mut r = head.to_owned();
        r.append("\u{2026}");
        assert(r@ == head@ + "\u{2026}"@);
        r
    }
}

/// The mode key leads to `Off`, `Dry` or `LiveDisarmed`, never to an armed
/// or trading mode: from `Off` to `Dry`, from `Dry` to `LiveDisarmed`, and
/// from every other mode to `Off`.
pub proof fn lemma_mode_key_cycles(
    a: ControlState,
    b: ControlState,
    ts: Seq<char>,
    tab: ActiveTab,
    p: KeyPress,
    step: LoopStep,
)
    requires
        key_effect(a, b, ts, tab, p, step),
        p.key == Key::Char('m'),
    ensures
        b.mode == TradingMode::Off || b.mode == TradingMode::Dry || b.mode
            == TradingMode::LiveDisarmed,
        a.mode == TradingMode::Off ==> b.mode == TradingMode::Dry,
        a.mode == TradingMode::Dry ==> b.mode == TradingMode::LiveDisarmed,
        a.mode == TradingMode::LiveDisarmed ==> b.mode == TradingMode::Off,
        a.mode == TradingMode::LiveArmed ==> b.mode == TradingMode::Off,
        a.mode == TradingMode::LiveTrading ==> b.mode == TradingMode::Off,
        step == LoopStep::Stay(tab),
{
}

} // verus!
