//! Market identity, outcomes, sides, participation, trading modes and bot
//! states, with their stored labels and the parsers that read them back.
use vstd::prelude::*;
use crate::text::str_eq;

verus! {

/// Unique identifier of a market.
#[derive(Clone, Debug, PartialEq, Eq, Hash)]
pub struct MarketId(pub String);

impl MarketId {
    /// The identifier's text, as its display form writes it.
    pub fn as_str(&self) -> (s: &str)
        ensures
            s@ == self.0@,
    {
        self.0.as_str()
    }
}

impl From<String> for MarketId {
    fn from(s: String) -> (id: Self)
        ensures
            id == MarketId(s),
    {
        MarketId(s)
    }
}

impl vstd::std_specs::convert::FromSpecImpl<String> for MarketId {
    open spec fn obeys_from_spec() -> bool {
        true
    }

    open spec fn from_spec(v: String) -> MarketId {
        MarketId(v)
    }
}

/// The final resolved outcome of a market.
#[derive(Clone, Copy, Debug, PartialEq, Eq, Hash, Structural)]
pub enum MarketOutcome {
    Up,
    Down,
    Unknown,
}

impl MarketOutcome {
    /// The stored label of the outcome.
    pub open spec fn label_chars(self) -> Seq<char> {
        match self {
            MarketOutcome::Up => "UP"@,
            MarketOutcome::Down => "DOWN"@,
            MarketOutcome::Unknown => "?"@,
        }
    }

    /// The stored label of the outcome (`UP`, `DOWN`, `?`).
    pub fn as_str(&self) -> (s: &'static str)
        ensures
            s@ == self.label_chars(),
    {
        match self {
            MarketOutcome::Up => "UP",
            MarketOutcome::Down => "DOWN",
            MarketOutcome::Unknown => "?",
        }
    }
}

/// The outcome that a stored label names; any other text reads as `Unknown`.
pub open spec fn outcome_of_label(s: Seq<char>) -> MarketOutcome {
    if s == "UP"@ {
        MarketOutcome::Up
    } else if s == "DOWN"@ {
        MarketOutcome::Down
    } else {
        MarketOutcome::Unknown
    }
}

/// Reads a stored outcome label.
pub fn parse_outcome(s: &str) -> (o: MarketOutcome)
    ensures
        o == outcome_of_label(s@),
{
    if str_eq(s, "UP") {
        MarketOutcome::Up
    } else if str_eq(s, "DOWN") {
        MarketOutcome::Down
    } else {
        MarketOutcome::Unknown
    }
}

/// The side that the strategy favours.
#[derive(Clone, Copy, Debug, PartialEq, Eq, Hash, Structural)]
pub enum Side {
    Up,
    Down,
}

impl Side {
    /// The display label of the side.
    pub open spec fn label_chars(self) -> Seq<char> {
        match self {
            Side::Up => "UP"@,
            Side::Down => "DOWN"@,
        }
    }

    /// The display label of the side (`UP`, `DOWN`).
    pub fn as_str(&self) -> (s: &'static str)
        ensures
            s@ == self.label_chars(),
    {
        match self {
            Side::Up => "UP",
            Side::Down => "DOWN",
        }
    }
}

impl Default for Side {
    fn default() -> (s: Self)
        ensures
            s == Side::Up,
    {
        Side::Up
    }
}

/// How the bot participated in a market.
#[derive(Clone, Copy, Debug, PartialEq, Eq, Hash, Structural)]
pub enum ParticipationMode {
    No,
    Dry,
    Live,
}

impl ParticipationMode {
    /// The stored label of the participation.
    pub open spec fn label_chars(self) -> Seq<char> {
        match self {
            ParticipationMode::No => "NO"@,
            ParticipationMode::Dry => "DRY"@,
            ParticipationMode::Live => "LIVE"@,
        }
    }

    /// The stored label of the participation (`NO`, `DRY`, `LIVE`).
    pub fn as_str(&self) -> (s: &'static str)
        ensures
            s@ == self.label_chars(),
    {
        match self {
            ParticipationMode::No => "NO",
            ParticipationMode::Dry => "DRY",
            ParticipationMode::Live => "LIVE",
        }
    }
}

/// The participation that a stored label names; any other text reads as `No`.
pub open spec fn participation_of_label(s: Seq<char>) -> ParticipationMode {
    if s == "DRY"@ {
        ParticipationMode::Dry
    } else if s == "LIVE"@ {
        ParticipationMode::Live
    } else {
        ParticipationMode::No
    }
}

/// Reads a stored participation label.
pub fn parse_participation(s: &str) -> (p: ParticipationMode)
    ensures
        p == participation_of_label(s@),
{
    if str_eq(s, "DRY") {
        ParticipationMode::Dry
    } else if str_eq(s, "LIVE") {
        ParticipationMode::Live
    } else {
        ParticipationMode::No
    }
}

/// The current trading mode of the bot.
#[derive(Clone, Copy, Debug, PartialEq, Eq, Hash, Structural)]
pub enum TradingMode {
    Off,
    Dry,
    LiveDisarmed,
    LiveArmed,
    LiveTrading,
}

impl Default for TradingMode {
    fn default() -> (m: Self)
        ensures
            m == TradingMode::Off,
    {
        TradingMode::Off
    }
}

impl TradingMode {
    /// Whether the mode is one of the live modes.
    pub open spec fn spec_is_live(self) -> bool {
        self is LiveDisarmed || self is LiveArmed || self is LiveTrading
    }

    pub fn is_live(&self) -> (r: bool)
        ensures
            r == self.spec_is_live(),
    {
        match self {
            TradingMode::LiveDisarmed | TradingMode::LiveArmed | TradingMode::LiveTrading => true,
            _ => false,
        }
    }

    /// Only `LiveTrading` may send real orders.
    pub fn allows_real_orders(&self) -> (r: bool)
        ensures
            r == (*self == TradingMode::LiveTrading),
    {
        match self {
            TradingMode::LiveTrading => true,
            _ => false,
        }
    }

    /// Only `Dry` simulates orders.
    pub fn allows_sim_orders(&self) -> (r: bool)
        ensures
            r == (*self == TradingMode::Dry),
    {
        match self {
            TradingMode::Dry => true,
            _ => false,
        }
    }

    /// The stored label of the mode.
    pub open spec fn label_chars(self) -> Seq<char> {
        match self {
            TradingMode::Off => "OFF"@,
            TradingMode::Dry => "DRY"@,
            TradingMode::LiveDisarmed => "LIVE_DISARMED"@,
            TradingMode::LiveArmed => "LIVE_ARMED"@,
            TradingMode::LiveTrading => "LIVE_TRADING"@,
        }
    }

    /// The stored label of the mode (`OFF`, `DRY`, `LIVE_DISARMED`, ...).
    pub fn as_str(&self) -> (s: &'static str)
        ensures
            s@ == self.label_chars(),
    {
        match self {
            TradingMode::Off => "OFF",
            TradingMode::Dry => "DRY",
            TradingMode::LiveDisarmed => "LIVE_DISARMED",
            TradingMode::LiveArmed => "LIVE_ARMED",
            TradingMode::LiveTrading => "LIVE_TRADING",
        }
    }
}

/// The mode that a stored label names; any other text reads as `Off`.
pub open spec fn mode_of_label(s: Seq<char>) -> TradingMode {
    if s == "DRY"@ {
        TradingMode::Dry
    } else if s == "LIVE_TRADING"@ {
        TradingMode::LiveTrading
    } else if s == "LIVE_ARMED"@ {
        TradingMode::LiveArmed
    } else if s == "LIVE_DISARMED"@ {
        TradingMode::LiveDisarmed
    } else {
        TradingMode::Off
    }
}

/// Reads a stored trading-mode label.
pub fn parse_mode(s: &str) -> (m: TradingMode)
    ensures
        m == mode_of_label(s@),
{
    if str_eq(s, "DRY") {
        TradingMode::Dry
    } else if str_eq(s, "LIVE_TRADING") {
        TradingMode::LiveTrading
    } else if str_eq(s, "LIVE_ARMED") {
        TradingMode::LiveArmed
    } else if str_eq(s, "LIVE_DISARMED") {
        TradingMode::LiveDisarmed
    } else {
        TradingMode::Off
    }
}

/// High-level state of the bot state machine.
#[derive(Clone, Copy, Debug, PartialEq, Eq, Hash, Structural)]
pub enum BotState {
    Starting,
    Idle,
    Monitoring,
    SignalReady,
    EntryPending,
    Entered,
    ExitPending,
    Settled,
    Halted,
    Error,
}

impl Default for BotState {
    fn default() -> (s: Self)
        ensures
            s == BotState::Starting,
    {
        BotState::Starting
    }
}

impl BotState {
    /// The display label of the state.
    pub open spec fn label_chars(self) -> Seq<char> {
        match self {
            BotState::Starting => "STARTING"@,
            BotState::Idle => "IDLE"@,
            BotState::Monitoring => "MONITORING"@,
            BotState::SignalReady => "SIGNAL_READY"@,
            BotState::EntryPending => "ENTRY_PENDING"@,
            BotState::Entered => "ENTERED"@,
            BotState::ExitPending => "EXIT_PENDING"@,
            BotState::Settled => "SETTLED"@,
            BotState::Halted => "HALTED"@,
            BotState::Error => "ERROR"@,
        }
    }

    /// The display label of the state (`STARTING`, `IDLE`, ...).
    pub fn as_str(&self) -> (s: &'static str)
        ensures
            s@ == self.label_chars(),
    {
        match self {
            BotState::Starting => "STARTING",
            BotState::Idle => "IDLE",
            BotState::Monitoring => "MONITORING",
            BotState::SignalReady => "SIGNAL_READY",
            BotState::EntryPending => "ENTRY_PENDING",
            BotState::Entered => "ENTERED",
            BotState::ExitPending => "EXIT_PENDING",
            BotState::Settled => "SETTLED",
            BotState::Halted => "HALTED",
            BotState::Error => "ERROR",
        }
    }
}

/// Reading back a stored mode label gives the mode that was stored.
pub proof fn lemma_mode_label_round_trip(m: TradingMode)
    ensures
        mode_of_label(m.label_chars()) == m,
{
    reveal_strlit("OFF");
    reveal_strlit("DRY");
    reveal_strlit("LIVE_DISARMED");
    reveal_strlit("LIVE_ARMED");
    reveal_strlit("LIVE_TRADING");
    assert("OFF"@.len() == 3 && "DRY"@.len() == 3 && "LIVE_DISARMED"@.len() == 13);
    assert("LIVE_ARMED"@.len() == 10 && "LIVE_TRADING"@.len() == 12);
    assert("OFF"@[0] != "DRY"@[0]);
}

/// Reading back a stored outcome label gives the outcome that was stored.
pub proof fn lemma_outcome_label_round_trip(o: MarketOutcome)
    ensures
        outcome_of_label(o.label_chars()) == o,
{
    reveal_strlit("UP");
    reveal_strlit("DOWN");
    reveal_strlit("?");
    assert("UP"@.len() == 2 && "DOWN"@.len() == 4 && "?"@.len() == 1);
}

/// Reading back a stored participation label gives the participation that was stored.
pub proof fn lemma_participation_label_round_trip(p: ParticipationMode)
    ensures
        participation_of_label(p.label_chars()) == p,
{
    reveal_strlit("NO");
    reveal_strlit("DRY");
    reveal_strlit("LIVE");
    assert("NO"@.len() == 2 && "DRY"@.len() == 3 && "LIVE"@.len() == 4);
}

/// Only a live mode can send real orders, and simulating is never live.
pub proof fn lemma_mode_permissions(m: TradingMode)
    ensures
        m == TradingMode::LiveTrading ==> m.spec_is_live(),
        m == TradingMode::Dry ==> !m.spec_is_live(),
{
}

} // verus!
