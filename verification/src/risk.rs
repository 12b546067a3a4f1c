//! Live risk state of the bot.
use vstd::prelude::*;
use crate::text::views;

verus! {

/// Live risk state of the bot.
#[derive(Clone, Debug)]
pub struct RiskState {
    pub kill_switch_triggered: bool,
    pub session_loss_limit_breached: bool,
    pub daily_loss_limit_breached: bool,
    pub max_positions_reached: bool,
    pub max_orders_reached: bool,
    pub stale_market_data: bool,
    pub stale_order_book: bool,
    pub connectivity_healthy: bool,
    pub artifact_valid: bool,
    pub reconciliation_complete: bool,
    pub risk_flags: Vec<String>,
}

impl Default for RiskState {
    /// Every flag cleared and no risk flag recorded.
    fn default() -> (r: Self)
        ensures
            !r.kill_switch_triggered,
            !r.session_loss_limit_breached,
            !r.daily_loss_limit_breached,
            !r.max_positions_reached,
            !r.max_orders_reached,
            !r.stale_market_data,
            !r.stale_order_book,
            !r.connectivity_healthy,
            !r.artifact_valid,
            !r.reconciliation_complete,
            r.risk_flags@.len() == 0,
    {
        RiskState {
            kill_switch_triggered: false,
            session_loss_limit_breached: false,
            daily_loss_limit_breached: false,
            max_positions_reached: false,
            max_orders_reached: false,
            stale_market_data: false,
            stale_order_book: false,
            connectivity_healthy: false,
            artifact_valid: false,
            reconciliation_complete: false,
            risk_flags: Vec::new(),
        }
    }
}

impl RiskState {
    /// The state a bot starts in: connectivity healthy, no artifact, not reconciled.
    pub fn new() -> (r: Self)
        ensures
            !r.kill_switch_triggered,
            !r.session_loss_limit_breached,
            !r.daily_loss_limit_breached,
            !r.max_positions_reached,
            !r.max_orders_reached,
            !r.stale_market_data,
            !r.stale_order_book,
            r.connectivity_healthy,
            !r.artifact_valid,
            !r.reconciliation_complete,
            r.risk_flags@.len() == 0,
    {
        RiskState {
            kill_switch_triggered: false,
            session_loss_limit_breached: false,
            daily_loss_limit_breached: false,
            max_positions_reached: false,
            max_orders_reached: false,
            stale_market_data: false,
            stale_order_book: false,
            connectivity_healthy: true,
            artifact_valid: false,
            reconciliation_complete: false,
            risk_flags: Vec::new(),
        }
    }

    /// Whether every condition for arming live trading holds.
    pub open spec fn safe_for_live(&self) -> bool {
        !self.kill_switch_triggered && !self.session_loss_limit_breached
            && !self.daily_loss_limit_breached && !self.max_positions_reached
            && !self.stale_market_data && !self.stale_order_book && self.connectivity_healthy
            && self.artifact_valid && self.reconciliation_complete
    }

    pub fn is_safe_for_live(&self) -> (r: bool)
        ensures
            r == self.safe_for_live(),
    {
        !self.kill_switch_triggered && !self.session_loss_limit_breached
            && !self.daily_loss_limit_breached && !self.max_positions_reached
            && !self.stale_market_data && !self.stale_order_book && self.connectivity_healthy
            && self.artifact_valid && self.reconciliation_complete
    }

    /// Whether `b` is `a` with only the kill switch and the risk flags changed.
    pub open spec fn same_except_kill(a: RiskState, b: RiskState) -> bool {
        &&& b.session_loss_limit_breached == a.session_loss_limit_breached
        &&& b.daily_loss_limit_breached == a.daily_loss_limit_breached
        &&& b.max_positions_reached == a.max_positions_reached
        &&& b.max_orders_reached == a.max_orders_reached
        &&& b.stale_market_data == a.stale_market_data
        &&& b.stale_order_book == a.stale_order_book
        &&& b.connectivity_healthy == a.connectivity_healthy
        &&& b.artifact_valid == a.artifact_valid
        &&& b.reconciliation_complete == a.reconciliation_complete
    }

    /// Sets the kill switch and records the risk flag `KILL SWITCH TRIGGERED`.
    pub fn trigger_kill_switch(&mut self)
        ensures
            final(self).kill_switch_triggered,
            views(final(self).risk_flags@) == views(old(self).risk_flags@).push(
                "KILL SWITCH TRIGGERED"@,
            ),
            RiskState::same_except_kill(*old(self), *final(self)),
    {
        self.kill_switch_triggered = true;
        let flag = String::from_str("KILL SWITCH TRIGGERED");
        let ghost before = self.risk_flags@;
        self.risk_flags.push(flag);
        assert(views(self.risk_flags@) =~= views(before).push("KILL SWITCH TRIGGERED"@));
    }
}

/// Once the kill switch has been triggered the bot is not safe for live trading.
pub proof fn lemma_kill_switch_blocks_live(r: RiskState)
    requires
        r.kill_switch_triggered,
    ensures
        !r.safe_for_live(),
{
}

/// Each blocking condition on its own makes the bot unsafe for live trading:
/// a triggered kill switch, a breached session or daily loss limit, the
/// position limit reached, stale market data or order book, unhealthy
/// connectivity, an invalid artifact, or an incomplete reconciliation.
pub proof fn lemma_blocking_condition_blocks_live(r: RiskState)
    requires
        r.kill_switch_triggered || r.session_loss_limit_breached || r.daily_loss_limit_breached
            || r.max_positions_reached || r.stale_market_data || r.stale_order_book
            || !r.connectivity_healthy || !r.artifact_valid || !r.reconciliation_complete,
    ensures
        !r.safe_for_live(),
{
}

/// With no blocking condition the bot is safe for live trading; the open
/// order limit does not take part.
pub proof fn lemma_clear_state_is_safe(r: RiskState)
    requires
        !r.kill_switch_triggered,
        !r.session_loss_limit_breached,
        !r.daily_loss_limit_breached,
        !r.max_positions_reached,
        !r.stale_market_data,
        !r.stale_order_book,
        r.connectivity_healthy,
        r.artifact_valid,
        r.reconciliation_complete,
    ensures
        r.safe_for_live(),
{
}

} // verus!
