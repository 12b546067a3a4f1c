//! Decision logic of a prediction-market trading assistant: typed market
//! buckets, trading modes and their safety gates, pre-trade safety checks,
//! the operator control state machine, and the strategy artifact rules.

pub mod text;
pub mod bucket;
pub mod market;
pub mod execution;
pub mod risk;
pub mod reconcile;
pub mod safeguards;
pub mod control;
pub mod tui;
pub mod cli;
pub mod strategy;
pub mod classify;
