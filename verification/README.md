# pmkt

Decision logic of a trading assistant for five-minute BTC up/down prediction
markets, written in Verus and proved against its contracts.

## Layout

- `src/` — the verified library
  - `text.rs` — decimal rendering of integers and amounts in hundredths, string list membership
  - `bucket.rs` — time buckets, price bins, volatility regimes, price zones, the bucket key and its string form (proved injective)
  - `market.rs` — market ids, outcomes, sides, participation, trading modes and bot states, with the labels the store writes and the parsers that read them back
  - `execution.rs` — order states
  - `risk.rs` — the live risk state and the kill switch
  - `safeguards.rs` — the pre-trade safety checks
  - `reconcile.rs` — local reconciliation
  - `control.rs` — the operator control state: mode, bot state, risk state, bounded event log
  - `tui.rs` — dashboard tabs, key bindings as a state transition, label truncation
  - `cli.rs` — command-line flag lookup
  - `strategy.rs` — artifact list classification, the gating steps of live scoring, whitelist/blacklist partition, backtest counters, grouping of records by bucket
  - `classify.rs` — bucket classification from out-of-sample statistics
- `tests/` — tests of the library
- `app/` — the programs: terminal dashboard, analysis commands, SQLite store,
  CSV loading, and everything that computes with floating-point prices,
  sizes and P&L (probabilities, edges, statistics, price zones and bins).
