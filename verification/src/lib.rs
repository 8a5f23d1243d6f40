//! A multi-campaign crowdfunding ledger: a platform-wide fundraising goal and
//! running total, per-contributor cumulative records, a bounded top-ten
//! leaderboard, per-campaign balances with proportional redistribution on
//! closure, and commission/reward-token accrual.
//!
//! This crate is the state-transition engine alone. The surrounding runtime
//! (the account store, currency and token transfer primitives, the clock and
//! the event sink) is a collaborator: each public transition takes the loaded
//! records and plain values read from that runtime, validates, mutates the
//! records in memory, and reports in its result which external actions the
//! caller still has to perform. A failed validation leaves every record
//! untouched, so a call is all-or-nothing.

pub mod errors;
pub mod events;
pub mod leaderboard;
pub mod ledger;
pub mod platform;
pub mod records;
