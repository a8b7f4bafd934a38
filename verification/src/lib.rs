//! A small state-holding trading-bot backend: an activity flag, a strategy
//! configuration, a balance ledger, an append-only trade log, and a decision
//! function over a price history.
//!
//! Prices, thresholds and balances are fixed-point numbers with two decimal
//! places, stored as a signed count of hundredths (see [`fixed`]). The state
//! and its operations live in [`bot`]; their contracts are stated over the
//! spec-level model in [`model`], and the laws that relate the operations are
//! proved in [`laws`].

pub mod bot;
pub mod fixed;
pub mod laws;
pub mod model;
