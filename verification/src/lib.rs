//! Accounting and risk-valuation core of a leveraged yield-farming vault.
//!
//! The vault accepts deposits of a primary asset, borrows a secondary asset
//! from a lending market, provides both to an AMM pair, and stakes the
//! resulting LP tokens with a staking generator. This crate holds the
//! verified core: the unit-accounting ledger that tracks each depositor's
//! proportional claim, the manipulation-resistant LP-token valuation, the
//! position-health computation, and the adapter types that describe the
//! instructions and responses exchanged with the external protocols. All
//! transport (storage access, smart queries, message serialization) lives
//! outside this crate, which works on plain values only.

pub mod adapters;
pub mod addr;
pub mod asset;
pub mod config;
pub mod error;
pub mod health;
pub mod ledger;
pub mod pool;
pub mod queries;
pub mod red_bank;
pub mod state;
pub mod wide;
pub mod wire;
