//! Tipz: a creator tipping ledger.
//!
//! The crate holds the contract state of the Tipz tipping platform as plain
//! values (`storage::Tipz`) together with the rules that read and change it:
//! input validation, profile management, tipping, withdrawals with fees,
//! refunds, rate limiting and multi-period leaderboards.
#![allow(unused_imports)]

pub mod errors;
pub mod types;
pub mod table;
pub mod bytes;
pub mod validation;
pub mod fees;
pub mod admin;
pub mod leaderboard;
pub mod tips;
pub mod refund;
pub mod profile;
pub mod streaks;
pub mod storage;
