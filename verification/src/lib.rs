//! A two-asset liquidity pool: reserve bookkeeping, share issuance on deposit
//! and proportional redemption on withdrawal.
//!
//! The pool never moves funds itself. Every operation takes the pool's state
//! and what the share ledger currently reports, and returns the ordered list of
//! instructions that the host has to carry out.

pub mod contract;
pub mod error;
pub mod math;
pub mod msg;
pub mod settlement;
pub mod state;
pub mod theorems;
