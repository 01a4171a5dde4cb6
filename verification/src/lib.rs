//! Soul Harvest Vault: the reward-accrual and gamification core of a
//! token-staking vault.
//!
//! The library computes time-based yield at a rate tiered by total value
//! locked, applies an optional boost multiplier, splits harvested yield into
//! tax, charity and net portions, keeps three correlated balance ledgers in
//! lockstep, drives a bitfield-based achievement and rank progression, and
//! ranks vault owners by value locked.
//!
//! Everything here works on plain values. The surrounding runtime (account
//! storage, token transfers, the clock, authorization) supplies snapshots and
//! applies the deltas this core produces.

pub mod accrual;
pub mod achievements;
pub mod check_achievements;
pub mod conservation;
pub mod constants;
pub mod errors;
pub mod leaderboard;
pub mod operations;
pub mod rate_limiter;
pub mod state;
