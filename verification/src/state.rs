//! The persistent records the core operates on: per-owner vaults, the global
//! configuration, and per-owner leaderboard entries.
//!
//! Identities (owners, mints, authorities) are opaque to the core: it only
//! ever compares them for equality, so they appear here as plain `u64`
//! handles chosen by the surrounding storage layer.

use vstd::prelude::*;

use crate::constants::UNITS_PER_WHOLE_ASSET;

verus! {

/// One owner's staking vault.
#[derive(Clone, Copy, Debug, PartialEq, Eq, Structural)]
pub struct Vault {
    /// Identity of the vault's owner.
    pub owner: u64,
    /// Identity of the staked token mint.
    pub token_mint: u64,
    /// Current token balance held by the vault.
    pub balance: u64,
    /// Epoch seconds of the last accrual; never decreases.
    pub last_compound: i64,
    /// Cumulative souls harvested by this vault.
    pub total_souls_harvested: u64,
    /// Whether the vault is active; withdrawal is allowed even when it is
    /// not, accrual is not.
    pub is_active: bool,
}

/// The global configuration and the global value-locked ledger.
#[derive(Clone, Copy, Debug, PartialEq, Eq, Structural)]
pub struct VaultConfig {
    /// Identity of the authority allowed to issue boost credentials.
    pub authority: u64,
    /// Identity of the boost-credential mint.
    pub reaper_mint: u64,
    /// Number of boost credentials issued so far; at most
    /// [`crate::constants::REAPER_MAX_SUPPLY`].
    pub reaper_supply: u16,
    /// Base annual yield in basis points.
    pub base_apy: u16,
    /// Boost multiplier for credential holders, in basis points.
    pub reaper_boost: u16,
    /// Souls credited per token of reward.
    pub souls_per_token: u64,
    /// Total value locked across all vaults; equals the sum of all vault
    /// balances at every settled point.
    pub total_tvl: u64,
}

/// One owner's leaderboard entry; `tvl` mirrors the owner's vault balance,
/// moving by the same delta in the same operation.
#[derive(Clone, Copy, Debug, PartialEq, Eq, Structural)]
pub struct LeaderboardEntry {
    /// Identity of the owner.
    pub user: u64,
    /// The owner's value locked.
    pub tvl: u64,
    /// Rank as of the last ranking pass; assigned only by
    /// [`crate::leaderboard::query_leaderboard`], not authoritative between
    /// passes.
    pub rank: u32,
}

/// A snapshot of a token account held against the boost-credential mint:
/// the witness by which a caller shows that an owner holds the credential.
#[derive(Clone, Copy, Debug, PartialEq, Eq, Structural)]
pub struct BoostWitness {
    /// Identity of the mint the witnessed account belongs to.
    pub mint: u64,
    /// Balance of the witnessed account; any positive amount grants the
    /// boost.
    pub amount: u64,
}

/// The annual yield rate, in basis points, owed at a given aggregate value
/// locked (taken in smallest units): fixed thresholds on the whole-asset
/// value, highest threshold wins.
pub open spec fn spec_dynamic_apy(total_tvl: u64) -> u16 {
    let whole_assets = total_tvl / UNITS_PER_WHOLE_ASSET;
    if whole_assets >= 100_000 {
        1500
    } else if whole_assets >= 50_000 {
        1200
    } else if whole_assets >= 10_000 {
        800
    } else {
        500
    }
}

impl VaultConfig {
    /// Resolve the annual yield rate owed at the current total value locked.
    /// Pure and side-effect free.
    pub fn calculate_dynamic_apy(&self) -> (apy: u16)
        ensures
            apy == spec_dynamic_apy(self.total_tvl),
    {
        let whole_assets = self.total_tvl / UNITS_PER_WHOLE_ASSET;
        if whole_assets >= 100_000 {
            1500
        } else if whole_assets >= 50_000 {
            1200
        } else if whole_assets >= 10_000 {
            800
        } else {
            500
        }
    }
}

} // verus!
