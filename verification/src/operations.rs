//! The transactions the core supports. Every operation validates all of its
//! arithmetic and balance checks before touching any state: it either
//! commits all of its effects or returns an error and changes nothing.
//!
//! Accrual and harvest move the vault balance, the owner's leaderboard entry
//! and the global value-locked counter by one and the same delta, in one
//! logically atomic step; the caller applies the reported deltas (and, for a
//! harvest, performs the charity transfer) through its storage and transfer
//! collaborators.

use vstd::prelude::*;

use crate::accrual::{
    apply_boost, calculate_base_reward, souls_for_reward, spec_base_reward,
    spec_base_reward_checked, spec_boosted_checked, spec_charity, spec_net, spec_numerator_fits,
    spec_souls_checked, spec_split_fits, spec_tax,
};
use crate::constants::{BASIS_POINTS, DEFAULT_REAPER_BOOST, REAPER_MAX_SUPPLY, SECONDS_PER_YEAR};
use crate::errors::VaultError;
use crate::state::{spec_dynamic_apy, BoostWitness, LeaderboardEntry, Vault, VaultConfig};

use vstd::arithmetic::div_mod::{lemma_div_denominator, lemma_div_is_ordered};

verus! {

/// What an accrual reports back: the reward credited to the vault and the
/// souls earned on it.
#[derive(Clone, Copy, Debug, PartialEq, Eq, Structural)]
pub struct CompoundResult {
    /// The reward credited to the vault balance.
    pub rewards: u64,
    /// The souls credited on the reward.
    pub souls_earned: u64,
}

/// What a midnight harvest reports back: the gross reward, its tax and
/// charity portions, and the net credit applied to the vault.
#[derive(Clone, Copy, Debug, PartialEq, Eq, Structural)]
pub struct MidnightHarvestResult {
    /// The gross reward before the split.
    pub rewards: u64,
    /// The soul-tax portion, tracked as a liability but not transferred by
    /// this core.
    pub soul_tax: u64,
    /// The charity portion; the caller's transfer collaborator moves it.
    pub charity_amount: u64,
    /// The net portion credited to the vault balance.
    pub net_reward: u64,
}

/// Set up the global configuration: no credentials issued, nothing locked,
/// the default boost multiplier, and the given base rate and soul
/// conversion.
pub fn initialize(authority: u64, reaper_mint: u64, base_apy: u16, souls_per_token: u64) -> (config:
    VaultConfig)
    ensures
        config == (VaultConfig {
            authority,
            reaper_mint,
            reaper_supply: 0,
            base_apy,
            reaper_boost: DEFAULT_REAPER_BOOST,
            souls_per_token,
            total_tvl: 0,
        }),
{
    VaultConfig {
        authority,
        reaper_mint,
        reaper_supply: 0,
        base_apy,
        reaper_boost: DEFAULT_REAPER_BOOST,
        souls_per_token,
        total_tvl: 0,
    }
}

/// The exact outcome of creating a vault: refused for a zero deposit, for a
/// deposit the owner's token balance cannot cover, and for a deposit that
/// would overflow the global ledger; otherwise the new vault and
/// leaderboard entry.
pub open spec fn spec_create_vault(
    config: VaultConfig,
    owner: u64,
    token_mint: u64,
    initial_deposit: u64,
    owner_token_balance: u64,
    now: i64,
) -> Result<(Vault, LeaderboardEntry), VaultError> {
    if initial_deposit == 0 {
        Err(VaultError::InvalidDepositAmount)
    } else if owner_token_balance < initial_deposit {
        Err(VaultError::InsufficientFunds)
    } else if config.total_tvl + initial_deposit > u64::MAX {
        Err(VaultError::ArithmeticOverflow)
    } else {
        Ok(
            (
                Vault {
                    owner,
                    token_mint,
                    balance: initial_deposit,
                    last_compound: now,
                    total_souls_harvested: 0,
                    is_active: true,
                },
                LeaderboardEntry { user: owner, tvl: initial_deposit, rank: 0 },
            ),
        )
    }
}

/// Create a vault with an initial deposit, together with the owner's
/// leaderboard entry, and add the deposit to the global value-locked
/// counter. `owner_token_balance` is the owner's source-side token balance,
/// which must cover the deposit.
pub fn create_vault(
    config: &mut VaultConfig,
    owner: u64,
    token_mint: u64,
    initial_deposit: u64,
    owner_token_balance: u64,
    current_time: i64,
) -> (result: Result<(Vault, LeaderboardEntry), VaultError>)
    ensures
        result == spec_create_vault(
            *old(config),
            owner,
            token_mint,
            initial_deposit,
            owner_token_balance,
            current_time,
        ),
        result is Err ==> *final(config) == *old(config),
        result is Ok ==> *final(config) == (VaultConfig {
            total_tvl: (old(config).total_tvl + initial_deposit) as u64,
            ..*old(config)
        }),
        result matches Ok((vault, entry)) ==> entry.tvl == vault.balance
            && final(config).total_tvl == old(config).total_tvl + vault.balance,
{
    if initial_deposit == 0 {
        return Err(VaultError::InvalidDepositAmount);
    }
    if owner_token_balance < initial_deposit {
        return Err(VaultError::InsufficientFunds);
    }
    let new_total = match config.total_tvl.checked_add(initial_deposit) {
        Some(t) => t,
        None => {
            return Err(VaultError::ArithmeticOverflow);
        },
    };
    config.total_tvl = new_total;
    let vault = Vault {
        owner,
        token_mint,
        balance: initial_deposit,
        last_compound: current_time,
        total_souls_harvested: 0,
        is_active: true,
    };
    let entry = LeaderboardEntry { user: owner, tvl: initial_deposit, rank: 0 };
    Ok((vault, entry))
}

/// The exact outcome of a deposit: refused for a zero amount and for an
/// amount that would overflow any of the three ledgers.
pub open spec fn spec_deposit(
    vault: Vault,
    entry: LeaderboardEntry,
    config: VaultConfig,
    amount: u64,
) -> Result<(), VaultError> {
    if amount == 0 {
        Err(VaultError::InvalidDepositAmount)
    } else if vault.balance + amount > u64::MAX || entry.tvl + amount > u64::MAX
        || config.total_tvl + amount > u64::MAX {
        Err(VaultError::ArithmeticOverflow)
    } else {
        Ok(())
    }
}

/// Deposit an amount into a vault: the vault balance, the owner's
/// leaderboard entry and the global value-locked counter all grow by the
/// amount, atomically, or nothing changes.
pub fn deposit(
    vault: &mut Vault,
    leaderboard_entry: &mut LeaderboardEntry,
    config: &mut VaultConfig,
    amount: u64,
) -> (result: Result<(), VaultError>)
    ensures
        result == spec_deposit(*old(vault), *old(leaderboard_entry), *old(config), amount),
        result is Err ==> *final(vault) == *old(vault) && *final(leaderboard_entry) == *old(
            leaderboard_entry,
        ) && *final(config) == *old(config),
        result is Ok ==> {
            &&& *final(vault) == (Vault {
                balance: (old(vault).balance + amount) as u64,
                ..*old(vault)
            })
            &&& *final(leaderboard_entry) == (LeaderboardEntry {
                tvl: (old(leaderboard_entry).tvl + amount) as u64,
                ..*old(leaderboard_entry)
            })
            &&& *final(config) == (VaultConfig {
                total_tvl: (old(config).total_tvl + amount) as u64,
                ..*old(config)
            })
        },
        final(vault).balance - old(vault).balance == final(leaderboard_entry).tvl - old(
            leaderboard_entry,
        ).tvl,
        final(vault).balance - old(vault).balance == final(config).total_tvl - old(
            config,
        ).total_tvl,
{
    if amount == 0 {
        return Err(VaultError::InvalidDepositAmount);
    }
    let new_balance = match vault.balance.checked_add(amount) {
        Some(b) => b,
        None => {
            return Err(VaultError::ArithmeticOverflow);
        },
    };
    let new_tvl = match leaderboard_entry.tvl.checked_add(amount) {
        Some(t) => t,
        None => {
            return Err(VaultError::ArithmeticOverflow);
        },
    };
    let new_total = match config.total_tvl.checked_add(amount) {
        Some(t) => t,
        None => {
            return Err(VaultError::ArithmeticOverflow);
        },
    };
    vault.balance = new_balance;
    leaderboard_entry.tvl = new_tvl;
    config.total_tvl = new_total;
    Ok(())
}

/// The exact outcome of a withdrawal: refused when the amount exceeds the
/// vault balance, and when either mirror ledger could not cover it.
pub open spec fn spec_withdraw(
    vault: Vault,
    entry: LeaderboardEntry,
    config: VaultConfig,
    amount: u64,
) -> Result<(), VaultError> {
    if amount > vault.balance {
        Err(VaultError::InsufficientBalance)
    } else if amount > entry.tvl || amount > config.total_tvl {
        Err(VaultError::ArithmeticOverflow)
    } else {
        Ok(())
    }
}

/// Withdraw an amount from a vault: the vault balance, the owner's
/// leaderboard entry and the global value-locked counter all shrink by the
/// amount, atomically, or nothing changes. Withdrawal is permitted even on
/// an inactive vault, as the recovery path.
pub fn withdraw(
    vault: &mut Vault,
    leaderboard_entry: &mut LeaderboardEntry,
    config: &mut VaultConfig,
    amount: u64,
) -> (result: Result<(), VaultError>)
    ensures
        result == spec_withdraw(*old(vault), *old(leaderboard_entry), *old(config), amount),
        result is Err ==> *final(vault) == *old(vault) && *final(leaderboard_entry) == *old(
            leaderboard_entry,
        ) && *final(config) == *old(config),
        result is Ok ==> {
            &&& *final(vault) == (Vault {
                balance: (old(vault).balance - amount) as u64,
                ..*old(vault)
            })
            &&& *final(leaderboard_entry) == (LeaderboardEntry {
                tvl: (old(leaderboard_entry).tvl - amount) as u64,
                ..*old(leaderboard_entry)
            })
            &&& *final(config) == (VaultConfig {
                total_tvl: (old(config).total_tvl - amount) as u64,
                ..*old(config)
            })
        },
        final(vault).balance - old(vault).balance == final(leaderboard_entry).tvl - old(
            leaderboard_entry,
        ).tvl,
        final(vault).balance - old(vault).balance == final(config).total_tvl - old(
            config,
        ).total_tvl,
{
    if amount > vault.balance {
        return Err(VaultError::InsufficientBalance);
    }
    if amount > leaderboard_entry.tvl || amount > config.total_tvl {
        return Err(VaultError::ArithmeticOverflow);
    }
    vault.balance = vault.balance - amount;
    leaderboard_entry.tvl = leaderboard_entry.tvl - amount;
    config.total_tvl = config.total_tvl - amount;
    Ok(())
}

/// The exact outcome of closing a vault: refused unless the balance is
/// zero.
pub open spec fn spec_close_vault(vault: Vault) -> Result<(), VaultError> {
    if vault.balance != 0 {
        Err(VaultError::NonZeroBalance)
    } else {
        Ok(())
    }
}

/// Close an empty vault: mark it inactive. A vault that still holds tokens
/// is refused and left unchanged.
pub fn close_vault(vault: &mut Vault) -> (result: Result<(), VaultError>)
    ensures
        result == spec_close_vault(*old(vault)),
        result is Err ==> *final(vault) == *old(vault),
        result is Ok ==> *final(vault) == (Vault { is_active: false, ..*old(vault) }),
{
    if vault.balance != 0 {
        return Err(VaultError::NonZeroBalance);
    }
    vault.is_active = false;
    Ok(())
}

/// The exact outcome of issuing a boost credential: refused for a caller
/// other than the authority, and once the supply cap is reached.
pub open spec fn spec_mint_reaper_pass(config: VaultConfig, caller: u64) -> Result<
    (),
    VaultError,
> {
    if caller != config.authority {
        Err(VaultError::Unauthorized)
    } else if config.reaper_supply >= REAPER_MAX_SUPPLY {
        Err(VaultError::SupplyExhausted)
    } else {
        Ok(())
    }
}

/// Issue one boost credential: only the authority may, and only below the
/// hard supply cap; the supply counter grows by one and never passes the
/// cap.
pub fn mint_reaper_pass(config: &mut VaultConfig, caller: u64) -> (result: Result<
    (),
    VaultError,
>)
    ensures
        result == spec_mint_reaper_pass(*old(config), caller),
        result is Err ==> *final(config) == *old(config),
        result is Ok ==> *final(config) == (VaultConfig {
            reaper_supply: (old(config).reaper_supply + 1) as u16,
            ..*old(config)
        }) && final(config).reaper_supply <= REAPER_MAX_SUPPLY,
{
    if caller != config.authority {
        return Err(VaultError::Unauthorized);
    }
    if config.reaper_supply >= REAPER_MAX_SUPPLY {
        return Err(VaultError::SupplyExhausted);
    }
    config.reaper_supply = config.reaper_supply + 1;
    Ok(())
}

/// Whether a boost witness grants the boost: the account holds a positive
/// credential balance.
pub open spec fn spec_holds_pass(witness: Option<BoostWitness>) -> bool {
    witness matches Some(w) && w.amount > 0
}

/// The exact outcome of an accrual: a no-op when no time has elapsed,
/// refused on an inactive vault, on a mismatched witness mint, and on any
/// arithmetic step that would leave the representable range; otherwise the
/// reward (boosted if the witness holds a credential) and the souls earned
/// on it.
pub open spec fn spec_compound(
    vault: Vault,
    entry: LeaderboardEntry,
    config: VaultConfig,
    now: i64,
    witness: Option<BoostWitness>,
    reaper_mint: u64,
) -> Result<CompoundResult, VaultError> {
    let apy = spec_dynamic_apy(config.total_tvl);
    let elapsed = now - vault.last_compound;
    if !vault.is_active {
        Err(VaultError::VaultInactive)
    } else if elapsed < i64::MIN || elapsed > i64::MAX {
        Err(VaultError::ArithmeticOverflow)
    } else if elapsed <= 0 {
        Ok(CompoundResult { rewards: 0, souls_earned: 0 })
    } else {
        match spec_base_reward_checked(vault.balance, apy, elapsed as i64) {
            Err(err) => Err(err),
            Ok(base) => {
                if witness matches Some(w) && w.mint != reaper_mint {
                    Err(VaultError::InvalidMint)
                } else {
                    let boosted = if spec_holds_pass(witness) {
                        spec_boosted_checked(base, config.reaper_boost)
                    } else {
                        Ok(base)
                    };
                    match boosted {
                        Err(err) => Err(err),
                        Ok(rewards) => match spec_souls_checked(rewards, config.souls_per_token) {
                            Err(err) => Err(err),
                            Ok(souls_earned) => {
                                if vault.balance + rewards > u64::MAX
                                    || vault.total_souls_harvested + souls_earned > u64::MAX
                                    || entry.tvl + rewards > u64::MAX || config.total_tvl + rewards
                                    > u64::MAX {
                                    Err(VaultError::ArithmeticOverflow)
                                } else {
                                    Ok(CompoundResult { rewards, souls_earned })
                                }
                            },
                        },
                    }
                }
            },
        }
    }
}

/// Accrue rewards on a vault: resolve the tiered rate, compute the reward
/// over the elapsed time, boost it if the witnessed account holds a
/// credential against `reaper_mint`, convert it to souls, and credit the
/// vault, the owner's leaderboard entry and the global counter by the same
/// delta — all, or, on any error, nothing. Elapsed time of zero or less is
/// a no-op that leaves every record, the accrual timestamp included,
/// unchanged.
pub fn compound(
    vault: &mut Vault,
    leaderboard_entry: &mut LeaderboardEntry,
    config: &mut VaultConfig,
    current_time: i64,
    owner_reaper_account: Option<BoostWitness>,
    reaper_mint: u64,
) -> (result: Result<CompoundResult, VaultError>)
    ensures
        result == spec_compound(
            *old(vault),
            *old(leaderboard_entry),
            *old(config),
            current_time,
            owner_reaper_account,
            reaper_mint,
        ),
        result is Err ==> *final(vault) == *old(vault) && *final(leaderboard_entry) == *old(
            leaderboard_entry,
        ) && *final(config) == *old(config),
        (result is Ok && current_time - old(vault).last_compound <= 0) ==> *final(vault) == *old(
            vault,
        ) && *final(leaderboard_entry) == *old(leaderboard_entry) && *final(config) == *old(
            config,
        ),
        result matches Ok(out) ==> current_time - old(vault).last_compound > 0 ==> {
            &&& *final(vault) == (Vault {
                balance: (old(vault).balance + out.rewards) as u64,
                last_compound: current_time,
                total_souls_harvested: (old(vault).total_souls_harvested
                    + out.souls_earned) as u64,
                ..*old(vault)
            })
            &&& *final(leaderboard_entry) == (LeaderboardEntry {
                tvl: (old(leaderboard_entry).tvl + out.rewards) as u64,
                ..*old(leaderboard_entry)
            })
            &&& *final(config) == (VaultConfig {
                total_tvl: (old(config).total_tvl + out.rewards) as u64,
                ..*old(config)
            })
        },
        result matches Ok(out) ==> final(vault).balance - old(vault).balance == out.rewards
            && final(vault).last_compound >= old(vault).last_compound,
        final(vault).balance - old(vault).balance == final(leaderboard_entry).tvl - old(
            leaderboard_entry,
        ).tvl,
        final(vault).balance - old(vault).balance == final(config).total_tvl - old(
            config,
        ).total_tvl,
{
    if !vault.is_active {
        return Err(VaultError::VaultInactive);
    }
    let elapsed = match current_time.checked_sub(vault.last_compound) {
        Some(e) => e,
        None => {
            return Err(VaultError::ArithmeticOverflow);
        },
    };
    if elapsed <= 0 {
        return Ok(CompoundResult { rewards: 0, souls_earned: 0 });
    }
    let apy = config.calculate_dynamic_apy();
    let base = match calculate_base_reward(vault.balance, apy, elapsed) {
        Ok(b) => b,
        Err(err) => {
            return Err(err);
        },
    };
    let holds_pass = match &owner_reaper_account {
        Some(witness) => {
            if witness.mint != reaper_mint {
                return Err(VaultError::InvalidMint);
            }
            witness.amount > 0
        },
        None => false,
    };
    let rewards = if holds_pass {
        match apply_boost(base, config.reaper_boost) {
            Ok(r) => r,
            Err(err) => {
                return Err(err);
            },
        }
    } else {
        base
    };
    let souls_earned = match souls_for_reward(rewards, config.souls_per_token) {
        Ok(s) => s,
        Err(err) => {
            return Err(err);
        },
    };
    let new_balance = match vault.balance.checked_add(rewards) {
        Some(b) => b,
        None => {
            return Err(VaultError::ArithmeticOverflow);
        },
    };
    let new_souls = match vault.total_souls_harvested.checked_add(souls_earned) {
        Some(s) => s,
        None => {
            return Err(VaultError::ArithmeticOverflow);
        },
    };
    let new_tvl = match leaderboard_entry.tvl.checked_add(rewards) {
        Some(t) => t,
        None => {
            return Err(VaultError::ArithmeticOverflow);
        },
    };
    let new_total = match config.total_tvl.checked_add(rewards) {
        Some(t) => t,
        None => {
            return Err(VaultError::ArithmeticOverflow);
        },
    };
    vault.balance = new_balance;
    vault.total_souls_harvested = new_souls;
    vault.last_compound = current_time;
    leaderboard_entry.tvl = new_tvl;
    config.total_tvl = new_total;
    Ok(CompoundResult { rewards, souls_earned })
}

/// The gross reward of a harvest, before the split, at the given snapshot:
/// the base reward, boosted when the witness holds a credential.
pub open spec fn spec_harvest_gross(
    vault: Vault,
    config: VaultConfig,
    elapsed: i64,
    witness: Option<BoostWitness>,
) -> int {
    let apy = spec_dynamic_apy(config.total_tvl);
    let base = spec_base_reward(vault.balance, apy, elapsed);
    if spec_holds_pass(witness) {
        (base * config.reaper_boost as int) / (BASIS_POINTS as int)
    } else {
        base
    }
}

/// The exact outcome of a midnight harvest: a no-op result of zeros when no
/// time has elapsed; refused on an inactive vault and on any arithmetic
/// step that would leave the representable range; otherwise the gross
/// reward, its split, and the net credit.
pub open spec fn spec_midnight_harvest(
    vault: Vault,
    entry: LeaderboardEntry,
    config: VaultConfig,
    now: i64,
    witness: Option<BoostWitness>,
) -> Result<MidnightHarvestResult, VaultError> {
    let apy = spec_dynamic_apy(config.total_tvl);
    let elapsed = now - vault.last_compound;
    if !vault.is_active {
        Err(VaultError::VaultInactive)
    } else if elapsed < i64::MIN || elapsed > i64::MAX {
        Err(VaultError::ArithmeticOverflow)
    } else if elapsed <= 0 {
        Ok(MidnightHarvestResult { rewards: 0, soul_tax: 0, charity_amount: 0, net_reward: 0 })
    } else if !spec_numerator_fits(vault.balance, apy, elapsed as i64) {
        Err(VaultError::ArithmeticOverflow)
    } else {
        let gross = spec_harvest_gross(vault, config, elapsed as i64, witness);
        if gross > u64::MAX {
            Err(VaultError::ArithmeticOverflow)
        } else {
            let rewards = gross as u64;
            if !spec_split_fits(rewards) {
                Err(VaultError::ArithmeticOverflow)
            } else {
                let soul_tax = spec_tax(rewards) as u64;
                let charity_amount = spec_charity(rewards) as u64;
                let net_reward = spec_net(rewards) as u64;
                match spec_souls_checked(rewards, config.souls_per_token) {
                    Err(err) => Err(err),
                    Ok(souls_earned) => {
                        if vault.balance + net_reward > u64::MAX || vault.total_souls_harvested
                            + souls_earned > u64::MAX || entry.tvl + net_reward > u64::MAX
                            || config.total_tvl + net_reward > u64::MAX {
                            Err(VaultError::ArithmeticOverflow)
                        } else {
                            Ok(MidnightHarvestResult { rewards, soul_tax, charity_amount, net_reward })
                        }
                    },
                }
            }
        }
    }
}

/// The souls a successful midnight harvest credits: earned on the gross
/// reward, before the split.
pub open spec fn spec_midnight_souls(
    vault: Vault,
    config: VaultConfig,
    now: i64,
    witness: Option<BoostWitness>,
) -> int {
    let elapsed = now - vault.last_compound;
    if elapsed <= 0 {
        0
    } else {
        spec_harvest_gross(vault, config, elapsed as i64, witness) * config.souls_per_token as int
    }
}

/// Harvest a vault: accrue the reward over the elapsed time (boosted when
/// the witnessed account holds a credential; the witness's mint is checked
/// by the caller beforehand), split it into tax, charity and net portions,
/// and credit the net portion to the vault, the owner's leaderboard entry
/// and the global counter by the same delta — all, or, on any error,
/// nothing. Souls are earned on the gross, un-taxed reward. The caller's
/// transfer collaborator moves the reported charity portion; the tax is
/// tracked in the report but not destroyed here. Elapsed time of zero or
/// less is a no-op that leaves every record unchanged.
pub fn midnight_harvest(
    vault: &mut Vault,
    leaderboard_entry: &mut LeaderboardEntry,
    config: &mut VaultConfig,
    current_time: i64,
    owner_reaper_account: Option<BoostWitness>,
) -> (result: Result<MidnightHarvestResult, VaultError>)
    ensures
        result == spec_midnight_harvest(
            *old(vault),
            *old(leaderboard_entry),
            *old(config),
            current_time,
            owner_reaper_account,
        ),
        result is Err ==> *final(vault) == *old(vault) && *final(leaderboard_entry) == *old(
            leaderboard_entry,
        ) && *final(config) == *old(config),
        (result is Ok && current_time - old(vault).last_compound <= 0) ==> *final(vault) == *old(
            vault,
        ) && *final(leaderboard_entry) == *old(leaderboard_entry) && *final(config) == *old(
            config,
        ),
        result matches Ok(out) ==> out.soul_tax + out.charity_amount + out.net_reward
            == out.rewards && final(vault).last_compound >= old(vault).last_compound,
        result matches Ok(out) ==> current_time - old(vault).last_compound > 0 ==> {
            &&& *final(vault) == (Vault {
                balance: (old(vault).balance + out.net_reward) as u64,
                last_compound: current_time,
                total_souls_harvested: (old(vault).total_souls_harvested + spec_midnight_souls(
                    *old(vault),
                    *old(config),
                    current_time,
                    owner_reaper_account,
                )) as u64,
                ..*old(vault)
            })
            &&& *final(leaderboard_entry) == (LeaderboardEntry {
                tvl: (old(leaderboard_entry).tvl + out.net_reward) as u64,
                ..*old(leaderboard_entry)
            })
            &&& *final(config) == (VaultConfig {
                total_tvl: (old(config).total_tvl + out.net_reward) as u64,
                ..*old(config)
            })
        },
        final(vault).balance - old(vault).balance == final(leaderboard_entry).tvl - old(
            leaderboard_entry,
        ).tvl,
        final(vault).balance - old(vault).balance == final(config).total_tvl - old(
            config,
        ).total_tvl,
{
    if !vault.is_active {
        return Err(VaultError::VaultInactive);
    }
    let elapsed = match current_time.checked_sub(vault.last_compound) {
        Some(e) => e,
        None => {
            return Err(VaultError::ArithmeticOverflow);
        },
    };
    if elapsed <= 0 {
        return Ok(
            MidnightHarvestResult { rewards: 0, soul_tax: 0, charity_amount: 0, net_reward: 0 },
        );
    }
    let apy = config.calculate_dynamic_apy();
    let balance_wide = vault.balance as u128;
    let rate_wide = apy as u128;
    let elapsed_wide = elapsed as u128;
    assert(balance_wide * rate_wide <= u128::MAX) by {
        vstd::arithmetic::mul::lemma_mul_upper_bound(
            balance_wide as int,
            u64::MAX as int,
            rate_wide as int,
            u16::MAX as int,
        );
    }
    let numerator = match (balance_wide * rate_wide).checked_mul(elapsed_wide) {
        Some(n) => n,
        None => {
            return Err(VaultError::ArithmeticOverflow);
        },
    };
    let per_year = numerator / (SECONDS_PER_YEAR as u128);
    let base = per_year / (BASIS_POINTS as u128);
    proof {
        lemma_div_denominator(numerator as int, SECONDS_PER_YEAR as int, BASIS_POINTS as int);
    }
    let gross_wide = if match &owner_reaper_account {
        Some(witness) => witness.amount > 0,
        None => false,
    } {
        proof {
            lemma_div_is_ordered(
                numerator as int,
                u128::MAX as int,
                SECONDS_PER_YEAR as int * BASIS_POINTS as int,
            );
            vstd::arithmetic::mul::lemma_mul_upper_bound(
                base as int,
                u128::MAX as int / (SECONDS_PER_YEAR as int * BASIS_POINTS as int),
                config.reaper_boost as int,
                u16::MAX as int,
            );
        }
        (base * (config.reaper_boost as u128)) / (BASIS_POINTS as u128)
    } else {
        base
    };
    if gross_wide > u64::MAX as u128 {
        return Err(VaultError::ArithmeticOverflow);
    }
    let rewards = gross_wide as u64;
    let split = match crate::accrual::split_harvest(rewards) {
        Ok(portions) => portions,
        Err(err) => {
            return Err(err);
        },
    };
    let (soul_tax, charity_amount, net_reward) = split;
    let souls_earned = match souls_for_reward(rewards, config.souls_per_token) {
        Ok(s) => s,
        Err(err) => {
            return Err(err);
        },
    };
    let new_balance = match vault.balance.checked_add(net_reward) {
        Some(b) => b,
        None => {
            return Err(VaultError::ArithmeticOverflow);
        },
    };
    let new_souls = match vault.total_souls_harvested.checked_add(souls_earned) {
        Some(s) => s,
        None => {
            return Err(VaultError::ArithmeticOverflow);
        },
    };
    let new_tvl = match leaderboard_entry.tvl.checked_add(net_reward) {
        Some(t) => t,
        None => {
            return Err(VaultError::ArithmeticOverflow);
        },
    };
    let new_total = match config.total_tvl.checked_add(net_reward) {
        Some(t) => t,
        None => {
            return Err(VaultError::ArithmeticOverflow);
        },
    };
    vault.balance = new_balance;
    vault.total_souls_harvested = new_souls;
    vault.last_compound = current_time;
    leaderboard_entry.tvl = new_tvl;
    config.total_tvl = new_total;
    Ok(MidnightHarvestResult { rewards, soul_tax, charity_amount, net_reward })
}

} // verus!
