//! The vault transactions on concrete values: deposits, withdrawals,
//! accrual, harvests, closing, and credential issue.

use soul_harvest_vault::errors::VaultError;
use soul_harvest_vault::operations::{
    close_vault, compound, create_vault, deposit, initialize, midnight_harvest, mint_reaper_pass,
    withdraw, CompoundResult, MidnightHarvestResult,
};
use soul_harvest_vault::state::{BoostWitness, LeaderboardEntry, Vault, VaultConfig};

const YEAR: i64 = 31_536_000;
const UNITS: u64 = 1_000_000_000;

fn fresh_vault(balance: u64) -> Vault {
    Vault {
        owner: 1,
        token_mint: 2,
        balance,
        last_compound: 0,
        total_souls_harvested: 0,
        is_active: true,
    }
}

fn fresh_entry(tvl: u64) -> LeaderboardEntry {
    LeaderboardEntry { user: 1, tvl, rank: 0 }
}

fn config_at_800_bps() -> VaultConfig {
    // 20,000 whole assets locked resolves to the 800 bps tier
    VaultConfig {
        authority: 7,
        reaper_mint: 9,
        reaper_supply: 0,
        base_apy: 1000,
        reaper_boost: 20_000,
        souls_per_token: 1,
        total_tvl: 20_000 * UNITS,
    }
}

#[test]
fn initialize_sets_defaults() {
    let config = initialize(7, 9, 1000, 3);
    assert_eq!(config.authority, 7);
    assert_eq!(config.reaper_mint, 9);
    assert_eq!(config.reaper_supply, 0);
    assert_eq!(config.base_apy, 1000);
    assert_eq!(config.reaper_boost, 20_000);
    assert_eq!(config.souls_per_token, 3);
    assert_eq!(config.total_tvl, 0);
}

#[test]
fn compound_one_year_no_boost() {
    let mut vault = fresh_vault(1_000_000);
    let mut entry = fresh_entry(1_000_000);
    let mut config = config_at_800_bps();
    let before_total = config.total_tvl;
    let outcome = compound(&mut vault, &mut entry, &mut config, YEAR, None, 9);
    assert_eq!(outcome, Ok(CompoundResult { rewards: 80_000, souls_earned: 80_000 }));
    assert_eq!(vault.balance, 1_080_000);
    assert_eq!(vault.total_souls_harvested, 80_000);
    assert_eq!(vault.last_compound, YEAR);
    assert_eq!(entry.tvl, 1_080_000);
    assert_eq!(config.total_tvl, before_total + 80_000);
}

#[test]
fn compound_one_year_with_boost() {
    let mut vault = fresh_vault(1_000_000);
    let mut entry = fresh_entry(1_000_000);
    let mut config = config_at_800_bps();
    let witness = BoostWitness { mint: 9, amount: 1 };
    let outcome = compound(&mut vault, &mut entry, &mut config, YEAR, Some(witness), 9);
    assert_eq!(outcome, Ok(CompoundResult { rewards: 160_000, souls_earned: 160_000 }));
    assert_eq!(vault.balance, 1_160_000);
}

#[test]
fn compound_witness_with_empty_account_grants_no_boost() {
    let mut vault = fresh_vault(1_000_000);
    let mut entry = fresh_entry(1_000_000);
    let mut config = config_at_800_bps();
    let witness = BoostWitness { mint: 9, amount: 0 };
    let outcome = compound(&mut vault, &mut entry, &mut config, YEAR, Some(witness), 9);
    assert_eq!(outcome, Ok(CompoundResult { rewards: 80_000, souls_earned: 80_000 }));
}

#[test]
fn compound_refuses_mismatched_witness_mint() {
    let mut vault = fresh_vault(1_000_000);
    let mut entry = fresh_entry(1_000_000);
    let mut config = config_at_800_bps();
    let witness = BoostWitness { mint: 8, amount: 1 };
    let outcome = compound(&mut vault, &mut entry, &mut config, YEAR, Some(witness), 9);
    assert_eq!(outcome, Err(VaultError::InvalidMint));
    assert_eq!(vault, fresh_vault(1_000_000));
    assert_eq!(entry.tvl, 1_000_000);
}

#[test]
fn compound_zero_elapsed_is_a_no_op() {
    let mut vault = fresh_vault(1_000_000);
    vault.last_compound = 5_000;
    let saved = vault;
    let mut entry = fresh_entry(1_000_000);
    let mut config = config_at_800_bps();
    let saved_config = config;
    let outcome = compound(&mut vault, &mut entry, &mut config, 5_000, None, 9);
    assert_eq!(outcome, Ok(CompoundResult { rewards: 0, souls_earned: 0 }));
    assert_eq!(vault, saved);
    assert_eq!(vault.last_compound, 5_000);
    assert_eq!(config, saved_config);
}

#[test]
fn compound_negative_elapsed_is_a_no_op() {
    let mut vault = fresh_vault(1_000_000);
    vault.last_compound = 5_000;
    let saved = vault;
    let mut entry = fresh_entry(1_000_000);
    let mut config = config_at_800_bps();
    let outcome = compound(&mut vault, &mut entry, &mut config, 4_000, None, 9);
    assert_eq!(outcome, Ok(CompoundResult { rewards: 0, souls_earned: 0 }));
    assert_eq!(vault, saved);
}

#[test]
fn compound_refuses_inactive_vault() {
    let mut vault = fresh_vault(1_000_000);
    vault.is_active = false;
    let saved = vault;
    let mut entry = fresh_entry(1_000_000);
    let mut config = config_at_800_bps();
    let outcome = compound(&mut vault, &mut entry, &mut config, YEAR, None, 9);
    assert_eq!(outcome, Err(VaultError::VaultInactive));
    assert_eq!(vault, saved);
}

#[test]
fn compound_refuses_unrepresentable_reward() {
    // a huge balance over a huge span overflows the narrowing back to 64 bits
    let mut vault = fresh_vault(u64::MAX);
    let mut entry = fresh_entry(u64::MAX);
    let mut config = config_at_800_bps();
    let outcome = compound(&mut vault, &mut entry, &mut config, 1 << 40, None, 9);
    assert_eq!(outcome, Err(VaultError::ArithmeticOverflow));
    assert_eq!(vault.balance, u64::MAX);
}

#[test]
fn compound_refuses_unrepresentable_elapsed_time() {
    // the span from before the epoch to the end of time does not fit i64
    let mut vault = fresh_vault(1);
    vault.last_compound = -1;
    let saved = vault;
    let mut entry = fresh_entry(1);
    let mut config = config_at_800_bps();
    let outcome = compound(&mut vault, &mut entry, &mut config, i64::MAX, None, 9);
    assert_eq!(outcome, Err(VaultError::ArithmeticOverflow));
    assert_eq!(vault, saved);
}

#[test]
fn compound_souls_follow_conversion_rate() {
    let mut vault = fresh_vault(1_000_000);
    let mut entry = fresh_entry(1_000_000);
    let mut config = config_at_800_bps();
    config.souls_per_token = 5;
    let outcome = compound(&mut vault, &mut entry, &mut config, YEAR, None, 9);
    assert_eq!(outcome, Ok(CompoundResult { rewards: 80_000, souls_earned: 400_000 }));
    assert_eq!(vault.total_souls_harvested, 400_000);
}

#[test]
fn midnight_harvest_one_year_with_boost() {
    let mut vault = fresh_vault(1_000_000);
    let mut entry = fresh_entry(1_000_000);
    let mut config = config_at_800_bps();
    let before_total = config.total_tvl;
    let witness = BoostWitness { mint: 9, amount: 1 };
    let outcome = midnight_harvest(&mut vault, &mut entry, &mut config, YEAR, Some(witness));
    assert_eq!(
        outcome,
        Ok(MidnightHarvestResult {
            rewards: 160_000,
            soul_tax: 20_800,
            charity_amount: 1_600,
            net_reward: 137_600,
        })
    );
    // the net portion is credited; souls are earned on the gross reward
    assert_eq!(vault.balance, 1_137_600);
    assert_eq!(vault.total_souls_harvested, 160_000);
    assert_eq!(vault.last_compound, YEAR);
    assert_eq!(entry.tvl, 1_137_600);
    assert_eq!(config.total_tvl, before_total + 137_600);
}

#[test]
fn midnight_harvest_without_credential() {
    let mut vault = fresh_vault(1_000_000);
    let mut entry = fresh_entry(1_000_000);
    let mut config = config_at_800_bps();
    let outcome = midnight_harvest(&mut vault, &mut entry, &mut config, YEAR, None);
    assert_eq!(
        outcome,
        Ok(MidnightHarvestResult {
            rewards: 80_000,
            soul_tax: 10_400,
            charity_amount: 800,
            net_reward: 68_800,
        })
    );
    assert_eq!(vault.balance, 1_068_800);
}

#[test]
fn midnight_harvest_zero_elapsed_is_a_no_op() {
    let mut vault = fresh_vault(1_000_000);
    vault.last_compound = 9_000;
    let saved = vault;
    let mut entry = fresh_entry(1_000_000);
    let mut config = config_at_800_bps();
    let outcome = midnight_harvest(&mut vault, &mut entry, &mut config, 9_000, None);
    assert_eq!(
        outcome,
        Ok(MidnightHarvestResult { rewards: 0, soul_tax: 0, charity_amount: 0, net_reward: 0 })
    );
    assert_eq!(vault, saved);
}

#[test]
fn midnight_harvest_refuses_inactive_vault() {
    let mut vault = fresh_vault(1_000_000);
    vault.is_active = false;
    let mut entry = fresh_entry(1_000_000);
    let mut config = config_at_800_bps();
    let outcome = midnight_harvest(&mut vault, &mut entry, &mut config, YEAR, None);
    assert_eq!(outcome, Err(VaultError::VaultInactive));
}

#[test]
fn create_vault_deposits_and_registers() {
    let mut config = config_at_800_bps();
    let before_total = config.total_tvl;
    let (vault, entry) = create_vault(&mut config, 42, 2, 1_000, 5_000, 777).unwrap();
    assert_eq!(vault.owner, 42);
    assert_eq!(vault.token_mint, 2);
    assert_eq!(vault.balance, 1_000);
    assert_eq!(vault.last_compound, 777);
    assert_eq!(vault.total_souls_harvested, 0);
    assert!(vault.is_active);
    assert_eq!(entry.user, 42);
    assert_eq!(entry.tvl, 1_000);
    assert_eq!(entry.rank, 0);
    assert_eq!(config.total_tvl, before_total + 1_000);
}

#[test]
fn create_vault_refuses_zero_deposit() {
    let mut config = config_at_800_bps();
    let saved = config;
    let outcome = create_vault(&mut config, 42, 2, 0, 5_000, 777);
    assert_eq!(outcome, Err(VaultError::InvalidDepositAmount));
    assert_eq!(config, saved);
}

#[test]
fn create_vault_refuses_uncovered_deposit() {
    let mut config = config_at_800_bps();
    let outcome = create_vault(&mut config, 42, 2, 100, 50, 777);
    assert_eq!(outcome, Err(VaultError::InsufficientFunds));
}

#[test]
fn deposit_grows_all_three_ledgers() {
    let mut vault = fresh_vault(500);
    let mut entry = fresh_entry(500);
    let mut config = config_at_800_bps();
    let before_total = config.total_tvl;
    assert_eq!(deposit(&mut vault, &mut entry, &mut config, 250), Ok(()));
    assert_eq!(vault.balance, 750);
    assert_eq!(entry.tvl, 750);
    assert_eq!(config.total_tvl, before_total + 250);
}

#[test]
fn deposit_refuses_zero_amount() {
    let mut vault = fresh_vault(500);
    let mut entry = fresh_entry(500);
    let mut config = config_at_800_bps();
    assert_eq!(
        deposit(&mut vault, &mut entry, &mut config, 0),
        Err(VaultError::InvalidDepositAmount)
    );
    assert_eq!(vault.balance, 500);
}

#[test]
fn deposit_refuses_overflowing_amount() {
    let mut vault = fresh_vault(u64::MAX);
    let mut entry = fresh_entry(u64::MAX);
    let mut config = config_at_800_bps();
    assert_eq!(
        deposit(&mut vault, &mut entry, &mut config, 1),
        Err(VaultError::ArithmeticOverflow)
    );
    assert_eq!(vault.balance, u64::MAX);
}

#[test]
fn withdraw_shrinks_all_three_ledgers() {
    let mut vault = fresh_vault(500_000);
    let mut entry = fresh_entry(500_000);
    let mut config = config_at_800_bps();
    let before_total = config.total_tvl;
    assert_eq!(withdraw(&mut vault, &mut entry, &mut config, 200_000), Ok(()));
    assert_eq!(vault.balance, 300_000);
    assert_eq!(entry.tvl, 300_000);
    assert_eq!(config.total_tvl, before_total - 200_000);
}

#[test]
fn withdraw_refuses_more_than_the_balance() {
    let mut vault = fresh_vault(500_000);
    let saved = vault;
    let mut entry = fresh_entry(500_000);
    let mut config = config_at_800_bps();
    let saved_config = config;
    let outcome = withdraw(&mut vault, &mut entry, &mut config, 600_000);
    assert_eq!(outcome, Err(VaultError::InsufficientBalance));
    assert_eq!(vault, saved);
    assert_eq!(entry.tvl, 500_000);
    assert_eq!(config, saved_config);
}

#[test]
fn withdraw_is_permitted_on_an_inactive_vault() {
    let mut vault = fresh_vault(500);
    vault.is_active = false;
    let mut entry = fresh_entry(500);
    let mut config = config_at_800_bps();
    assert_eq!(withdraw(&mut vault, &mut entry, &mut config, 500), Ok(()));
    assert_eq!(vault.balance, 0);
}

#[test]
fn conservation_through_a_sequence_of_operations() {
    // the global counter always equals this vault's balance plus the rest,
    // and the leaderboard entry always mirrors the balance
    let mut config = config_at_800_bps();
    let rest = config.total_tvl;
    let (mut vault, mut entry) = create_vault(&mut config, 42, 2, 1_000_000, u64::MAX, 0).unwrap();
    assert_eq!(entry.tvl, vault.balance);
    assert_eq!(config.total_tvl, vault.balance + rest);
    assert!(deposit(&mut vault, &mut entry, &mut config, 123).is_ok());
    assert_eq!(entry.tvl, vault.balance);
    assert_eq!(config.total_tvl, vault.balance + rest);
    assert!(compound(&mut vault, &mut entry, &mut config, YEAR, None, 9).is_ok());
    assert_eq!(entry.tvl, vault.balance);
    assert_eq!(config.total_tvl, vault.balance + rest);
    assert!(midnight_harvest(&mut vault, &mut entry, &mut config, 2 * YEAR, None).is_ok());
    assert_eq!(entry.tvl, vault.balance);
    assert_eq!(config.total_tvl, vault.balance + rest);
    assert!(withdraw(&mut vault, &mut entry, &mut config, 4_321).is_ok());
    assert_eq!(entry.tvl, vault.balance);
    assert_eq!(config.total_tvl, vault.balance + rest);
    // a refused operation moves nothing
    assert!(withdraw(&mut vault, &mut entry, &mut config, u64::MAX).is_err());
    assert_eq!(entry.tvl, vault.balance);
    assert_eq!(config.total_tvl, vault.balance + rest);
}

#[test]
fn close_vault_requires_zero_balance() {
    let mut vault = fresh_vault(500);
    assert_eq!(close_vault(&mut vault), Err(VaultError::NonZeroBalance));
    assert!(vault.is_active);
    vault.balance = 0;
    assert_eq!(close_vault(&mut vault), Ok(()));
    assert!(!vault.is_active);
}

#[test]
fn closed_vault_refuses_accrual() {
    let mut vault = fresh_vault(0);
    assert_eq!(close_vault(&mut vault), Ok(()));
    let mut entry = fresh_entry(0);
    let mut config = config_at_800_bps();
    assert_eq!(
        compound(&mut vault, &mut entry, &mut config, YEAR, None, 9),
        Err(VaultError::VaultInactive)
    );
}

#[test]
fn mint_reaper_pass_counts_up_to_the_cap() {
    let mut config = config_at_800_bps();
    assert_eq!(mint_reaper_pass(&mut config, 7), Ok(()));
    assert_eq!(config.reaper_supply, 1);
    config.reaper_supply = 1665;
    assert_eq!(mint_reaper_pass(&mut config, 7), Ok(()));
    assert_eq!(config.reaper_supply, 1666);
    assert_eq!(mint_reaper_pass(&mut config, 7), Err(VaultError::SupplyExhausted));
    assert_eq!(config.reaper_supply, 1666);
}

#[test]
fn mint_reaper_pass_refuses_non_authority() {
    let mut config = config_at_800_bps();
    assert_eq!(mint_reaper_pass(&mut config, 8), Err(VaultError::Unauthorized));
    assert_eq!(config.reaper_supply, 0);
}
