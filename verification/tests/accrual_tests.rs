//! The tier resolver, the accrual calculator and the harvest splitter on
//! concrete values.

use soul_harvest_vault::accrual::{
    apply_boost, calculate_base_reward, souls_for_reward, split_harvest,
};
use soul_harvest_vault::errors::VaultError;
use soul_harvest_vault::state::VaultConfig;

fn config_with_tvl(total_tvl: u64) -> VaultConfig {
    VaultConfig {
        authority: 7,
        reaper_mint: 9,
        reaper_supply: 0,
        base_apy: 1000,
        reaper_boost: 20_000,
        souls_per_token: 1,
        total_tvl,
    }
}

const UNITS: u64 = 1_000_000_000;

#[test]
fn tier_resolver_thresholds() {
    assert_eq!(config_with_tvl(0).calculate_dynamic_apy(), 500);
    assert_eq!(config_with_tvl(9_999 * UNITS).calculate_dynamic_apy(), 500);
    assert_eq!(config_with_tvl(10_000 * UNITS - 1).calculate_dynamic_apy(), 500);
    assert_eq!(config_with_tvl(10_000 * UNITS).calculate_dynamic_apy(), 800);
    assert_eq!(config_with_tvl(49_999 * UNITS).calculate_dynamic_apy(), 800);
    assert_eq!(config_with_tvl(50_000 * UNITS).calculate_dynamic_apy(), 1200);
    assert_eq!(config_with_tvl(99_999 * UNITS).calculate_dynamic_apy(), 1200);
    assert_eq!(config_with_tvl(100_000 * UNITS).calculate_dynamic_apy(), 1500);
    assert_eq!(config_with_tvl(u64::MAX).calculate_dynamic_apy(), 1500);
}

#[test]
fn tier_resolver_is_idempotent() {
    let config = config_with_tvl(10_000 * UNITS);
    let first = config.calculate_dynamic_apy();
    let second = config.calculate_dynamic_apy();
    assert_eq!(first, second);
}

#[test]
fn base_reward_one_year_no_boost() {
    // balance 1,000,000 at 800 bps over one year is exactly 80,000
    let reward = calculate_base_reward(1_000_000, 800, 31_536_000).unwrap();
    assert_eq!(reward, 80_000);
}

#[test]
fn base_reward_rounds_down() {
    // one second of 1,000,000 at 800 bps: floor(800,000,000 / 315,360,000,000) == 0
    assert_eq!(calculate_base_reward(1_000_000, 800, 1).unwrap(), 0);
    // one day: floor(800,000,000 * 86,400 / 315,360,000,000) == 219
    assert_eq!(calculate_base_reward(1_000_000, 800, 86_400).unwrap(), 219);
}

#[test]
fn base_reward_monotonic_samples() {
    let low = calculate_base_reward(1_000_000, 800, 86_400).unwrap();
    assert!(calculate_base_reward(2_000_000, 800, 86_400).unwrap() >= low);
    assert!(calculate_base_reward(1_000_000, 1500, 86_400).unwrap() >= low);
    assert!(calculate_base_reward(1_000_000, 800, 172_800).unwrap() >= low);
}

#[test]
fn base_reward_refuses_unrepresentable_product() {
    // u64::MAX * 65535 * i64::MAX does not fit 128 bits
    assert_eq!(
        calculate_base_reward(u64::MAX, u16::MAX, i64::MAX),
        Err(VaultError::ArithmeticOverflow)
    );
}

#[test]
fn boost_doubles_at_twenty_thousand_bps() {
    assert_eq!(apply_boost(80_000, 20_000).unwrap(), 160_000);
    assert_eq!(apply_boost(0, 20_000).unwrap(), 0);
    // 1.0x boost changes nothing
    assert_eq!(apply_boost(80_000, 10_000).unwrap(), 80_000);
    // rounding: 3 * 15,000 / 10,000 == 4.5 floors to 4
    assert_eq!(apply_boost(3, 15_000).unwrap(), 4);
}

#[test]
fn boost_refuses_unrepresentable_result() {
    assert_eq!(apply_boost(u64::MAX, 20_000), Err(VaultError::ArithmeticOverflow));
}

#[test]
fn souls_follow_conversion_rate() {
    assert_eq!(souls_for_reward(80_000, 1).unwrap(), 80_000);
    assert_eq!(souls_for_reward(80_000, 3).unwrap(), 240_000);
    assert_eq!(souls_for_reward(0, 1_000).unwrap(), 0);
    assert_eq!(souls_for_reward(u64::MAX, 2), Err(VaultError::ArithmeticOverflow));
}

#[test]
fn split_of_concrete_reward() {
    // 160,000 splits into 13% tax, 1% charity and the net remainder
    let (tax, charity, net) = split_harvest(160_000).unwrap();
    assert_eq!(tax, 20_800);
    assert_eq!(charity, 1_600);
    assert_eq!(net, 137_600);
    assert_eq!(tax + charity + net, 160_000);
}

#[test]
fn split_conserves_value_exactly() {
    for reward in [0u64, 1, 7, 99, 10_000, 10_001, 123_456_789, 14_184_932_345_678] {
        let (tax, charity, net) = split_harvest(reward).unwrap();
        assert_eq!(tax + charity + net, reward);
        assert_eq!(tax, reward * 1_300 / 10_000);
        assert_eq!(charity, reward * 100 / 10_000);
    }
}

#[test]
fn split_portions_come_from_the_gross_reward() {
    // tax and charity are computed independently from the gross reward, not
    // from a shrinking remainder: 9,999 yields tax 1,299 and charity 99
    let (tax, charity, net) = split_harvest(9_999).unwrap();
    assert_eq!(tax, 1_299);
    assert_eq!(charity, 99);
    assert_eq!(net, 9_999 - 1_299 - 99);
}

#[test]
fn split_refuses_unrepresentable_tax_product() {
    assert_eq!(split_harvest(u64::MAX), Err(VaultError::ArithmeticOverflow));
    // the largest reward whose tax product still fits 64 bits
    let largest_fitting = u64::MAX / 1_300;
    assert!(split_harvest(largest_fitting).is_ok());
    assert_eq!(split_harvest(largest_fitting + 1), Err(VaultError::ArithmeticOverflow));
}

#[test]
fn error_messages() {
    assert_eq!(VaultError::InsufficientFunds.message(), "Insufficient funds for operation");
    assert_eq!(VaultError::InsufficientBalance.message(), "Insufficient balance in vault");
    assert_eq!(VaultError::NonZeroBalance.message(), "Vault balance must be zero to close");
    assert_eq!(VaultError::VaultInactive.message(), "Vault is not active");
    assert_eq!(VaultError::SupplyExhausted.message(), "Reaper Pass supply exhausted");
    assert_eq!(
        VaultError::Unauthorized.message(),
        "Unauthorized: only authority can perform this action"
    );
    assert_eq!(VaultError::InvalidMint.message(), "Invalid token mint");
    assert_eq!(VaultError::ArithmeticOverflow.message(), "Arithmetic overflow");
    assert_eq!(VaultError::InvalidDepositAmount.message(), "Invalid deposit amount");
}
