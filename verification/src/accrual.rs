//! The accrual calculator and the harvest splitter.
//!
//! Rewards accrue as `floor(balance * rate_bps * elapsed / (seconds_per_year
//! * 10_000))`, computed at 128-bit width so the full product never wraps; a
//! result that cannot be narrowed back to 64 bits is refused rather than
//! truncated. A harvested reward is split into a tax, a charity donation and
//! a net credit, each portion computed independently from the gross reward.

use vstd::prelude::*;

use vstd::arithmetic::div_mod::{lemma_div_is_ordered, lemma_fundamental_div_mod};
use vstd::arithmetic::mul::{lemma_mul_inequality, lemma_mul_upper_bound};

use crate::constants::{BASIS_POINTS, CHARITY_BPS, SECONDS_PER_YEAR, SOUL_TAX_BPS};
use crate::errors::VaultError;

verus! {

/// Denominator of the reward formula: one year of seconds, scaled by the
/// basis-point divisor.
pub open spec fn reward_denominator() -> int {
    SECONDS_PER_YEAR as int * BASIS_POINTS as int
}

/// The gross reward owed on `balance` at an annual rate of `rate_bps` basis
/// points over `elapsed` seconds, rounded down.
pub open spec fn spec_base_reward(balance: u64, rate_bps: u16, elapsed: i64) -> int {
    (balance as int * rate_bps as int * elapsed as int) / reward_denominator()
}

/// Whether the full reward-formula product fits the 128-bit intermediate
/// width.
pub open spec fn spec_numerator_fits(balance: u64, rate_bps: u16, elapsed: i64) -> bool {
    balance as int * rate_bps as int * elapsed as int <= u128::MAX as int
}

/// The exact outcome of the base-reward calculation: the formula value, or
/// `ArithmeticOverflow` where the product would wrap or the result cannot be
/// narrowed to 64 bits.
pub open spec fn spec_base_reward_checked(balance: u64, rate_bps: u16, elapsed: i64) -> Result<
    u64,
    VaultError,
>
    recommends
        elapsed > 0,
{
    if !spec_numerator_fits(balance, rate_bps, elapsed) {
        Err(VaultError::ArithmeticOverflow)
    } else if spec_base_reward(balance, rate_bps, elapsed) > u64::MAX as int {
        Err(VaultError::ArithmeticOverflow)
    } else {
        Ok(spec_base_reward(balance, rate_bps, elapsed) as u64)
    }
}

/// A boosted reward: the base reward scaled by a basis-point multiplier,
/// rounded down.
pub open spec fn spec_boosted_reward(base_reward: u64, boost_bps: u16) -> int {
    (base_reward as int * boost_bps as int) / (BASIS_POINTS as int)
}

/// The exact outcome of applying a boost: the scaled value, or
/// `ArithmeticOverflow` where it cannot be narrowed to 64 bits.
pub open spec fn spec_boosted_checked(base_reward: u64, boost_bps: u16) -> Result<
    u64,
    VaultError,
> {
    if spec_boosted_reward(base_reward, boost_bps) > u64::MAX as int {
        Err(VaultError::ArithmeticOverflow)
    } else {
        Ok(spec_boosted_reward(base_reward, boost_bps) as u64)
    }
}

/// Souls earned on a gross reward: one conversion-rate multiple per token.
pub open spec fn spec_souls(reward: u64, souls_per_token: u64) -> int {
    reward as int * souls_per_token as int
}

/// The exact outcome of the soul conversion: the product, or
/// `ArithmeticOverflow` where it cannot be narrowed to 64 bits.
pub open spec fn spec_souls_checked(reward: u64, souls_per_token: u64) -> Result<u64, VaultError> {
    if spec_souls(reward, souls_per_token) > u64::MAX as int {
        Err(VaultError::ArithmeticOverflow)
    } else {
        Ok(spec_souls(reward, souls_per_token) as u64)
    }
}

/// The soul-tax portion of a gross reward, rounded down.
pub open spec fn spec_tax(reward: u64) -> int {
    (reward as int * SOUL_TAX_BPS as int) / (BASIS_POINTS as int)
}

/// The charity portion of a gross reward, rounded down.
pub open spec fn spec_charity(reward: u64) -> int {
    (reward as int * CHARITY_BPS as int) / (BASIS_POINTS as int)
}

/// The net credit left of a gross reward once tax and charity are taken out.
pub open spec fn spec_net(reward: u64) -> int {
    reward - spec_tax(reward) - spec_charity(reward)
}

/// Whether the split's 64-bit tax product fits; the charity product is
/// smaller and fits whenever this does.
pub open spec fn spec_split_fits(reward: u64) -> bool {
    reward as int * SOUL_TAX_BPS as int <= u64::MAX as int
}

/// Compute the gross reward owed on `balance` at `rate_bps` over
/// `elapsed_seconds`. The product is widened to 128 bits before the single
/// truncating division; any value that cannot be represented is refused as
/// `ArithmeticOverflow`.
pub fn calculate_base_reward(balance: u64, rate_bps: u16, elapsed_seconds: i64) -> (result: Result<
    u64,
    VaultError,
>)
    requires
        elapsed_seconds > 0,
    ensures
        result == spec_base_reward_checked(balance, rate_bps, elapsed_seconds),
{
    let balance_wide = balance as u128;
    let rate_wide = rate_bps as u128;
    let elapsed_wide = elapsed_seconds as u128;
    assert(balance_wide * rate_wide <= u128::MAX) by {
        lemma_mul_upper_bound(
            balance_wide as int,
            u64::MAX as int,
            rate_wide as int,
            u16::MAX as int,
        );
    }
    let scaled = balance_wide * rate_wide;
    let numerator = match scaled.checked_mul(elapsed_wide) {
        Some(n) => n,
        None => {
            return Err(VaultError::ArithmeticOverflow);
        },
    };
    let denominator: u128 = (SECONDS_PER_YEAR as u128) * (BASIS_POINTS as u128);
    let reward = numerator / denominator;
    if reward > u64::MAX as u128 {
        return Err(VaultError::ArithmeticOverflow);
    }
    Ok(reward as u64)
}

/// Scale a base reward by `boost_bps`, at 128-bit width; a result that
/// cannot be narrowed back to 64 bits is refused as `ArithmeticOverflow`.
pub fn apply_boost(base_reward: u64, boost_bps: u16) -> (result: Result<u64, VaultError>)
    ensures
        result == spec_boosted_checked(base_reward, boost_bps),
{
    let reward_wide = base_reward as u128;
    let boost_wide = boost_bps as u128;
    assert(reward_wide * boost_wide <= u128::MAX) by {
        lemma_mul_upper_bound(
            reward_wide as int,
            u64::MAX as int,
            boost_wide as int,
            u16::MAX as int,
        );
    }
    let boosted = (reward_wide * boost_wide) / (BASIS_POINTS as u128);
    if boosted > u64::MAX as u128 {
        return Err(VaultError::ArithmeticOverflow);
    }
    Ok(boosted as u64)
}

/// Convert a gross reward to souls at the configured rate, at 128-bit width;
/// a product that cannot be narrowed back to 64 bits is refused as
/// `ArithmeticOverflow`.
pub fn souls_for_reward(reward: u64, souls_per_token: u64) -> (result: Result<u64, VaultError>)
    ensures
        result == spec_souls_checked(reward, souls_per_token),
{
    let reward_wide = reward as u128;
    let rate_wide = souls_per_token as u128;
    assert(reward_wide * rate_wide <= u128::MAX) by {
        lemma_mul_upper_bound(
            reward_wide as int,
            u64::MAX as int,
            rate_wide as int,
            u64::MAX as int,
        );
    }
    let souls = reward_wide * rate_wide;
    if souls > u64::MAX as u128 {
        return Err(VaultError::ArithmeticOverflow);
    }
    Ok(souls as u64)
}

/// Split a gross reward into its tax, charity and net portions. Tax and
/// charity are each computed independently from the gross reward, then both
/// subtracted from it; the three portions always sum back to the gross
/// reward exactly.
pub fn split_harvest(reward: u64) -> (result: Result<(u64, u64, u64), VaultError>)
    ensures
        result matches Ok((tax, charity, net)) ==> {
            &&& spec_split_fits(reward)
            &&& tax == spec_tax(reward)
            &&& charity == spec_charity(reward)
            &&& net == spec_net(reward)
            &&& tax + charity + net == reward
        },
        result is Err ==> result == Err::<(u64, u64, u64), VaultError>(
            VaultError::ArithmeticOverflow,
        ) && !spec_split_fits(reward),
{
    let tax_product = match reward.checked_mul(SOUL_TAX_BPS) {
        Some(p) => p,
        None => {
            return Err(VaultError::ArithmeticOverflow);
        },
    };
    let tax = tax_product / BASIS_POINTS;
    assert(reward * CHARITY_BPS <= u64::MAX) by {
        lemma_mul_upper_bound(reward as int, reward as int, CHARITY_BPS as int, SOUL_TAX_BPS as int);
    }
    let charity = (reward * CHARITY_BPS) / BASIS_POINTS;
    proof {
        lemma_split_conserves_reward(reward);
    }
    let net = reward - tax - charity;
    Ok((tax, charity, net))
}

/// Law: the harvest split conserves value exactly. For every gross reward,
/// the tax and charity portions never exceed it, and tax, charity and net
/// always sum back to it with no rounding leakage.
pub proof fn lemma_split_conserves_reward(reward: u64)
    ensures
        spec_tax(reward) + spec_charity(reward) <= reward,
        spec_tax(reward) + spec_charity(reward) + spec_net(reward) == reward,
        0 <= spec_tax(reward),
        0 <= spec_charity(reward),
        0 <= spec_net(reward),
{
    let r = reward as int;
    let d = BASIS_POINTS as int;
    lemma_fundamental_div_mod(r * SOUL_TAX_BPS as int, d);
    lemma_fundamental_div_mod(r * CHARITY_BPS as int, d);
    lemma_div_is_ordered(0, r * SOUL_TAX_BPS as int, d);
    lemma_div_is_ordered(0, r * CHARITY_BPS as int, d);
}

/// Law: the boost keeps order. At a fixed boost rate, a larger base reward
/// never yields a smaller boosted reward, so the whole accrued result —
/// boosted or not — is monotonic wherever the base reward is.
pub proof fn lemma_boost_monotonic(reward1: u64, reward2: u64, boost_bps: u16)
    requires
        reward1 <= reward2,
    ensures
        spec_boosted_reward(reward1, boost_bps) <= spec_boosted_reward(reward2, boost_bps),
{
    lemma_mul_inequality(reward1 as int, reward2 as int, boost_bps as int);
    lemma_div_is_ordered(
        reward1 as int * boost_bps as int,
        reward2 as int * boost_bps as int,
        BASIS_POINTS as int,
    );
}

/// Law: the accrued reward is monotonic in the balance, the rate and the
/// elapsed time, each independently and jointly.
pub proof fn lemma_reward_monotonic(
    balance1: u64,
    balance2: u64,
    rate1: u16,
    rate2: u16,
    elapsed1: i64,
    elapsed2: i64,
)
    requires
        balance1 <= balance2,
        rate1 <= rate2,
        0 < elapsed1 <= elapsed2,
    ensures
        spec_base_reward(balance1, rate1, elapsed1) <= spec_base_reward(balance2, rate2, elapsed2),
{
    lemma_mul_upper_bound(balance1 as int, balance2 as int, rate1 as int, rate2 as int);
    lemma_mul_upper_bound(
        balance1 as int * rate1 as int,
        balance2 as int * rate2 as int,
        elapsed1 as int,
        elapsed2 as int,
    );
    lemma_div_is_ordered(
        balance1 as int * rate1 as int * elapsed1 as int,
        balance2 as int * rate2 as int * elapsed2 as int,
        reward_denominator(),
    );
}

} // verus!
