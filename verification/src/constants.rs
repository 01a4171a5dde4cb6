//! Program-wide constants: time spans, basis-point rates and supply caps.

use vstd::prelude::*;

verus! {

/// Hard cap on the number of boost credentials (reaper passes) that can ever
/// be issued.
pub const REAPER_MAX_SUPPLY: u16 = 1666;

/// Number of seconds in one minute.
pub const SECONDS_PER_MINUTE: i64 = 60;

/// Number of seconds in one hour.
pub const SECONDS_PER_HOUR: i64 = 60 * SECONDS_PER_MINUTE;

/// Number of seconds in one day.
pub const SECONDS_PER_DAY: i64 = 24 * SECONDS_PER_HOUR;

/// Number of seconds in one year of 365 days; yield accrues against this
/// span, with no leap-year correction.
pub const SECONDS_PER_YEAR: i64 = 365 * SECONDS_PER_DAY;

/// Basis-point divisor: 10_000 basis points are 100%.
pub const BASIS_POINTS: u64 = 10_000;

/// Alias for [`BASIS_POINTS`], kept for callers that use the longer name.
pub const BASIS_POINTS_DIVISOR: u64 = BASIS_POINTS;

/// Soul-tax rate applied to harvested rewards, in basis points (13%).
pub const SOUL_TAX_BPS: u64 = 1_300;

/// Charity-donation rate applied to harvested rewards, in basis points (1%).
pub const CHARITY_BPS: u64 = 100;

/// Default base annual yield in basis points (10%).
pub const DEFAULT_BASE_APY: u16 = 1000;

/// Default boost multiplier for credential holders, in basis points (2.0x).
pub const DEFAULT_REAPER_BOOST: u16 = 20_000;

/// Default number of souls credited per token of reward.
pub const DEFAULT_SOULS_PER_TOKEN: u64 = 1;

/// Smallest-unit scale of the staked asset: the tier resolver reads the
/// aggregate value locked in whole-asset units.
pub const UNITS_PER_WHOLE_ASSET: u64 = 1_000_000_000;

} // verus!
