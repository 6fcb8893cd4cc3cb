//! Protocol-wide constants: price bounds, token supply shape, cashback
//! tiers and windows, and the fee denominator.
use vstd::prelude::*;

verus! {

/// Smallest representable Q64.64 square-root price.
pub const MIN_SQRT_PRICE: u128 = 4295048016;

/// Largest representable Q64.64 square-root price.
pub const MAX_SQRT_PRICE: u128 = 79226673521066979257578248091;

pub const LAMPORTS_PER_SOL: u64 = 1_000_000_000;

// Token supply configuration (values include decimals).
pub const TOKEN_TOTAL_SUPPLY: u64 = 1_000_000_000_000_000;

pub const INITIAL_REAL_TOKEN_RESERVES: u64 = 793_100_000_000_000;

pub const INITIAL_VIRTUAL_TOKEN_RESERVES: u64 = 1_073_000_000_000_000;

pub const INITIAL_VIRTUAL_SOL_RESERVES: u64 = 30 * LAMPORTS_PER_SOL;

pub const MAX_VIRTUAL_SOL_RESERVES: u64 = 115_005_359_056;

// Validation limits for token metadata.
pub const MAX_NAME_LENGTH: usize = 32;

pub const MAX_SYMBOL_LENGTH: usize = 10;

pub const MAX_URI_LENGTH: usize = 200;

// Cashback rates per tier, out of the fee denominator.
pub const CASHBACK_WOOD_BPS: u16 = 50;

pub const CASHBACK_BRONZE_BPS: u16 = 100;

pub const CASHBACK_SILVER_BPS: u16 = 125;

pub const CASHBACK_GOLD_BPS: u16 = 150;

pub const CASHBACK_PLATINUM_BPS: u16 = 175;

pub const CASHBACK_DIAMOND_BPS: u16 = 200;

pub const CASHBACK_CHAMPION_BPS: u16 = 250;

/// Seven days, in seconds: the wait between cashback claims.
pub const CASHBACK_CLAIM_COOLDOWN: i64 = 7 * 24 * 60 * 60;

/// One year, in seconds: the inactivity window before reclamation.
pub const CASHBACK_INACTIVE_PERIOD: i64 = 365 * 24 * 60 * 60;

/// All basis-point rates are out of this denominator.
pub const FEE_DENOMINATOR: u64 = 100_000;

/// Cap for the gross trading fee rate, expressed out of 10,000.
pub const MAX_FEE_BASIS_POINTS: u16 = 10_000;

} // verus!
