//! Cashback tier ledger: per-user tier, claim cooldown, and
//! inactivity-based reclamation eligibility. Timestamps are supplied by the
//! caller, never sampled here.
use vstd::prelude::*;

use crate::constants::CASHBACK_BRONZE_BPS;
use crate::constants::CASHBACK_CHAMPION_BPS;
use crate::constants::CASHBACK_DIAMOND_BPS;
use crate::constants::CASHBACK_GOLD_BPS;
use crate::constants::CASHBACK_PLATINUM_BPS;
use crate::constants::CASHBACK_SILVER_BPS;
use crate::constants::CASHBACK_WOOD_BPS;
use crate::errors::AmmError;
use crate::Pubkey;

verus! {

/// Trader-loyalty rank granting a rebate rate on trading fees; ordinal 0-6.
#[derive(Clone, Copy, Debug, PartialEq, Eq, Structural)]
pub enum CashbackTier {
    Wood,
    Bronze,
    Silver,
    Gold,
    Platinum,
    Diamond,
    Champion,
}

/// The cashback rate of a tier, out of the fee denominator.
pub open spec fn spec_cashback_bps(tier: CashbackTier) -> u16 {
    match tier {
        CashbackTier::Wood => CASHBACK_WOOD_BPS,
        CashbackTier::Bronze => CASHBACK_BRONZE_BPS,
        CashbackTier::Silver => CASHBACK_SILVER_BPS,
        CashbackTier::Gold => CASHBACK_GOLD_BPS,
        CashbackTier::Platinum => CASHBACK_PLATINUM_BPS,
        CashbackTier::Diamond => CASHBACK_DIAMOND_BPS,
        CashbackTier::Champion => CASHBACK_CHAMPION_BPS,
    }
}

/// The tier a raw ordinal denotes; values past the table clamp to the top
/// tier.
pub open spec fn spec_tier_of_raw(v: u8) -> CashbackTier {
    if v == 0 {
        CashbackTier::Wood
    } else if v == 1 {
        CashbackTier::Bronze
    } else if v == 2 {
        CashbackTier::Silver
    } else if v == 3 {
        CashbackTier::Gold
    } else if v == 4 {
        CashbackTier::Platinum
    } else if v == 5 {
        CashbackTier::Diamond
    } else {
        CashbackTier::Champion
    }
}

impl CashbackTier {
    /// Get the cashback basis points for this tier.
    pub fn get_cashback_bps(&self) -> (r: u16)
        ensures
            r == spec_cashback_bps(*self),
    {
        match self {
            CashbackTier::Wood => CASHBACK_WOOD_BPS,
            CashbackTier::Bronze => CASHBACK_BRONZE_BPS,
            CashbackTier::Silver => CASHBACK_SILVER_BPS,
            CashbackTier::Gold => CASHBACK_GOLD_BPS,
            CashbackTier::Platinum => CASHBACK_PLATINUM_BPS,
            CashbackTier::Diamond => CASHBACK_DIAMOND_BPS,
            CashbackTier::Champion => CASHBACK_CHAMPION_BPS,
        }
    }
}

impl Default for CashbackTier {
    fn default() -> (r: Self)
        ensures
            r == CashbackTier::Wood,
    {
        CashbackTier::Wood
    }
}

/// Per-user cashback state: tier and last successful claim time.
#[derive(Clone, Copy, Debug)]
pub struct CashbackAccount {
    /// owner of the cashback account
    pub owner: Pubkey,
    /// current cashback tier, updated by an external authority
    pub current_tier: u8,
    /// unix timestamp of last claim
    pub last_claim_timestamp: i64,
}

impl CashbackAccount {
    /// Initialize a cashback account; the claim clock starts at creation so
    /// the full cooldown must pass before the first claim.
    pub fn init(&mut self, owner: Pubkey, now: i64)
        ensures
            final(self).owner == owner,
            final(self).current_tier == 0,
            final(self).last_claim_timestamp == now,
    {
        self.owner = owner;
        self.current_tier = 0;
        self.last_claim_timestamp = now;
    }

    /// Update the tier; any raw value is stored and clamped on read.
    pub fn update_tier(&mut self, new_tier: u8) -> (r: Result<(), AmmError>)
        ensures
            r is Ok,
            final(self).current_tier == new_tier,
            final(self).owner == old(self).owner,
            final(self).last_claim_timestamp == old(self).last_claim_timestamp,
    {
        self.current_tier = new_tier;
        Ok(())
    }

    /// Record a successful claim at the supplied time.
    pub fn update_claim_timestamp(&mut self, now: i64) -> (r: Result<(), AmmError>)
        ensures
            r is Ok,
            final(self).last_claim_timestamp == now,
            final(self).owner == old(self).owner,
            final(self).current_tier == old(self).current_tier,
    {
        self.last_claim_timestamp = now;
        Ok(())
    }

    /// Get the current tier as an enum; a stored ordinal past the table is
    /// read as the top tier rather than rejected.
    pub fn get_tier(&self) -> (r: Result<CashbackTier, AmmError>)
        ensures
            r == Ok::<CashbackTier, AmmError>(spec_tier_of_raw(self.current_tier)),
    {
        let tier_value: u8 = if self.current_tier > 6 {
            6
        } else {
            self.current_tier
        };
        match tier_value {
            0 => Ok(CashbackTier::Wood),
            1 => Ok(CashbackTier::Bronze),
            2 => Ok(CashbackTier::Silver),
            3 => Ok(CashbackTier::Gold),
            4 => Ok(CashbackTier::Platinum),
            5 => Ok(CashbackTier::Diamond),
            _ => Ok(CashbackTier::Champion),
        }
    }
}

} // verus!
