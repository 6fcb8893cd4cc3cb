//! Immutable per-curve-family configuration and the fee engine: the exact
//! decomposition of a gross amount into protocol, referral, creator and
//! cashback components.
use vstd::prelude::*;
use vstd::arithmetic::div_mod::lemma_div_is_ordered;
use vstd::arithmetic::div_mod::lemma_div_multiples_vanish;
use vstd::arithmetic::div_mod::lemma_div_pos_is_pos;
use vstd::arithmetic::mul::lemma_mul_inequality;

use crate::cashback::spec_cashback_bps;
use crate::cashback::CashbackTier;
use crate::constants::FEE_DENOMINATOR;
use crate::errors::AmmError;
use crate::events::EvtCreateConfig;
use crate::math::safe_mul_div_cast_u64;
use crate::math::Rounding;
use crate::math::SafeMath;
use crate::Pubkey;

verus! {

/// Token program family a mint belongs to.
#[derive(Clone, Copy, Debug, PartialEq, Eq, Structural)]
pub enum TokenType {
    SplToken,
    Token2022,
}

impl TokenType {
    /// The token type a raw flag denotes; only 0 and 1 are defined.
    pub fn try_from_u8(v: u8) -> (r: Result<TokenType, AmmError>)
        ensures
            v == 0 ==> r == Ok::<TokenType, AmmError>(TokenType::SplToken),
            v == 1 ==> r == Ok::<TokenType, AmmError>(TokenType::Token2022),
            v > 1 ==> r == Err::<TokenType, AmmError>(AmmError::InvalidTokenType),
    {
        match v {
            0 => Ok(TokenType::SplToken),
            1 => Ok(TokenType::Token2022),
            _ => Err(AmmError::InvalidTokenType),
        }
    }
}

/// Recipient of the curve-scoped creator-or-community fee.
#[derive(Clone, Copy, Debug, PartialEq, Eq, Structural)]
pub enum FeeType {
    Creator,
    Meme,
    Blocked,
}

impl FeeType {
    /// The fee type a raw value denotes; only 0, 1 and 2 are defined.
    pub fn try_from_u8(v: u8) -> (r: Result<FeeType, AmmError>)
        ensures
            v == 0 ==> r == Ok::<FeeType, AmmError>(FeeType::Creator),
            v == 1 ==> r == Ok::<FeeType, AmmError>(FeeType::Meme),
            v == 2 ==> r == Ok::<FeeType, AmmError>(FeeType::Blocked),
            v > 2 ==> r == Err::<FeeType, AmmError>(AmmError::InvalidFeeType),
    {
        match v {
            0 => Ok(FeeType::Creator),
            1 => Ok(FeeType::Meme),
            2 => Ok(FeeType::Blocked),
            _ => Err(AmmError::InvalidFeeType),
        }
    }

    /// The raw value denoting this fee type.
    pub fn to_u8(&self) -> (r: u8)
        ensures
            r == spec_fee_type_raw(*self),
    {
        match self {
            FeeType::Creator => 0,
            FeeType::Meme => 1,
            FeeType::Blocked => 2,
        }
    }
}

/// The raw value of a fee type.
pub open spec fn spec_fee_type_raw(ft: FeeType) -> u8 {
    match ft {
        FeeType::Creator => 0,
        FeeType::Meme => 1,
        FeeType::Blocked => 2,
    }
}

/// Externally supplied authority addresses.
#[derive(Clone, Debug)]
pub struct ProtocolAuthorityArgs {
    pub global_authority: Option<Pubkey>,
    pub migration_authority: Option<Pubkey>,
}

/// The exact decomposition of one gross trade amount.
#[derive(Clone, Copy, Debug, PartialEq, Eq, Structural)]
pub struct FeeBreakdown {
    /// the net amount left after the total fee
    pub amount: u64,
    /// goes to the L1 referrer's cashback account
    pub l1_referral_fee: u64,
    /// goes to the L2 referrer's cashback account
    pub l2_referral_fee: u64,
    /// goes to the L3 referrer's cashback account
    pub l3_referral_fee: u64,
    /// goes to the creator's cashback account
    pub creator_fee: u64,
    /// goes to the trader's cashback account
    pub cashback_fee: u64,
    /// goes to the protocol; absorbs all rounding residue
    pub protocol_fee: u64,
}

impl FeeBreakdown {
    /// The total fee: every component summed back together.
    pub fn sum(&self) -> (r: u64)
        requires
            self.l1_referral_fee + self.l2_referral_fee + self.l3_referral_fee + self.creator_fee
                + self.cashback_fee + self.protocol_fee <= u64::MAX,
        ensures
            r == self.l1_referral_fee + self.l2_referral_fee + self.l3_referral_fee
                + self.creator_fee + self.cashback_fee + self.protocol_fee,
    {
        self.l1_referral_fee + self.l2_referral_fee + self.l3_referral_fee + self.creator_fee
            + self.cashback_fee + self.protocol_fee
    }
}

/// Immutable configuration of one curve family; fee parameters are fixed
/// here at creation time.
#[derive(Clone, Copy, Debug)]
pub struct Config {
    /// quote mint
    pub quote_mint: Pubkey,
    /// fee claimer
    pub fee_claimer: Pubkey,
    /// base token flag (0 | 1), 0: SPL Token, 1: Token2022
    pub base_token_flag: u8,
    /// quote token flag (0 | 1), 0: SPL Token, 1: Token2022
    pub quote_token_flag: u8,
    /// base token decimal, (6 | 9)
    pub base_decimal: u8,
    /// quote token decimal, (6 | 9)
    pub quote_decimal: u8,
    /// Trading fee in bps
    pub fee_basis_points: u16,
    /// Level 1 referral fee in bps
    pub l1_referral_fee_basis_points: u16,
    /// Level 2 referral fee in bps
    pub l2_referral_fee_basis_points: u16,
    /// Level 3 referral fee in bps
    pub l3_referral_fee_basis_points: u16,
    /// Referee discount in bps (a referred trader pays this much less)
    pub referee_discount_basis_points: u16,
    /// creator/project fee in bps
    pub creator_fee_basis_points: u16,
    /// meme/community fee in bps
    pub meme_fee_basis_points: u16,
    /// migration fee in bps (quote token fee)
    pub migration_fee_basis_points: u16,
    /// migration base threshold (the amount of token to migrate)
    pub migration_base_threshold: u64,
    /// migration quote threshold
    pub migration_quote_threshold: u64,
    /// initial virtual quote reserve to boost the initial liquidity
    pub initial_virtual_quote_reserve: u64,
    /// initial virtual base reserve to boost the initial liquidity
    pub initial_virtual_base_reserve: u64,
}

/// One referral-tier fee: the floor share of the amount when the tier is
/// active, zero otherwise.
pub open spec fn spec_referral_fee(amount: int, bps: int, active: bool) -> int {
    if active {
        amount * bps / (FEE_DENOMINATOR as int)
    } else {
        0
    }
}

/// The trader's cashback fee: the floor share at the tier's rate, zero
/// without a cashback account.
pub open spec fn spec_cashback_fee(amount: int, tier: Option<CashbackTier>) -> int {
    match tier {
        Some(t) => amount * (spec_cashback_bps(t) as int) / (FEE_DENOMINATOR as int),
        None => 0,
    }
}

impl Config {
    /// Record a validated parameter set; fee parameters are fixed from
    /// here on.
    pub fn init(
        &mut self,
        quote_mint: &Pubkey,
        fee_claimer: &Pubkey,
        base_token_flag: u8,
        quote_token_flag: u8,
        base_decimal: u8,
        quote_decimal: u8,
        fee_basis_points: u16,
        l1_referral_fee_basis_points: u16,
        l2_referral_fee_basis_points: u16,
        l3_referral_fee_basis_points: u16,
        referee_discount_basis_points: u16,
        creator_fee_basis_points: u16,
        meme_fee_basis_points: u16,
        migration_fee_basis_points: u16,
        migration_base_threshold: u64,
        migration_quote_threshold: u64,
        initial_virtual_quote_reserve: u64,
        initial_virtual_base_reserve: u64,
    )
        ensures
            *final(self) == (Config {
                quote_mint: *quote_mint,
                fee_claimer: *fee_claimer,
                base_token_flag,
                quote_token_flag,
                base_decimal,
                quote_decimal,
                fee_basis_points,
                l1_referral_fee_basis_points,
                l2_referral_fee_basis_points,
                l3_referral_fee_basis_points,
                referee_discount_basis_points,
                creator_fee_basis_points,
                meme_fee_basis_points,
                migration_fee_basis_points,
                migration_base_threshold,
                migration_quote_threshold,
                initial_virtual_quote_reserve,
                initial_virtual_base_reserve,
            }),
    {
        self.quote_mint = *quote_mint;
        self.fee_claimer = *fee_claimer;
        self.base_token_flag = base_token_flag;
        self.quote_token_flag = quote_token_flag;
        self.base_decimal = base_decimal;
        self.quote_decimal = quote_decimal;
        self.fee_basis_points = fee_basis_points;
        self.l1_referral_fee_basis_points = l1_referral_fee_basis_points;
        self.l2_referral_fee_basis_points = l2_referral_fee_basis_points;
        self.l3_referral_fee_basis_points = l3_referral_fee_basis_points;
        self.referee_discount_basis_points = referee_discount_basis_points;
        self.creator_fee_basis_points = creator_fee_basis_points;
        self.meme_fee_basis_points = meme_fee_basis_points;
        self.migration_fee_basis_points = migration_fee_basis_points;
        self.migration_base_threshold = migration_base_threshold;
        self.migration_quote_threshold = migration_quote_threshold;
        self.initial_virtual_quote_reserve = initial_virtual_quote_reserve;
        self.initial_virtual_base_reserve = initial_virtual_base_reserve;
    }

    /// The audit record of this configuration, for the observability
    /// collaborator.
    pub fn event(&self, config_key: Pubkey) -> (r: EvtCreateConfig)
        ensures
            r.config == config_key,
            r.quote_mint == self.quote_mint && r.fee_claimer == self.fee_claimer,
            r.base_token_flag == self.base_token_flag,
            r.quote_token_flag == self.quote_token_flag,
            r.base_decimal == self.base_decimal && r.quote_decimal == self.quote_decimal,
            r.fee_basis_points == self.fee_basis_points,
            r.l1_referral_fee_basis_points == self.l1_referral_fee_basis_points,
            r.l2_referral_fee_basis_points == self.l2_referral_fee_basis_points,
            r.l3_referral_fee_basis_points == self.l3_referral_fee_basis_points,
            r.creator_fee_basis_points == self.creator_fee_basis_points,
            r.migration_fee_basis_points == self.migration_fee_basis_points,
            r.migration_base_threshold == self.migration_base_threshold,
            r.migration_quote_threshold == self.migration_quote_threshold,
            r.initial_virtual_quote_reserve == self.initial_virtual_quote_reserve,
            r.initial_virtual_base_reserve == self.initial_virtual_base_reserve,
    {
        EvtCreateConfig {
            config: config_key,
            base_token_flag: self.base_token_flag,
            quote_token_flag: self.quote_token_flag,
            base_decimal: self.base_decimal,
            quote_decimal: self.quote_decimal,
            quote_mint: self.quote_mint,
            fee_basis_points: self.fee_basis_points,
            l1_referral_fee_basis_points: self.l1_referral_fee_basis_points,
            l2_referral_fee_basis_points: self.l2_referral_fee_basis_points,
            l3_referral_fee_basis_points: self.l3_referral_fee_basis_points,
            creator_fee_basis_points: self.creator_fee_basis_points,
            migration_fee_basis_points: self.migration_fee_basis_points,
            fee_claimer: self.fee_claimer,
            migration_base_threshold: self.migration_base_threshold,
            migration_quote_threshold: self.migration_quote_threshold,
            initial_virtual_quote_reserve: self.initial_virtual_quote_reserve,
            initial_virtual_base_reserve: self.initial_virtual_base_reserve,
        }
    }

    /// The creator-or-community rate selected by the fee type.
    pub open spec fn spec_creator_rate(self, fee_type: FeeType) -> int {
        match fee_type {
            FeeType::Creator => self.creator_fee_basis_points as int,
            FeeType::Meme => self.meme_fee_basis_points as int,
            FeeType::Blocked => 0,
        }
    }

    /// The gross fee rate: the referee discount applies as soon as any
    /// referral tier is active.
    pub open spec fn spec_effective_bps(self, has_referral: bool) -> int {
        if has_referral {
            self.fee_basis_points - self.referee_discount_basis_points
        } else {
            self.fee_basis_points as int
        }
    }

    /// The full fee decomposition, or the exact error the engine reports:
    /// `MathOverflow` when the discount exceeds the gross rate or when the
    /// component fees summed exceed the total fee.
    pub open spec fn spec_get_fee_on_amount(
        self,
        amount_in: u64,
        has_l1_referral: bool,
        has_l2_referral: bool,
        has_l3_referral: bool,
        fee_type: FeeType,
        cashback_tier: Option<CashbackTier>,
    ) -> Result<FeeBreakdown, AmmError> {
        let has_referral = has_l1_referral || has_l2_referral || has_l3_referral;
        if has_referral && self.fee_basis_points < self.referee_discount_basis_points {
            Err(AmmError::MathOverflow)
        } else {
            let l1 = spec_referral_fee(
                amount_in as int,
                self.l1_referral_fee_basis_points as int,
                has_l1_referral,
            );
            let l2 = spec_referral_fee(
                amount_in as int,
                self.l2_referral_fee_basis_points as int,
                has_l2_referral,
            );
            let l3 = spec_referral_fee(
                amount_in as int,
                self.l3_referral_fee_basis_points as int,
                has_l3_referral,
            );
            let cashback = spec_cashback_fee(amount_in as int, cashback_tier);
            let creator = amount_in as int * self.spec_creator_rate(fee_type) / (
            FEE_DENOMINATOR as int);
            let total = amount_in as int * self.spec_effective_bps(has_referral) / (
            FEE_DENOMINATOR as int);
            if l1 + l2 + l3 + creator + cashback > total {
                Err(AmmError::MathOverflow)
            } else {
                Ok(
                    (FeeBreakdown {
                        amount: (amount_in - total) as u64,
                        l1_referral_fee: l1 as u64,
                        l2_referral_fee: l2 as u64,
                        l3_referral_fee: l3 as u64,
                        creator_fee: creator as u64,
                        cashback_fee: cashback as u64,
                        protocol_fee: (total - l1 - l2 - l3 - creator - cashback) as u64,
                    }),
                )
            }
        }
    }

    /// Decompose a gross amount into its fee components, in the fixed
    /// order: referral tiers, cashback, creator-or-community, total, then
    /// protocol last so it absorbs all rounding residue. The components
    /// always sum back to the gross amount exactly.
    #[verifier::rlimit(100)]
    pub fn get_fee_on_amount(
        &self,
        amount_in: u64,
        has_l1_referral: bool,
        has_l2_referral: bool,
        has_l3_referral: bool,
        fee_type: FeeType,
        cashback_tier: Option<CashbackTier>,
    ) -> (r: Result<FeeBreakdown, AmmError>)
        ensures
            r == self.spec_get_fee_on_amount(
                amount_in,
                has_l1_referral,
                has_l2_referral,
                has_l3_referral,
                fee_type,
                cashback_tier,
            ),
            r matches Ok(fb) ==> fb.amount + fb.protocol_fee + fb.l1_referral_fee
                + fb.l2_referral_fee + fb.l3_referral_fee + fb.creator_fee + fb.cashback_fee
                == amount_in,
    {
        proof {
            lemma_fee_component_bound(amount_in as int, self.l1_referral_fee_basis_points as int);
            lemma_fee_component_bound(amount_in as int, self.l2_referral_fee_basis_points as int);
            lemma_fee_component_bound(amount_in as int, self.l3_referral_fee_basis_points as int);
            lemma_fee_component_bound(amount_in as int, self.creator_fee_basis_points as int);
            lemma_fee_component_bound(amount_in as int, self.meme_fee_basis_points as int);
            lemma_fee_component_bound(amount_in as int, self.fee_basis_points as int);
            if self.fee_basis_points >= self.referee_discount_basis_points {
                lemma_fee_component_bound(
                    amount_in as int,
                    self.fee_basis_points - self.referee_discount_basis_points,
                );
            }
        }
        let l1_referral_fee: u64 = if has_l1_referral {
            safe_mul_div_cast_u64(
                amount_in,
                self.l1_referral_fee_basis_points as u64,
                FEE_DENOMINATOR,
                Rounding::Down,
            )?
        } else {
            0u64
        };
        let l2_referral_fee: u64 = if has_l2_referral {
            safe_mul_div_cast_u64(
                amount_in,
                self.l2_referral_fee_basis_points as u64,
                FEE_DENOMINATOR,
                Rounding::Down,
            )?
        } else {
            0u64
        };
        let l3_referral_fee: u64 = if has_l3_referral {
            safe_mul_div_cast_u64(
                amount_in,
                self.l3_referral_fee_basis_points as u64,
                FEE_DENOMINATOR,
                Rounding::Down,
            )?
        } else {
            0u64
        };
        let cashback_bps: u16 = match cashback_tier {
            Some(tier) => tier.get_cashback_bps(),
            None => 0u16,
        };
        proof {
            lemma_fee_component_bound(amount_in as int, cashback_bps as int);
        }
        let cashback_fee: u64 = safe_mul_div_cast_u64(
            amount_in,
            cashback_bps as u64,
            FEE_DENOMINATOR,
            Rounding::Down,
        )?;
        let creator_fee_basis_points: u16 = match fee_type {
            FeeType::Creator => self.creator_fee_basis_points,
            FeeType::Meme => self.meme_fee_basis_points,
            FeeType::Blocked => 0u16,
        };
        let creator_fee: u64 = safe_mul_div_cast_u64(
            amount_in,
            creator_fee_basis_points as u64,
            FEE_DENOMINATOR,
            Rounding::Down,
        )?;
        let has_referral = has_l1_referral || has_l2_referral || has_l3_referral;
        let effective_bps: u16 = if has_referral {
            if self.fee_basis_points < self.referee_discount_basis_points {
                return Err(AmmError::MathOverflow);
            }
            self.fee_basis_points - self.referee_discount_basis_points
        } else {
            self.fee_basis_points
        };
        let total_fee: u64 = safe_mul_div_cast_u64(
            amount_in,
            effective_bps as u64,
            FEE_DENOMINATOR,
            Rounding::Down,
        )?;
        let protocol_fee: u64 = total_fee
            .safe_sub(l1_referral_fee)?
            .safe_sub(l2_referral_fee)?
            .safe_sub(l3_referral_fee)?
            .safe_sub(creator_fee)?
            .safe_sub(cashback_fee)?;
        let amount: u64 = amount_in.safe_sub(total_fee)?;
        Ok(
            FeeBreakdown {
                amount,
                protocol_fee,
                cashback_fee,
                creator_fee,
                l1_referral_fee,
                l2_referral_fee,
                l3_referral_fee,
            },
        )
    }
}

/// A floor fee share at a rate below the denominator never exceeds the
/// amount itself, so it fits the amount's width.
proof fn lemma_fee_component_bound(amount: int, bps: int)
    requires
        0 <= amount,
        0 <= bps < FEE_DENOMINATOR,
    ensures
        0 <= amount * bps / (FEE_DENOMINATOR as int) <= amount,
{
    let den = FEE_DENOMINATOR as int;
    lemma_mul_inequality(bps, den, amount);
    vstd::arithmetic::mul::lemma_mul_is_commutative(amount, bps);
    vstd::arithmetic::mul::lemma_mul_is_commutative(amount, den);
    lemma_div_is_ordered(amount * bps, amount * den, den);
    lemma_div_multiples_vanish(amount, den);
    vstd::arithmetic::mul::lemma_mul_nonnegative(amount, bps);
    lemma_div_pos_is_pos(amount * bps, den);
}

} // verus!
