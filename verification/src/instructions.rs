//! Decision cores of the engine's operations: each takes plain values and
//! the state it owns, computes the complete outcome, and commits it all or
//! nothing. Account plumbing, transfers and clock reads stay with the
//! surrounding execution environment, which hands in timestamps and vault
//! balances and carries out the returned amounts.
use vstd::prelude::*;
use vstd::utf8::encode_utf8;

use crate::bonding_curve::spec_fee_type_of_raw;
use crate::bonding_curve::spec_migration_status_of_raw;
use crate::bonding_curve::BondingCurve;
use crate::bonding_curve::CurveType;
use crate::bonding_curve::MigrationStatus;
use crate::bonding_curve::SwapResult;
use crate::cashback::CashbackAccount;
use crate::cashback::CashbackTier;
use crate::config::Config;
use crate::config::FeeType;
use crate::config::TokenType;
use crate::constants::CASHBACK_CHAMPION_BPS;
use crate::constants::CASHBACK_CLAIM_COOLDOWN;
use crate::constants::CASHBACK_INACTIVE_PERIOD;
use crate::constants::FEE_DENOMINATOR;
use crate::constants::MAX_FEE_BASIS_POINTS;
use crate::constants::MAX_NAME_LENGTH;
use crate::constants::MAX_SQRT_PRICE;
use crate::constants::MAX_SYMBOL_LENGTH;
use crate::constants::MAX_URI_LENGTH;
use crate::constants::MIN_SQRT_PRICE;
use crate::constants::TOKEN_TOTAL_SUPPLY;
use crate::curve::get_liquidity_for_adding_liquidity;
use crate::errors::AmmError;
use crate::math::spec_mul_div;
use crate::math::Rounding;
use crate::params::TradeDirection;
use crate::Pubkey;

verus! {

/// What the trader asks for: the gross input and the slippage floor.
#[derive(Clone, Copy, Debug, PartialEq, Eq, Structural)]
pub struct SwapParameters {
    pub amount_in: u64,
    pub minimum_amount_out: u64,
}

/// The parameter set a configuration is created from.
#[derive(Clone, Copy, Debug, PartialEq, Eq, Structural)]
pub struct ConfigParameters {
    /// token type (0 | 1), 0: SPL Token, 1: Token2022
    pub base_token_flag: u8,
    /// token decimal, (6 | 9)
    pub base_decimal: u8,
    /// Trading fee in bps
    pub fee_basis_points: u16,
    /// Level 1 referral fee in bps
    pub l1_referral_fee_basis_points: u16,
    /// Level 2 referral fee in bps
    pub l2_referral_fee_basis_points: u16,
    /// Level 3 referral fee in bps
    pub l3_referral_fee_basis_points: u16,
    /// Referee discount in bps
    pub referee_discount_basis_points: u16,
    /// creator/project fee in bps
    pub creator_fee_basis_points: u16,
    /// meme/community fee in bps
    pub meme_fee_basis_points: u16,
    /// migration fee in bps (quote token fee)
    pub migration_fee_basis_points: u16,
    /// migration base threshold (the amount of token to migrate)
    pub migration_base_threshold: u64,
    /// migration quote threshold
    pub migration_quote_threshold: u64,
    /// initial virtual quote reserve to boost the initial liquidity
    pub initial_virtual_quote_reserve: u64,
    /// initial virtual base reserve to boost the initial liquidity
    pub initial_virtual_base_reserve: u64,
}

impl ConfigParameters {
    /// Which check a parameter set fails first, if any: the fee components
    /// plus the largest possible cashback must stay under the gross rate,
    /// referral tiers must strictly decrease, the creator fee is capped,
    /// and the initial reserves and threshold must be positive.
    pub open spec fn spec_validate(self) -> Result<(), AmmError> {
        let other_sum = self.l1_referral_fee_basis_points + self.l2_referral_fee_basis_points
            + self.l3_referral_fee_basis_points + self.creator_fee_basis_points
            + CASHBACK_CHAMPION_BPS;
        if self.base_token_flag > 1 {
            Err(AmmError::InvalidTokenType)
        } else if !(6 <= self.base_decimal && self.base_decimal <= 9) {
            Err(AmmError::InvalidTokenDecimals)
        } else if other_sum > u16::MAX {
            Err(AmmError::MathOverflow)
        } else if self.fee_basis_points <= other_sum {
            Err(AmmError::InvalidFeeBasisPoints)
        } else if self.l1_referral_fee_basis_points <= self.l2_referral_fee_basis_points {
            Err(AmmError::InvalidAmmConfig)
        } else if self.l2_referral_fee_basis_points <= self.l3_referral_fee_basis_points {
            Err(AmmError::InvalidAmmConfig)
        } else if self.creator_fee_basis_points > 1000 {
            Err(AmmError::InvalidCreatorTradingFeePercentage)
        } else if self.fee_basis_points > MAX_FEE_BASIS_POINTS {
            Err(AmmError::InvalidAmmConfig)
        } else if !(self.initial_virtual_quote_reserve > 0 && self.initial_virtual_base_reserve > 0
            && self.migration_base_threshold > 0) {
            Err(AmmError::InvalidAmmConfig)
        } else {
            Ok(())
        }
    }

    /// Validate the numeric invariants of a parameter set. Whether the
    /// quote mint itself is supported is an account-level check that the
    /// surrounding environment makes before calling in.
    pub fn validate(&self) -> (r: Result<(), AmmError>)
        ensures
            r == self.spec_validate(),
    {
        if self.base_token_flag > 1 {
            return Err(AmmError::InvalidTokenType);
        }
        if !(self.base_decimal >= 6 && self.base_decimal <= 9) {
            return Err(AmmError::InvalidTokenDecimals);
        }
        let s1 = match self.l1_referral_fee_basis_points.checked_add(
            self.l2_referral_fee_basis_points,
        ) {
            Some(v) => v,
            None => {
                return Err(AmmError::MathOverflow);
            },
        };
        let s2 = match s1.checked_add(self.l3_referral_fee_basis_points) {
            Some(v) => v,
            None => {
                return Err(AmmError::MathOverflow);
            },
        };
        let s3 = match s2.checked_add(self.creator_fee_basis_points) {
            Some(v) => v,
            None => {
                return Err(AmmError::MathOverflow);
            },
        };
        let other_sum = match s3.checked_add(CASHBACK_CHAMPION_BPS) {
            Some(v) => v,
            None => {
                return Err(AmmError::MathOverflow);
            },
        };
        if self.fee_basis_points <= other_sum {
            return Err(AmmError::InvalidFeeBasisPoints);
        }
        if self.l1_referral_fee_basis_points <= self.l2_referral_fee_basis_points {
            return Err(AmmError::InvalidAmmConfig);
        }
        if self.l2_referral_fee_basis_points <= self.l3_referral_fee_basis_points {
            return Err(AmmError::InvalidAmmConfig);
        }
        if self.creator_fee_basis_points > 1000 {
            return Err(AmmError::InvalidCreatorTradingFeePercentage);
        }
        if self.fee_basis_points > MAX_FEE_BASIS_POINTS {
            return Err(AmmError::InvalidAmmConfig);
        }
        if !(self.initial_virtual_quote_reserve > 0 && self.initial_virtual_base_reserve > 0
            && self.migration_base_threshold > 0) {
            return Err(AmmError::InvalidAmmConfig);
        }
        Ok(())
    }
}

/// The token-metadata strings a curve is created with.
#[derive(Clone, Debug)]
pub struct CreateCurveParams {
    /// Name of the token to be created
    pub name: String,
    /// Symbol (ticker) of the token to be created
    pub symbol: String,
    /// URI for the token metadata
    pub uri: String,
}

impl CreateCurveParams {
    /// The byte length of a metadata string, as the machine reads it.
    pub open spec fn spec_byte_len(chars: Seq<char>) -> usize {
        encode_utf8(chars).len() as usize
    }

    /// Which length check the metadata fails first, if any; lengths are
    /// counted in encoded bytes.
    pub open spec fn spec_validate(self) -> Result<(), AmmError> {
        if Self::spec_byte_len(self.name@) == 0 || Self::spec_byte_len(self.name@)
            > MAX_NAME_LENGTH {
            Err(AmmError::InvalidTokenName)
        } else if Self::spec_byte_len(self.symbol@) == 0 || Self::spec_byte_len(self.symbol@)
            > MAX_SYMBOL_LENGTH {
            Err(AmmError::InvalidTokenSymbol)
        } else if Self::spec_byte_len(self.uri@) == 0 || Self::spec_byte_len(self.uri@)
            > MAX_URI_LENGTH {
            Err(AmmError::InvalidTokenUri)
        } else {
            Ok(())
        }
    }

    /// Each metadata string must be nonempty and within its length limit,
    /// counted in bytes.
    pub fn validate(&self) -> (r: Result<(), AmmError>)
        ensures
            r == self.spec_validate(),
    {
        let name_len = self.name.as_str().len();
        if name_len == 0 || name_len > MAX_NAME_LENGTH {
            return Err(AmmError::InvalidTokenName);
        }
        let symbol_len = self.symbol.as_str().len();
        if symbol_len == 0 || symbol_len > MAX_SYMBOL_LENGTH {
            return Err(AmmError::InvalidTokenSymbol);
        }
        let uri_len = self.uri.as_str().len();
        if uri_len == 0 || uri_len > MAX_URI_LENGTH {
            return Err(AmmError::InvalidTokenUri);
        }
        Ok(())
    }
}

/// The curve state and swap record of one full trade, or the exact error:
/// a zero amount and a graduated curve are rejected up front, the computed
/// output must clear the slippage floor, and a trade that lands the curve
/// on its threshold records the finish time and advances the lifecycle one
/// step - toward vesting when a schedule is configured, else straight to
/// the locked phase.
pub open spec fn spec_handle_swap(
    curve: BondingCurve,
    config: Config,
    params: SwapParameters,
    trade_direction: TradeDirection,
    has_l1_referral: bool,
    has_l2_referral: bool,
    has_l3_referral: bool,
    cashback_tier: Option<CashbackTier>,
    has_vesting: bool,
    current_timestamp: u64,
) -> Result<(BondingCurve, SwapResult), AmmError> {
    if params.amount_in == 0 {
        Err(AmmError::AmountIsZero)
    } else if curve.base_reserve <= config.migration_base_threshold {
        Err(AmmError::PoolIsCompleted)
    } else {
        match curve.spec_get_swap_result(
            config,
            params.amount_in,
            trade_direction,
            has_l1_referral,
            has_l2_referral,
            has_l3_referral,
            cashback_tier,
        ) {
            Err(e) => Err(e),
            Ok(sr) => if sr.output_amount < params.minimum_amount_out {
                Err(AmmError::ExceededSlippage)
            } else {
                match curve.spec_apply_swap_result(sr, trade_direction) {
                    Err(e) => Err(e),
                    Ok(applied) => if applied.base_reserve <= config.migration_base_threshold {
                        Ok(
                            (
                                (BondingCurve {
                                    curve_finish_timestamp: current_timestamp,
                                    migration_status: if has_vesting {
                                        1u8
                                    } else {
                                        2u8
                                    },
                                    ..applied
                                }),
                                sr,
                            ),
                        )
                    } else {
                        Ok((applied, sr))
                    },
                }
            },
        }
    }
}

/// Drive one full trade: fee engine, curve evaluator, graduation cap,
/// slippage check, state commit, and the lifecycle advance when the trade
/// completes the curve. Any failure leaves the curve untouched.
#[verifier::rlimit(100)]
#[verifier::spinoff_prover]
pub fn handle_swap(
    curve: &mut BondingCurve,
    config: &Config,
    params: SwapParameters,
    trade_direction: TradeDirection,
    has_l1_referral: bool,
    has_l2_referral: bool,
    has_l3_referral: bool,
    cashback_tier: Option<CashbackTier>,
    has_vesting: bool,
    current_timestamp: u64,
) -> (r: Result<SwapResult, AmmError>)
    ensures
        r matches Ok(sr) ==> spec_handle_swap(
            *old(curve),
            *config,
            params,
            trade_direction,
            has_l1_referral,
            has_l2_referral,
            has_l3_referral,
            cashback_tier,
            has_vesting,
            current_timestamp,
        ) == Ok::<(BondingCurve, SwapResult), AmmError>((*final(curve), sr)),
        r matches Err(e) ==> spec_handle_swap(
            *old(curve),
            *config,
            params,
            trade_direction,
            has_l1_referral,
            has_l2_referral,
            has_l3_referral,
            cashback_tier,
            has_vesting,
            current_timestamp,
        ) == Err::<(BondingCurve, SwapResult), AmmError>(e),
        r is Err ==> *final(curve) == *old(curve),
{
    if params.amount_in == 0 {
        return Err(AmmError::AmountIsZero);
    }
    if curve.is_curve_complete(config.migration_base_threshold) {
        return Err(AmmError::PoolIsCompleted);
    }
    let swap_result = curve.get_swap_result(
        config,
        params.amount_in,
        trade_direction,
        has_l1_referral,
        has_l2_referral,
        has_l3_referral,
        cashback_tier,
    )?;
    if swap_result.output_amount < params.minimum_amount_out {
        return Err(AmmError::ExceededSlippage);
    }
    curve.apply_swap_result(&swap_result, trade_direction)?;
    if curve.is_curve_complete(config.migration_base_threshold) {
        curve.curve_finish_timestamp = current_timestamp;
        let next_status = if has_vesting {
            MigrationStatus::PostBondingCurve
        } else {
            MigrationStatus::LockedVesting
        };
        curve.set_migration_status(next_status.to_u8());
    }
    Ok(swap_result)
}

/// The curve state after an admin fee-type review, or the exact error: an
/// undefined raw value is rejected, re-setting the current type is
/// rejected, and only Creator-Meme relabelings and transitions into
/// Blocked exist.
pub open spec fn spec_handle_set_fee_type(
    curve: BondingCurve,
    config: Config,
    new_fee_type_raw: u8,
) -> Result<BondingCurve, AmmError> {
    match spec_fee_type_of_raw(new_fee_type_raw) {
        Err(e) => Err(e),
        Ok(new_fee_type) => match spec_fee_type_of_raw(curve.fee_type) {
            Err(e) => Err(e),
            Ok(current) => if current == new_fee_type {
                Err(AmmError::FeeTypeAlreadySet)
            } else if current == FeeType::Creator && new_fee_type == FeeType::Meme {
                curve.spec_creator_to_meme(
                    config.creator_fee_basis_points,
                    config.meme_fee_basis_points,
                )
            } else if current == FeeType::Meme && new_fee_type == FeeType::Creator {
                Ok((BondingCurve { fee_type: 0u8, ..curve }))
            } else if new_fee_type == FeeType::Blocked {
                if curve.protocol_fee + curve.creator_fee > u64::MAX {
                    Err(AmmError::MathOverflow)
                } else {
                    Ok(
                        (BondingCurve {
                            fee_type: 2u8,
                            creator_fee: 0u64,
                            protocol_fee: (curve.protocol_fee + curve.creator_fee) as u64,
                            ..curve
                        }),
                    )
                }
            } else {
                Err(AmmError::InvalidFeeType)
            },
        },
    }
}

/// Review the curve's fee type: Creator-to-Meme rescales the accrued
/// creator fee and sweeps the excess to the protocol, Meme-to-Creator
/// relabels, and either into Blocked sweeps the whole accrued creator fee
/// to the protocol. Setting the type already in force is rejected.
pub fn handle_set_fee_type(curve: &mut BondingCurve, config: &Config, new_fee_type_raw: u8) -> (r:
    Result<(), AmmError>)
    ensures
        r matches Ok(u) ==> spec_handle_set_fee_type(*old(curve), *config, new_fee_type_raw)
            == Ok::<BondingCurve, AmmError>(*final(curve)),
        r matches Err(e) ==> spec_handle_set_fee_type(*old(curve), *config, new_fee_type_raw)
            == Err::<BondingCurve, AmmError>(e),
        r is Err ==> *final(curve) == *old(curve),
{
    let new_fee_type = FeeType::try_from_u8(new_fee_type_raw)?;
    let current_fee_type = curve.get_fee_type()?;
    if current_fee_type == new_fee_type {
        return Err(AmmError::FeeTypeAlreadySet);
    }
    match (current_fee_type, new_fee_type) {
        (FeeType::Creator, FeeType::Meme) => {
            curve.fee_type_update_from_creator_to_meme(
                config.creator_fee_basis_points,
                config.meme_fee_basis_points,
            )?;
            Ok(())
        },
        (FeeType::Meme, FeeType::Creator) => {
            curve.fee_type_update_from_meme_to_creator()?;
            Ok(())
        },
        (_, FeeType::Blocked) => {
            curve.fee_type_update_to_blocked()?;
            Ok(())
        },
        _ => Err(AmmError::InvalidFeeType),
    }
}

/// Create a user's cashback account; the claim clock starts now.
pub fn handle_create_cashback(account: &mut CashbackAccount, owner: Pubkey, current_timestamp: i64)
    -> (r: Result<(), AmmError>)
    ensures
        r is Ok,
        final(account).owner == owner,
        final(account).current_tier == 0,
        final(account).last_claim_timestamp == current_timestamp,
{
    account.init(owner, current_timestamp);
    Ok(())
}

/// The account state and paid amount of a cashback claim, or the exact
/// error: the cooldown must have elapsed and the claimable balance must be
/// positive; success advances the claim clock to the supplied time.
pub open spec fn spec_handle_claim_cashback(
    account: CashbackAccount,
    claimable_amount: u64,
    current_timestamp: i64,
) -> Result<(CashbackAccount, u64), AmmError> {
    if current_timestamp - account.last_claim_timestamp < CASHBACK_CLAIM_COOLDOWN {
        Err(AmmError::ClaimCooldownNotMet)
    } else if claimable_amount == 0 {
        Err(AmmError::NoCashbackToClaim)
    } else {
        Ok(
            (
                (CashbackAccount { last_claim_timestamp: current_timestamp, ..account }),
                claimable_amount,
            ),
        )
    }
}

/// Claim the accumulated cashback balance: allowed once per cooldown
/// window and only for a positive balance; a successful claim resets the
/// claim clock to the supplied time.
pub fn handle_claim_cashback(
    account: &mut CashbackAccount,
    claimable_amount: u64,
    current_timestamp: i64,
) -> (r: Result<u64, AmmError>)
    requires
        current_timestamp - old(account).last_claim_timestamp <= i64::MAX,
        current_timestamp - old(account).last_claim_timestamp >= i64::MIN,
    ensures
        r matches Ok(v) ==> spec_handle_claim_cashback(
            *old(account),
            claimable_amount,
            current_timestamp,
        ) == Ok::<(CashbackAccount, u64), AmmError>((*final(account), v)),
        r matches Err(e) ==> spec_handle_claim_cashback(
            *old(account),
            claimable_amount,
            current_timestamp,
        ) == Err::<(CashbackAccount, u64), AmmError>(e),
        r is Err ==> *final(account) == *old(account),
{
    let time_since_last_claim = current_timestamp - account.last_claim_timestamp;
    if time_since_last_claim < CASHBACK_CLAIM_COOLDOWN {
        return Err(AmmError::ClaimCooldownNotMet);
    }
    if claimable_amount == 0 {
        return Err(AmmError::NoCashbackToClaim);
    }
    account.update_claim_timestamp(current_timestamp)?;
    Ok(claimable_amount)
}

/// Reclaim the unclaimed balance of a dormant account for the protocol:
/// allowed only after the inactivity window and for a positive balance.
/// The claim clock is left untouched, so the account simply stays dormant.
pub fn handle_reclaim_cashback(
    account: &CashbackAccount,
    reclaimable_amount: u64,
    current_timestamp: i64,
) -> (r: Result<u64, AmmError>)
    requires
        current_timestamp - account.last_claim_timestamp <= i64::MAX,
        current_timestamp - account.last_claim_timestamp >= i64::MIN,
    ensures
        current_timestamp - account.last_claim_timestamp < CASHBACK_INACTIVE_PERIOD ==> r
            == Err::<u64, AmmError>(AmmError::AccountNotInactive),
        current_timestamp - account.last_claim_timestamp >= CASHBACK_INACTIVE_PERIOD
            && reclaimable_amount == 0 ==> r == Err::<u64, AmmError>(AmmError::NoCashbackToClaim),
        current_timestamp - account.last_claim_timestamp >= CASHBACK_INACTIVE_PERIOD
            && reclaimable_amount > 0 ==> r == Ok::<u64, AmmError>(reclaimable_amount),
{
    let time_since_last_claim = current_timestamp - account.last_claim_timestamp;
    if time_since_last_claim < CASHBACK_INACTIVE_PERIOD {
        return Err(AmmError::AccountNotInactive);
    }
    if reclaimable_amount == 0 {
        return Err(AmmError::NoCashbackToClaim);
    }
    Ok(reclaimable_amount)
}

/// Assign a user's cashback tier; any raw value is stored and clamped on
/// read.
pub fn handle_update_cashback_tier(account: &mut CashbackAccount, new_tier: u8) -> (r: Result<
    (),
    AmmError,
>)
    ensures
        r is Ok,
        final(account).current_tier == new_tier,
        final(account).owner == old(account).owner,
        final(account).last_claim_timestamp == old(account).last_claim_timestamp,
{
    account.update_tier(new_tier)?;
    Ok(())
}

/// The curve state and paid amount of a protocol-fee claim, or the exact
/// error. Before migration completes, the accrued protocol fee is paid
/// and cleared; after, the whole remaining quote vault is swept and the
/// counter cleared with it. An empty claim is reported, not paid.
pub open spec fn spec_handle_claim_protocol_fee(
    curve: BondingCurve,
    quote_vault_amount: u64,
) -> Result<(BondingCurve, u64), AmmError> {
    match spec_migration_status_of_raw(curve.migration_status) {
        Err(e) => Err(e),
        Ok(status) => {
            let amount = if status == MigrationStatus::CreatedPool {
                quote_vault_amount
            } else {
                curve.protocol_fee
            };
            if amount == 0 {
                Err(AmmError::NothingToClaim)
            } else {
                Ok(((BondingCurve { protocol_fee: 0u64, ..curve }), amount))
            }
        },
    }
}

/// Claim the accrued protocol fee, or, once the pool has been created,
/// sweep the whole remaining quote vault. Nothing is paid or cleared on an
/// empty claim.
pub fn handle_claim_protocol_fee(curve: &mut BondingCurve, quote_vault_amount: u64) -> (r: Result<
    u64,
    AmmError,
>)
    ensures
        r matches Ok(v) ==> spec_handle_claim_protocol_fee(*old(curve), quote_vault_amount)
            == Ok::<(BondingCurve, u64), AmmError>((*final(curve), v)),
        r matches Err(e) ==> spec_handle_claim_protocol_fee(*old(curve), quote_vault_amount)
            == Err::<(BondingCurve, u64), AmmError>(e),
        r is Err ==> *final(curve) == *old(curve),
{
    let migration_status = curve.get_migration_progress()?;
    let quote_token_claim_amount: u64 = if migration_status == MigrationStatus::CreatedPool {
        quote_vault_amount
    } else {
        curve.protocol_fee
    };
    if quote_token_claim_amount == 0 {
        return Err(AmmError::NothingToClaim);
    }
    curve.claim_protocol_fee();
    Ok(quote_token_claim_amount)
}

/// Claim the accrued creator/meme fee; an empty claim is reported, not
/// paid, and clears nothing.
pub fn handle_claim_creator_fee(curve: &mut BondingCurve) -> (r: Result<u64, AmmError>)
    ensures
        old(curve).creator_fee == 0 ==> r == Err::<u64, AmmError>(AmmError::NothingToClaim)
            && *final(curve) == *old(curve),
        old(curve).creator_fee > 0 ==> r == Ok::<u64, AmmError>(old(curve).creator_fee)
            && *final(curve) == (BondingCurve { creator_fee: 0u64, ..*old(curve) }),
{
    if curve.creator_fee == 0 {
        return Err(AmmError::NothingToClaim);
    }
    let quote_token_claim_amount = curve.claim_creator_fee();
    Ok(quote_token_claim_amount)
}

/// Hand the vested tokens to the locker: allowed exactly once, in the
/// post-bonding phase, and advances the lifecycle to the locked phase.
pub fn handle_create_locker(curve: &mut BondingCurve) -> (r: Result<(), AmmError>)
    ensures
        r is Ok <==> spec_migration_status_of_raw(old(curve).migration_status) == Ok::<
            MigrationStatus,
            AmmError,
        >(MigrationStatus::PostBondingCurve),
        r is Ok ==> *final(curve) == (BondingCurve { migration_status: 2u8, ..*old(curve) }),
        r is Err ==> *final(curve) == *old(curve),
{
    let progress = curve.get_migration_progress();
    match progress {
        Ok(status) => {
            if status != MigrationStatus::PostBondingCurve {
                return Err(AmmError::NotPermitToDoThisAction);
            }
            curve.set_migration_status(MigrationStatus::LockedVesting.to_u8());
            Ok(())
        },
        Err(e) => Err(e),
    }
}

/// Check the external pool configuration the migration will seed: it must
/// take no partner fee, span exactly the engine's global price bounds, and
/// carry no vault configuration. The caller reads these fields off the
/// pool program's account and hands them in as plain values.
pub fn validate_damm_config_key(
    partner_fee_percent: u8,
    sqrt_min_price: u128,
    sqrt_max_price: u128,
    vault_config_key_is_default: bool,
) -> (r: Result<(), AmmError>)
    ensures
        r is Ok <==> (partner_fee_percent == 0 && sqrt_min_price == MIN_SQRT_PRICE
            && sqrt_max_price == MAX_SQRT_PRICE && vault_config_key_is_default),
        r is Err ==> r == Err::<(), AmmError>(AmmError::InvalidConfigAccount),
{
    if partner_fee_percent != 0 {
        return Err(AmmError::InvalidConfigAccount);
    }
    if sqrt_min_price != MIN_SQRT_PRICE {
        return Err(AmmError::InvalidConfigAccount);
    }
    if sqrt_max_price != MAX_SQRT_PRICE {
        return Err(AmmError::InvalidConfigAccount);
    }
    if !vault_config_key_is_default {
        return Err(AmmError::InvalidConfigAccount);
    }
    Ok(())
}

/// What the migration hands the external pool: the liquidity to seed, the
/// price to seed it at, and the quote amount deposited.
#[derive(Clone, Copy, Debug, PartialEq, Eq, Structural)]
pub struct MigrationPlan {
    pub initial_liquidity: u128,
    pub sqrt_price: u128,
    pub quote_amount: u64,
}

/// Migrate a completed curve into the external pool: allowed only in the
/// locked phase and once the base reserve sits at or under its threshold.
/// The quote deposit keeps back the migration fee, rounded in the
/// protocol's favor; the seeded liquidity is the largest both deposits
/// support; and the lifecycle advances to its terminal state.
pub fn handle_migrate_damm_v2(
    curve: &mut BondingCurve,
    config: &Config,
    base_vault_amount: u64,
    migration_sqrt_price: u128,
) -> (r: Result<MigrationPlan, AmmError>)
    requires
        MIN_SQRT_PRICE < migration_sqrt_price < MAX_SQRT_PRICE,
    ensures
        r is Err ==> *final(curve) == *old(curve),
        spec_migration_status_of_raw(old(curve).migration_status) != Ok::<
            MigrationStatus,
            AmmError,
        >(MigrationStatus::LockedVesting) && spec_migration_status_of_raw(
            old(curve).migration_status,
        ) is Ok ==> r == Err::<MigrationPlan, AmmError>(AmmError::NotPermitToDoThisAction),
        spec_migration_status_of_raw(old(curve).migration_status) == Ok::<
            MigrationStatus,
            AmmError,
        >(MigrationStatus::LockedVesting) && old(curve).base_reserve
            > config.migration_base_threshold ==> r == Err::<MigrationPlan, AmmError>(
            AmmError::PoolIsIncompleted,
        ),
        (spec_migration_status_of_raw(old(curve).migration_status) == Ok::<
            MigrationStatus,
            AmmError,
        >(MigrationStatus::LockedVesting) && old(curve).base_reserve
            <= config.migration_base_threshold) ==> (r is Ok <==> spec_mul_div(
            old(curve).quote_reserve as int,
            FEE_DENOMINATOR - config.migration_fee_basis_points,
            FEE_DENOMINATOR as int,
            Rounding::Up,
        ) * 0x100000000000000000000000000000000int / (migration_sqrt_price - MIN_SQRT_PRICE)
            <= u128::MAX),
        r matches Ok(plan) ==> ({
            let quote_amount = spec_mul_div(
                old(curve).quote_reserve as int,
                FEE_DENOMINATOR - config.migration_fee_basis_points,
                FEE_DENOMINATOR as int,
                Rounding::Up,
            );
            let from_base = (base_vault_amount * migration_sqrt_price) * MAX_SQRT_PRICE / (
            MAX_SQRT_PRICE - migration_sqrt_price);
            let from_quote = quote_amount * 0x100000000000000000000000000000000int / (
            migration_sqrt_price - MIN_SQRT_PRICE);
            plan.quote_amount == quote_amount && plan.sqrt_price == migration_sqrt_price
                && plan.initial_liquidity == (if from_base > from_quote {
                from_quote
            } else {
                from_base
            }) && *final(curve) == (BondingCurve {
                is_migrated: 1u8,
                migration_status: 3u8,
                ..*old(curve)
            })
        }),
{
    let migration_status = curve.get_migration_progress()?;
    if migration_status != MigrationStatus::LockedVesting {
        return Err(AmmError::NotPermitToDoThisAction);
    }
    if !curve.is_curve_complete(config.migration_base_threshold) {
        return Err(AmmError::PoolIsIncompleted);
    }
    let migration_amount = curve.get_migration_amount(config.migration_fee_basis_points)?;
    let initial_liquidity = get_liquidity_for_adding_liquidity(
        base_vault_amount,
        migration_amount.quote_amount,
        migration_sqrt_price,
    )?;
    curve.update_after_migration();
    curve.set_migration_status(MigrationStatus::CreatedPool.to_u8());
    Ok(
        MigrationPlan {
            initial_liquidity,
            sqrt_price: migration_sqrt_price,
            quote_amount: migration_amount.quote_amount,
        },
    )
}

/// Cashback cooldown law: a successful claim pays the full balance and
/// advances the claim clock to the supplied time, so a second claim within
/// the cooldown window always fails with `ClaimCooldownNotMet`.
pub proof fn lemma_cashback_double_claim_blocked(
    account: CashbackAccount,
    claimable_amount: u64,
    first_now: i64,
    claimed_account: CashbackAccount,
    paid: u64,
    second_claimable: u64,
    second_now: i64,
)
    requires
        spec_handle_claim_cashback(account, claimable_amount, first_now) == Ok::<
            (CashbackAccount, u64),
            AmmError,
        >((claimed_account, paid)),
        second_now - first_now < CASHBACK_CLAIM_COOLDOWN,
    ensures
        paid == claimable_amount,
        claimed_account.last_claim_timestamp == first_now,
        spec_handle_claim_cashback(claimed_account, second_claimable, second_now) == Err::<
            (CashbackAccount, u64),
            AmmError,
        >(AmmError::ClaimCooldownNotMet),
{
}

/// Create a configuration: validate the numeric parameter set, then record
/// it together with the quote mint's own properties. The quote-mint
/// support check itself is account-level and happens outside.
pub fn handle_create_config(
    config: &mut Config,
    config_params: ConfigParameters,
    quote_mint: &Pubkey,
    fee_claimer: &Pubkey,
    quote_token_flag: u8,
    quote_decimal: u8,
) -> (r: Result<(), AmmError>)
    ensures
        r matches Err(e) ==> Err::<(), AmmError>(e) == config_params.spec_validate(),
        r is Err ==> *final(config) == *old(config),
        r is Ok ==> config_params.spec_validate() is Ok,
        r is Ok ==> *final(config) == (Config {
            quote_mint: *quote_mint,
            fee_claimer: *fee_claimer,
            base_token_flag: config_params.base_token_flag,
            quote_token_flag,
            base_decimal: config_params.base_decimal,
            quote_decimal,
            fee_basis_points: config_params.fee_basis_points,
            l1_referral_fee_basis_points: config_params.l1_referral_fee_basis_points,
            l2_referral_fee_basis_points: config_params.l2_referral_fee_basis_points,
            l3_referral_fee_basis_points: config_params.l3_referral_fee_basis_points,
            referee_discount_basis_points: config_params.referee_discount_basis_points,
            creator_fee_basis_points: config_params.creator_fee_basis_points,
            meme_fee_basis_points: config_params.meme_fee_basis_points,
            migration_fee_basis_points: config_params.migration_fee_basis_points,
            migration_base_threshold: config_params.migration_base_threshold,
            migration_quote_threshold: config_params.migration_quote_threshold,
            initial_virtual_quote_reserve: config_params.initial_virtual_quote_reserve,
            initial_virtual_base_reserve: config_params.initial_virtual_base_reserve,
        }),
{
    config_params.validate()?;
    config.init(
        quote_mint,
        fee_claimer,
        config_params.base_token_flag,
        quote_token_flag,
        config_params.base_decimal,
        quote_decimal,
        config_params.fee_basis_points,
        config_params.l1_referral_fee_basis_points,
        config_params.l2_referral_fee_basis_points,
        config_params.l3_referral_fee_basis_points,
        config_params.referee_discount_basis_points,
        config_params.creator_fee_basis_points,
        config_params.meme_fee_basis_points,
        config_params.migration_fee_basis_points,
        config_params.migration_base_threshold,
        config_params.migration_quote_threshold,
        config_params.initial_virtual_quote_reserve,
        config_params.initial_virtual_base_reserve,
    );
    Ok(())
}

/// Create a token's bonding curve: the configuration must name the plain
/// SPL token family, the metadata strings must validate, and the curve
/// starts with the full token supply and the configured virtual reserves.
/// Minting the supply and writing the metadata happen outside, with the
/// values recorded here.
pub fn handle_create_curve_spl_token(
    curve: &mut BondingCurve,
    config: &Config,
    params: &CreateCurveParams,
    config_key: Pubkey,
    creator: Pubkey,
    base_mint: Pubkey,
    base_vault: Pubkey,
    quote_vault: Pubkey,
) -> (r: Result<(), AmmError>)
    ensures
        config.base_token_flag != 0 ==> r == Err::<(), AmmError>(AmmError::InvalidTokenType),
        config.base_token_flag == 0 ==> (params.spec_validate() matches Err(e) ==> r == Err::<
            (),
            AmmError,
        >(e)),
        r is Err ==> *final(curve) == *old(curve),
        r is Ok <==> (config.base_token_flag == 0 && params.spec_validate() is Ok),
        r is Ok ==> final(curve).base_reserve == TOKEN_TOTAL_SUPPLY
            && final(curve).virtual_quote_reserve == config.initial_virtual_quote_reserve
            && final(curve).virtual_base_reserve == config.initial_virtual_base_reserve
            && final(curve).config == config_key && final(curve).creator == creator
            && final(curve).base_mint == base_mint && final(curve).base_vault == base_vault
            && final(curve).quote_vault == quote_vault && final(curve).curve_type == 0,
{
    let token_type = TokenType::try_from_u8(config.base_token_flag)?;
    if token_type != TokenType::SplToken {
        return Err(AmmError::InvalidTokenType);
    }
    params.validate()?;
    curve.init(
        config_key,
        creator,
        base_mint,
        base_vault,
        quote_vault,
        CurveType::SplToken.to_u8(),
        TOKEN_TOTAL_SUPPLY,
        config.initial_virtual_quote_reserve,
        config.initial_virtual_base_reserve,
    );
    Ok(())
}

} // verus!
