//! Mutable per-pair state and the constant-product pricing variant: virtual
//! reserves, swap computation with graduation capping, fee accrual, the
//! migration-status state machine and the fee-type state machine.
use vstd::prelude::*;
use vstd::arithmetic::div_mod::lemma_div_is_ordered;
use vstd::arithmetic::div_mod::lemma_div_is_ordered_by_denominator;
use vstd::arithmetic::div_mod::lemma_div_multiples_vanish;
use vstd::arithmetic::div_mod::lemma_div_of0;

use crate::cashback::CashbackTier;
use crate::config::Config;
use crate::config::FeeBreakdown;
use crate::config::FeeType;
use crate::constants::FEE_DENOMINATOR;
use crate::errors::AmmError;
use crate::math::safe_mul_div_cast_u64;
use crate::math::spec_mul_div;
use crate::math::Rounding;
use crate::math::SafeMath;
use crate::params::TradeDirection;
use crate::Pubkey;

verus! {

/// Result of checking whether a trade pushes the curve past its migration
/// threshold.
#[derive(Clone, Copy, Debug, PartialEq, Eq, Structural)]
pub struct GraduationCheck {
    pub will_graduate: bool,
    /// base output that lands the reserve exactly on the threshold
    pub capped_amount: u64,
}

/// Token program family the curve's base mint uses.
#[derive(Clone, Copy, Debug, PartialEq, Eq, Structural)]
pub enum CurveType {
    SplToken,
    Token2022,
}

impl CurveType {
    /// The raw value denoting this curve type.
    pub fn to_u8(&self) -> (r: u8)
        ensures
            *self == CurveType::SplToken ==> r == 0,
            *self == CurveType::Token2022 ==> r == 1,
    {
        match self {
            CurveType::SplToken => 0,
            CurveType::Token2022 => 1,
        }
    }
}

/// Lifecycle phase of a curve, strictly forward-moving:
/// PreBondingCurve, then PostBondingCurve when a vesting schedule must run
/// first, then LockedVesting, and finally the terminal CreatedPool.
#[derive(Clone, Copy, Debug, PartialEq, Eq, Structural)]
pub enum MigrationStatus {
    PreBondingCurve,
    PostBondingCurve,
    LockedVesting,
    CreatedPool,
}

/// The raw value denoting a migration status; also its order in the
/// forward-only lifecycle.
pub open spec fn spec_migration_status_raw(s: MigrationStatus) -> u8 {
    match s {
        MigrationStatus::PreBondingCurve => 0,
        MigrationStatus::PostBondingCurve => 1,
        MigrationStatus::LockedVesting => 2,
        MigrationStatus::CreatedPool => 3,
    }
}

impl MigrationStatus {
    /// The raw value denoting this status.
    pub fn to_u8(&self) -> (r: u8)
        ensures
            r == spec_migration_status_raw(*self),
    {
        match self {
            MigrationStatus::PreBondingCurve => 0,
            MigrationStatus::PostBondingCurve => 1,
            MigrationStatus::LockedVesting => 2,
            MigrationStatus::CreatedPool => 3,
        }
    }
}

/// The status a raw value denotes, if any.
pub open spec fn spec_migration_status_of_raw(v: u8) -> Result<MigrationStatus, AmmError> {
    if v == 0 {
        Ok(MigrationStatus::PreBondingCurve)
    } else if v == 1 {
        Ok(MigrationStatus::PostBondingCurve)
    } else if v == 2 {
        Ok(MigrationStatus::LockedVesting)
    } else if v == 3 {
        Ok(MigrationStatus::CreatedPool)
    } else {
        Err(AmmError::TypeCastFailed)
    }
}

/// The fee type a raw value denotes, if any.
pub open spec fn spec_fee_type_of_raw(v: u8) -> Result<FeeType, AmmError> {
    if v == 0 {
        Ok(FeeType::Creator)
    } else if v == 1 {
        Ok(FeeType::Meme)
    } else if v == 2 {
        Ok(FeeType::Blocked)
    } else {
        Err(AmmError::InvalidFeeType)
    }
}

/// Mutable state of one listed pair.
#[derive(Clone, Copy, Debug)]
pub struct BondingCurve {
    /// which config this bonding curve belongs to
    pub config: Pubkey,
    /// token creator
    pub creator: Pubkey,
    /// base mint
    pub base_mint: Pubkey,
    /// base vault
    pub base_vault: Pubkey,
    /// quote vault
    pub quote_vault: Pubkey,
    /// base reserve
    pub base_reserve: u64,
    /// virtual base reserve, used for price calculation
    pub virtual_base_reserve: u64,
    /// quote reserve
    pub quote_reserve: u64,
    /// virtual quote reserve, used for price calculation
    pub virtual_quote_reserve: u64,
    /// curve type, spl token or token2022
    pub curve_type: u8,
    /// set once the liquidity has moved to the external pool
    pub is_migrated: u8,
    /// migration status ordinal
    pub migration_status: u8,
    /// fee type ordinal: creator, meme, or blocked
    pub fee_type: u8,
    /// the time the curve finished
    pub curve_finish_timestamp: u64,
    /// accrued, unclaimed protocol fee
    pub protocol_fee: u64,
    /// accrued, unclaimed creator/meme fee
    pub creator_fee: u64,
}

impl Default for BondingCurve {
    /// A zeroed curve, as a freshly allocated account reads.
    fn default() -> (r: Self)
        ensures
            r.base_reserve == 0 && r.virtual_base_reserve == 0,
            r.quote_reserve == 0 && r.virtual_quote_reserve == 0,
            r.curve_type == 0 && r.is_migrated == 0 && r.migration_status == 0,
            r.fee_type == 0 && r.curve_finish_timestamp == 0,
            r.protocol_fee == 0 && r.creator_fee == 0,
    {
        BondingCurve {
            config: [0u8; 32],
            creator: [0u8; 32],
            base_mint: [0u8; 32],
            base_vault: [0u8; 32],
            quote_vault: [0u8; 32],
            base_reserve: 0,
            virtual_base_reserve: 0,
            quote_reserve: 0,
            virtual_quote_reserve: 0,
            curve_type: 0,
            is_migrated: 0,
            migration_status: 0,
            fee_type: 0,
            curve_finish_timestamp: 0,
            protocol_fee: 0,
            creator_fee: 0,
        }
    }
}

/// Encodes all results of swapping.
#[derive(Clone, Copy, Debug, PartialEq, Eq, Structural)]
pub struct SwapResult {
    pub actual_input_amount: u64,
    pub output_amount: u64,
    pub trading_fee: u64,
    pub protocol_fee: u64,
    pub cashback_fee: u64,
    pub creator_fee: u64,
    pub l1_referral_fee: u64,
    pub l2_referral_fee: u64,
    pub l3_referral_fee: u64,
}

/// What the curve hands the migration collaborator after the migration fee.
#[derive(Clone, Copy, Debug, PartialEq, Eq, Structural)]
pub struct MigrationAmount {
    pub quote_amount: u64,
    pub base_amount: u64,
}

/// The buy-side constant-product computation, step for step: the base
/// scaled by 1000 to correct the decimal asymmetry, the invariant `k`, and
/// the base paid out for the injected quote amount. `MathOverflow` exactly
/// when `k` exceeds 128 bits or the new quote reserve is zero.
pub open spec fn spec_buy_output(vq: int, vb: int, amount_in: int) -> Result<u64, AmmError> {
    let vbs = vb * 1000;
    if vq * vbs > u128::MAX {
        Err(AmmError::MathOverflow)
    } else {
        let k = vq * vbs;
        let new_vq = vq + amount_in;
        if new_vq == 0 {
            Err(AmmError::MathOverflow)
        } else {
            Ok((((vbs - k / new_vq)) / 1000) as u64)
        }
    }
}

/// The sell-side constant-product computation, step for step: the quote
/// paid out for the injected base amount. `MathOverflow` exactly when `k`
/// exceeds 128 bits or the new scaled base reserve is zero.
pub open spec fn spec_sell_output(vq: int, vb: int, amount_in: int) -> Result<u64, AmmError> {
    let vbs = vb * 1000;
    let new_vbs = vbs + amount_in * 1000;
    if vbs * vq > u128::MAX {
        Err(AmmError::MathOverflow)
    } else if new_vbs == 0 {
        Err(AmmError::MathOverflow)
    } else {
        Ok((vq - (vbs * vq) / new_vbs) as u64)
    }
}

/// aka buy: inject quote, receive base, with `virtual_quote * scaled
/// virtual_base` held constant up to the rounding of the final division.
pub fn get_swap_amount_from_quote_to_base(virtual_quote: u128, virtual_base: u128, amount_in: u64)
    -> (r: Result<u64, AmmError>)
    requires
        virtual_quote <= u64::MAX,
        virtual_base <= u64::MAX,
    ensures
        r == spec_buy_output(virtual_quote as int, virtual_base as int, amount_in as int),
{
    let virtual_base_scaled = virtual_base.safe_mul(1000)?;
    let k = virtual_quote.safe_mul(virtual_base_scaled)?;
    let new_virtual_quote = virtual_quote.safe_add(amount_in as u128)?;
    let new_virtual_base_scaled = k.safe_div(new_virtual_quote)?;
    proof {
        if virtual_quote > 0 {
            lemma_div_is_ordered_by_denominator(
                k as int,
                virtual_quote as int,
                new_virtual_quote as int,
            );
            lemma_div_multiples_vanish(virtual_base_scaled as int, virtual_quote as int);
        } else {
            assert(k as int == 0) by (nonlinear_arith)
                requires
                    k as int == virtual_quote as int * virtual_base_scaled as int,
                    virtual_quote as int == 0,
            ;
            lemma_div_of0(new_virtual_quote as int);
        }
        assert(new_virtual_base_scaled <= virtual_base_scaled);
    }
    let diff = virtual_base_scaled.safe_sub(new_virtual_base_scaled)?;
    let base_out_amount = diff.safe_div(1000)?;
    proof {
        lemma_div_is_ordered(diff as int, virtual_base_scaled as int, 1000);
        lemma_div_multiples_vanish(virtual_base as int, 1000);
    }
    Ok(base_out_amount as u64)
}

/// aka sell: inject base, receive quote, under the same constant product.
pub fn get_swap_amount_from_base_to_quote(virtual_quote: u128, virtual_base: u128, amount_in: u64)
    -> (r: Result<u64, AmmError>)
    requires
        virtual_quote <= u64::MAX,
        virtual_base <= u64::MAX,
    ensures
        r == spec_sell_output(virtual_quote as int, virtual_base as int, amount_in as int),
{
    let virtual_base_scaled = virtual_base.safe_mul(1000)?;
    let amount_in_scaled = (amount_in as u128).safe_mul(1000)?;
    let new_virtual_base_scaled = virtual_base_scaled.safe_add(amount_in_scaled)?;
    let k = virtual_base_scaled.safe_mul(virtual_quote)?;
    let new_quote = k.safe_div(new_virtual_base_scaled)?;
    proof {
        if virtual_base_scaled > 0 {
            lemma_div_is_ordered_by_denominator(
                k as int,
                virtual_base_scaled as int,
                new_virtual_base_scaled as int,
            );
            lemma_div_multiples_vanish(virtual_quote as int, virtual_base_scaled as int);
        } else {
            assert(k as int == 0) by (nonlinear_arith)
                requires
                    k as int == virtual_base_scaled as int * virtual_quote as int,
                    virtual_base_scaled as int == 0,
            ;
            lemma_div_of0(new_virtual_base_scaled as int);
        }
        assert(new_quote <= virtual_quote);
    }
    let quote_out_amount = virtual_quote.safe_sub(new_quote)?;
    Ok(quote_out_amount as u64)
}

impl BondingCurve {
    /// Seed a fresh curve: identity fields, the initial reserves, and every
    /// lifecycle counter at its starting value.
    pub fn init(
        &mut self,
        config: Pubkey,
        creator: Pubkey,
        base_mint: Pubkey,
        base_vault: Pubkey,
        quote_vault: Pubkey,
        curve_type: u8,
        base_reserve: u64,
        virtual_quote_reserve: u64,
        virtual_base_reserve: u64,
    )
        ensures
            final(self).config == config && final(self).creator == creator,
            final(self).base_mint == base_mint,
            final(self).base_vault == base_vault && final(self).quote_vault == quote_vault,
            final(self).curve_type == curve_type,
            final(self).base_reserve == base_reserve,
            final(self).virtual_quote_reserve == virtual_quote_reserve,
            final(self).virtual_base_reserve == virtual_base_reserve,
            final(self).quote_reserve == old(self).quote_reserve,
            final(self).is_migrated == old(self).is_migrated,
            final(self).migration_status == old(self).migration_status,
            final(self).fee_type == old(self).fee_type,
            final(self).curve_finish_timestamp == old(self).curve_finish_timestamp,
            final(self).protocol_fee == old(self).protocol_fee,
            final(self).creator_fee == old(self).creator_fee,
    {
        self.config = config;
        self.creator = creator;
        self.base_mint = base_mint;
        self.base_vault = base_vault;
        self.quote_vault = quote_vault;
        self.curve_type = curve_type;
        self.base_reserve = base_reserve;
        self.virtual_quote_reserve = virtual_quote_reserve;
        self.virtual_base_reserve = virtual_base_reserve;
    }

    /// The audit record of this curve's creation, for the observability
    /// collaborator.
    pub fn event(
        &self,
        curve_key: Pubkey,
        quote_mint: Pubkey,
        name: String,
        symbol: String,
        uri: String,
        initial_virtual_quote_reserve: u64,
        initial_virtual_base_reserve: u64,
    ) -> (r: crate::events::EvtInitializeCurve)
        ensures
            r.curve == curve_key && r.quote_mint == quote_mint,
            r.config == self.config && r.creator == self.creator,
            r.base_mint == self.base_mint && r.curve_type == self.curve_type,
            r.name == name && r.symbol == symbol && r.uri == uri,
            r.initial_virtual_quote_reserve == initial_virtual_quote_reserve,
            r.initial_virtual_base_reserve == initial_virtual_base_reserve,
    {
        crate::events::EvtInitializeCurve {
            curve: curve_key,
            config: self.config,
            creator: self.creator,
            base_mint: self.base_mint,
            quote_mint,
            curve_type: self.curve_type,
            name,
            symbol,
            uri,
            initial_virtual_quote_reserve,
            initial_virtual_base_reserve,
        }
    }

    /// The curve has graduated once the base reserve has been traded down
    /// to the migration threshold.
    pub fn is_curve_complete(&self, migration_base_threshold: u64) -> (b: bool)
        ensures
            b <==> self.base_reserve <= migration_base_threshold,
    {
        self.base_reserve <= migration_base_threshold
    }

    /// Overwrite the raw migration status; callers advance it only forward.
    pub fn set_migration_status(&mut self, status: u8)
        ensures
            *final(self) == (BondingCurve { migration_status: status, ..*old(self) }),
    {
        self.migration_status = status;
    }

    /// Read the lifecycle phase; a raw value outside the defined order is a
    /// cast failure.
    pub fn get_migration_progress(&self) -> (r: Result<MigrationStatus, AmmError>)
        ensures
            r == spec_migration_status_of_raw(self.migration_status),
    {
        match self.migration_status {
            0 => Ok(MigrationStatus::PreBondingCurve),
            1 => Ok(MigrationStatus::PostBondingCurve),
            2 => Ok(MigrationStatus::LockedVesting),
            3 => Ok(MigrationStatus::CreatedPool),
            _ => Err(AmmError::TypeCastFailed),
        }
    }

    /// Mark the liquidity as moved to the external pool.
    pub fn update_after_migration(&mut self)
        ensures
            *final(self) == (BondingCurve { is_migrated: 1, ..*old(self) }),
    {
        self.is_migrated = 1;
    }

    /// Take the accrued protocol fee, clearing it to zero.
    pub fn claim_protocol_fee(&mut self) -> (r: u64)
        ensures
            r == old(self).protocol_fee,
            *final(self) == (BondingCurve { protocol_fee: 0, ..*old(self) }),
    {
        let claim_amount = self.protocol_fee;
        self.protocol_fee = 0u64;
        claim_amount
    }

    /// Take the accrued creator/meme fee, clearing it to zero.
    pub fn claim_creator_fee(&mut self) -> (r: u64)
        ensures
            r == old(self).creator_fee,
            *final(self) == (BondingCurve { creator_fee: 0, ..*old(self) }),
    {
        let claim_amount = self.creator_fee;
        self.creator_fee = 0u64;
        claim_amount
    }

    /// The reserves owed to the migration pool once the migration fee, both
    /// sides rounded in the protocol's favor, has been kept back.
    pub fn get_migration_amount(&self, migration_fee_basis_points: u16) -> (r: Result<
        MigrationAmount,
        AmmError,
    >)
        requires
            migration_fee_basis_points <= FEE_DENOMINATOR,
        ensures
            r matches Ok(m) ==> m.quote_amount == spec_mul_div(
                self.quote_reserve as int,
                FEE_DENOMINATOR - migration_fee_basis_points,
                FEE_DENOMINATOR as int,
                Rounding::Up,
            ),
            r matches Ok(m) ==> m.base_amount == spec_mul_div(
                self.base_reserve as int,
                FEE_DENOMINATOR - migration_fee_basis_points,
                FEE_DENOMINATOR as int,
                Rounding::Up,
            ),
            r is Ok,
    {
        proof {
            lemma_mul_div_up_le(self.quote_reserve as int, FEE_DENOMINATOR
                - migration_fee_basis_points);
            lemma_mul_div_up_le(self.base_reserve as int, FEE_DENOMINATOR
                - migration_fee_basis_points);
        }
        let keep_bps: u64 = FEE_DENOMINATOR - (migration_fee_basis_points as u64);
        let quote_amount: u64 = safe_mul_div_cast_u64(
            self.quote_reserve,
            keep_bps,
            FEE_DENOMINATOR,
            Rounding::Up,
        )?;
        let base_amount: u64 = safe_mul_div_cast_u64(
            self.base_reserve,
            keep_bps,
            FEE_DENOMINATOR,
            Rounding::Up,
        )?;
        Ok(MigrationAmount { quote_amount, base_amount })
    }

    /// Read the curve's fee type; a raw value outside the defined set is
    /// rejected.
    pub fn get_fee_type(&self) -> (r: Result<FeeType, AmmError>)
        ensures
            r == spec_fee_type_of_raw(self.fee_type),
    {
        match self.fee_type {
            0 => Ok(FeeType::Creator),
            1 => Ok(FeeType::Meme),
            2 => Ok(FeeType::Blocked),
            _ => Err(AmmError::InvalidFeeType),
        }
    }

    /// The curve state after a Creator-to-Meme fee transition, or the
    /// exact arithmetic fault of the rescale.
    pub open spec fn spec_creator_to_meme(
        self,
        creator_fee_basis_points: u16,
        meme_fee_basis_points: u16,
    ) -> Result<BondingCurve, AmmError> {
        if creator_fee_basis_points == 0 {
            Err(AmmError::MathOverflow)
        } else {
            let rescaled = spec_mul_div(
                self.creator_fee as int,
                meme_fee_basis_points as int,
                creator_fee_basis_points as int,
                Rounding::Down,
            );
            if rescaled > u64::MAX {
                Err(AmmError::TypeCastFailed)
            } else if rescaled > self.creator_fee {
                Err(AmmError::MathOverflow)
            } else if self.protocol_fee + self.creator_fee - rescaled > u64::MAX {
                Err(AmmError::MathOverflow)
            } else {
                Ok(
                    (BondingCurve {
                        fee_type: 1u8,
                        creator_fee: rescaled as u64,
                        protocol_fee: (self.protocol_fee + self.creator_fee - rescaled) as u64,
                        ..self
                    }),
                )
            }
        }
    }

    /// Creator to Meme: rescale the accrued, unclaimed creator fee down by
    /// the ratio of the two rates and sweep the excess into the protocol
    /// fee. No value is invented or destroyed.
    pub fn fee_type_update_from_creator_to_meme(
        &mut self,
        creator_fee_basis_points: u16,
        meme_fee_basis_points: u16,
    ) -> (r: Result<(), AmmError>)
        ensures
            r matches Ok(u) ==> Ok::<BondingCurve, AmmError>(*final(self)) == old(
                self,
            ).spec_creator_to_meme(creator_fee_basis_points, meme_fee_basis_points),
            r matches Err(e) ==> Err::<BondingCurve, AmmError>(e) == old(
                self,
            ).spec_creator_to_meme(creator_fee_basis_points, meme_fee_basis_points),
            r is Err ==> *final(self) == *old(self),
            r is Ok ==> final(self).creator_fee + final(self).protocol_fee == old(
                self,
            ).creator_fee + old(self).protocol_fee,
    {
        let new_creator_fee: u64 = safe_mul_div_cast_u64(
            self.creator_fee,
            meme_fee_basis_points as u64,
            creator_fee_basis_points as u64,
            Rounding::Down,
        )?;
        let excess: u64 = self.creator_fee.safe_sub(new_creator_fee)?;
        let new_protocol_fee: u64 = self.protocol_fee.safe_add(excess)?;
        self.creator_fee = new_creator_fee;
        self.protocol_fee = new_protocol_fee;
        self.fee_type = 1;
        Ok(())
    }

    /// Meme to Creator: a plain relabeling, no rescale.
    pub fn fee_type_update_from_meme_to_creator(&mut self) -> (r: Result<(), AmmError>)
        ensures
            r is Ok,
            *final(self) == (BondingCurve { fee_type: 0u8, ..*old(self) }),
    {
        self.fee_type = 0;
        Ok(())
    }

    /// To Blocked: sweep the whole accrued creator fee into the protocol
    /// fee and zero it.
    pub fn fee_type_update_to_blocked(&mut self) -> (r: Result<(), AmmError>)
        ensures
            r is Err ==> *final(self) == *old(self),
            r is Ok <==> old(self).protocol_fee + old(self).creator_fee <= u64::MAX,
            r is Err ==> r == Err::<(), AmmError>(AmmError::MathOverflow),
            r is Ok ==> *final(self) == (BondingCurve {
                fee_type: 2u8,
                creator_fee: 0u64,
                protocol_fee: (old(self).protocol_fee + old(self).creator_fee) as u64,
                ..*old(self)
            }),
    {
        let new_protocol_fee: u64 = self.protocol_fee.safe_add(self.creator_fee)?;
        self.protocol_fee = new_protocol_fee;
        self.creator_fee = 0;
        self.fee_type = 2;
        Ok(())
    }
}

/// The swap record built from one fee breakdown: the trading fee is the
/// breakdown summed back together.
pub open spec fn spec_swap_result_of(actual_in: u64, out: u64, fb: FeeBreakdown) -> SwapResult {
    SwapResult {
        actual_input_amount: actual_in,
        output_amount: out,
        trading_fee: (fb.l1_referral_fee + fb.l2_referral_fee + fb.l3_referral_fee + fb.creator_fee
            + fb.cashback_fee + fb.protocol_fee) as u64,
        protocol_fee: fb.protocol_fee,
        cashback_fee: fb.cashback_fee,
        creator_fee: fb.creator_fee,
        l1_referral_fee: fb.l1_referral_fee,
        l2_referral_fee: fb.l2_referral_fee,
        l3_referral_fee: fb.l3_referral_fee,
    }
}

impl BondingCurve {
    /// A naive buy output either drains the base reserve past the
    /// migration threshold or not; this is the §graduation condition the
    /// swap path checks before committing a result.
    pub open spec fn spec_buy_overshoots(self, config: Config, naive_out: u64) -> bool {
        naive_out >= self.base_reserve || self.base_reserve - naive_out
            < config.migration_base_threshold
    }

    /// The swap computation, step for step. A buy pays its fee first and
    /// feeds the net amount to the curve; a sell feeds the whole input to
    /// the curve and pays its fee out of the gross quote output. A buy
    /// whose naive output would cross the migration threshold is discarded
    /// and recomputed backward from the threshold, so the curve lands on it
    /// exactly.
    #[verifier::opaque]
    pub open spec fn spec_get_swap_result(
        self,
        config: Config,
        amount_in: u64,
        trade_direction: TradeDirection,
        has_l1_referral: bool,
        has_l2_referral: bool,
        has_l3_referral: bool,
        cashback_tier: Option<CashbackTier>,
    ) -> Result<SwapResult, AmmError> {
        if trade_direction == TradeDirection::QuoteToBase {
            match spec_fee_type_of_raw(self.fee_type) {
                Err(e) => Err(e),
                Ok(ft) => match config.spec_get_fee_on_amount(
                    amount_in,
                    has_l1_referral,
                    has_l2_referral,
                    has_l3_referral,
                    ft,
                    cashback_tier,
                ) {
                    Err(e) => Err(e),
                    Ok(fb) => match spec_buy_output(
                        self.virtual_quote_reserve as int,
                        self.virtual_base_reserve as int,
                        fb.amount as int,
                    ) {
                        Err(e) => Err(e),
                        Ok(out) => if self.spec_buy_overshoots(config, out) {
                            if self.base_reserve < config.migration_base_threshold {
                                Err(AmmError::MathOverflow)
                            } else {
                                let capped_out = (self.base_reserve
                                    - config.migration_base_threshold) as u64;
                                if self.virtual_base_reserve < capped_out {
                                    Err(AmmError::MathOverflow)
                                } else {
                                    let new_virtual_base = (self.virtual_base_reserve
                                        - capped_out) as u64;
                                    match spec_sell_output(
                                        config.migration_quote_threshold as int,
                                        new_virtual_base as int,
                                        capped_out as int,
                                    ) {
                                        Err(e) => Err(e),
                                        Ok(capped_in) => match config.spec_get_fee_on_amount(
                                            capped_in,
                                            has_l1_referral,
                                            has_l2_referral,
                                            has_l3_referral,
                                            ft,
                                            cashback_tier,
                                        ) {
                                            Err(e) => Err(e),
                                            Ok(fb2) => Ok(
                                                spec_swap_result_of(capped_in, capped_out, fb2),
                                            ),
                                        },
                                    }
                                }
                            }
                        } else {
                            Ok(spec_swap_result_of(fb.amount, out, fb))
                        },
                    },
                },
            }
        } else {
            match spec_sell_output(
                self.virtual_quote_reserve as int,
                self.virtual_base_reserve as int,
                amount_in as int,
            ) {
                Err(e) => Err(e),
                Ok(out) => match spec_fee_type_of_raw(self.fee_type) {
                    Err(e) => Err(e),
                    Ok(ft) => match config.spec_get_fee_on_amount(
                        out,
                        has_l1_referral,
                        has_l2_referral,
                        has_l3_referral,
                        ft,
                        cashback_tier,
                    ) {
                        Err(e) => Err(e),
                        Ok(fb) => Ok(spec_swap_result_of(amount_in, fb.amount, fb)),
                    },
                },
            }
        }
    }

    /// Check a naive buy output against the migration threshold and, when
    /// it would cross, the boundary output that lands the reserve exactly
    /// on it.
    pub fn check_graduation(&self, config: &Config, naive_output: u64) -> (r: GraduationCheck)
        ensures
            r.will_graduate == self.spec_buy_overshoots(*config, naive_output),
            r.will_graduate && self.base_reserve >= config.migration_base_threshold
                ==> r.capped_amount == self.base_reserve - config.migration_base_threshold,
            !r.will_graduate || self.base_reserve < config.migration_base_threshold
                ==> r.capped_amount == 0,
    {
        let will_graduate = naive_output >= self.base_reserve || self.base_reserve - naive_output
            < config.migration_base_threshold;
        let capped_amount: u64 = if will_graduate && self.base_reserve
            >= config.migration_base_threshold {
            self.base_reserve - config.migration_base_threshold
        } else {
            0
        };
        GraduationCheck { will_graduate, capped_amount }
    }

    /// Compute one full trade without touching state. A buy never pays out
    /// past the migration threshold: its output is capped so the base
    /// reserve never drops below it.
    #[verifier::rlimit(100)]
    pub fn get_swap_result(
        &self,
        config: &Config,
        amount_in: u64,
        trade_direction: TradeDirection,
        has_l1_referral: bool,
        has_l2_referral: bool,
        has_l3_referral: bool,
        cashback_tier: Option<CashbackTier>,
    ) -> (r: Result<SwapResult, AmmError>)
        ensures
            r == self.spec_get_swap_result(
                *config,
                amount_in,
                trade_direction,
                has_l1_referral,
                has_l2_referral,
                has_l3_referral,
                cashback_tier,
            ),
            r matches Ok(sr) ==> (trade_direction == TradeDirection::QuoteToBase
                ==> self.base_reserve - sr.output_amount >= config.migration_base_threshold),
    {
        proof {
            reveal(BondingCurve::spec_get_swap_result);
        }
        if trade_direction == TradeDirection::QuoteToBase {
            let ft = self.get_fee_type()?;
            let fee_breakdown = config.get_fee_on_amount(
                amount_in,
                has_l1_referral,
                has_l2_referral,
                has_l3_referral,
                ft,
                cashback_tier,
            )?;
            let output_amount = get_swap_amount_from_quote_to_base(
                self.virtual_quote_reserve as u128,
                self.virtual_base_reserve as u128,
                fee_breakdown.amount,
            )?;
            if output_amount >= self.base_reserve || self.base_reserve - output_amount
                < config.migration_base_threshold {
                // The naive result would cross the threshold: derive the
                // boundary output from the threshold and run the curve
                // formula in reverse to get the required gross input.
                let new_base_output_amount = self.base_reserve.safe_sub(
                    config.migration_base_threshold,
                )?;
                let new_virtual_base = self.virtual_base_reserve.safe_sub(
                    new_base_output_amount,
                )?;
                let capped_amount_in = get_swap_amount_from_base_to_quote(
                    config.migration_quote_threshold as u128,
                    new_virtual_base as u128,
                    new_base_output_amount,
                )?;
                let fee_breakdown2 = config.get_fee_on_amount(
                    capped_amount_in,
                    has_l1_referral,
                    has_l2_referral,
                    has_l3_referral,
                    ft,
                    cashback_tier,
                )?;
                let trading_fee = fee_breakdown2.sum();
                Ok(
                    SwapResult {
                        actual_input_amount: capped_amount_in,
                        output_amount: new_base_output_amount,
                        trading_fee,
                        protocol_fee: fee_breakdown2.protocol_fee,
                        cashback_fee: fee_breakdown2.cashback_fee,
                        creator_fee: fee_breakdown2.creator_fee,
                        l1_referral_fee: fee_breakdown2.l1_referral_fee,
                        l2_referral_fee: fee_breakdown2.l2_referral_fee,
                        l3_referral_fee: fee_breakdown2.l3_referral_fee,
                    },
                )
            } else {
                let trading_fee = fee_breakdown.sum();
                Ok(
                    SwapResult {
                        actual_input_amount: fee_breakdown.amount,
                        output_amount,
                        trading_fee,
                        protocol_fee: fee_breakdown.protocol_fee,
                        cashback_fee: fee_breakdown.cashback_fee,
                        creator_fee: fee_breakdown.creator_fee,
                        l1_referral_fee: fee_breakdown.l1_referral_fee,
                        l2_referral_fee: fee_breakdown.l2_referral_fee,
                        l3_referral_fee: fee_breakdown.l3_referral_fee,
                    },
                )
            }
        } else {
            let output_amount = get_swap_amount_from_base_to_quote(
                self.virtual_quote_reserve as u128,
                self.virtual_base_reserve as u128,
                amount_in,
            )?;
            let ft = self.get_fee_type()?;
            let fee_breakdown = config.get_fee_on_amount(
                output_amount,
                has_l1_referral,
                has_l2_referral,
                has_l3_referral,
                ft,
                cashback_tier,
            )?;
            let trading_fee = fee_breakdown.sum();
            Ok(
                SwapResult {
                    actual_input_amount: amount_in,
                    output_amount: fee_breakdown.amount,
                    trading_fee,
                    protocol_fee: fee_breakdown.protocol_fee,
                    cashback_fee: fee_breakdown.cashback_fee,
                    creator_fee: fee_breakdown.creator_fee,
                    l1_referral_fee: fee_breakdown.l1_referral_fee,
                    l2_referral_fee: fee_breakdown.l2_referral_fee,
                    l3_referral_fee: fee_breakdown.l3_referral_fee,
                },
            )
        }
    }

    /// The curve state after committing a swap record, or the exact
    /// arithmetic fault: reserves move by the signed trade deltas and the
    /// accrued fees grow by the record's components.
    #[verifier::opaque]
    pub open spec fn spec_apply_swap_result(
        self,
        sr: SwapResult,
        trade_direction: TradeDirection,
    ) -> Result<BondingCurve, AmmError> {
        let fits = if trade_direction == TradeDirection::BaseToQuote {
            self.base_reserve + sr.actual_input_amount <= u64::MAX && self.virtual_base_reserve
                + sr.actual_input_amount <= u64::MAX && self.quote_reserve >= sr.output_amount
                && self.virtual_quote_reserve >= sr.output_amount
        } else {
            self.quote_reserve + sr.actual_input_amount <= u64::MAX && self.virtual_quote_reserve
                + sr.actual_input_amount <= u64::MAX && self.base_reserve >= sr.output_amount
                && self.virtual_base_reserve >= sr.output_amount
        };
        if !fits || self.creator_fee + sr.creator_fee > u64::MAX || self.protocol_fee
            + sr.protocol_fee > u64::MAX {
            Err(AmmError::MathOverflow)
        } else if trade_direction == TradeDirection::BaseToQuote {
            Ok(
                BondingCurve {
                    base_reserve: (self.base_reserve + sr.actual_input_amount) as u64,
                    virtual_base_reserve: (self.virtual_base_reserve
                        + sr.actual_input_amount) as u64,
                    quote_reserve: (self.quote_reserve - sr.output_amount) as u64,
                    virtual_quote_reserve: (self.virtual_quote_reserve - sr.output_amount) as u64,
                    creator_fee: (self.creator_fee + sr.creator_fee) as u64,
                    protocol_fee: (self.protocol_fee + sr.protocol_fee) as u64,
                    ..self
                },
            )
        } else {
            Ok(
                BondingCurve {
                    quote_reserve: (self.quote_reserve + sr.actual_input_amount) as u64,
                    virtual_quote_reserve: (self.virtual_quote_reserve
                        + sr.actual_input_amount) as u64,
                    base_reserve: (self.base_reserve - sr.output_amount) as u64,
                    virtual_base_reserve: (self.virtual_base_reserve - sr.output_amount) as u64,
                    creator_fee: (self.creator_fee + sr.creator_fee) as u64,
                    protocol_fee: (self.protocol_fee + sr.protocol_fee) as u64,
                    ..self
                },
            )
        }
    }

    /// Commit a swap record to the reserves and accrued fees. The update
    /// is all or nothing: every new value is computed before any field is
    /// written, so a failure leaves the state untouched.
    pub fn apply_swap_result(&mut self, swap_result: &SwapResult, trade_direction: TradeDirection)
        -> (r: Result<(), AmmError>)
        ensures
            r matches Ok(u) ==> Ok::<BondingCurve, AmmError>(*final(self)) == old(
                self,
            ).spec_apply_swap_result(*swap_result, trade_direction),
            r matches Err(e) ==> Err::<BondingCurve, AmmError>(e) == old(
                self,
            ).spec_apply_swap_result(*swap_result, trade_direction),
            r is Err ==> *final(self) == *old(self),
    {
        proof {
            reveal(BondingCurve::spec_apply_swap_result);
        }
        let (new_base, new_virtual_base, new_quote, new_virtual_quote) = if trade_direction
            == TradeDirection::BaseToQuote {
            let nb = self.base_reserve.safe_add(swap_result.actual_input_amount)?;
            let nvb = self.virtual_base_reserve.safe_add(swap_result.actual_input_amount)?;
            let nq = self.quote_reserve.safe_sub(swap_result.output_amount)?;
            let nvq = self.virtual_quote_reserve.safe_sub(swap_result.output_amount)?;
            (nb, nvb, nq, nvq)
        } else {
            let nq = self.quote_reserve.safe_add(swap_result.actual_input_amount)?;
            let nvq = self.virtual_quote_reserve.safe_add(swap_result.actual_input_amount)?;
            let nb = self.base_reserve.safe_sub(swap_result.output_amount)?;
            let nvb = self.virtual_base_reserve.safe_sub(swap_result.output_amount)?;
            (nb, nvb, nq, nvq)
        };
        let new_creator_fee = self.creator_fee.safe_add(swap_result.creator_fee)?;
        let new_protocol_fee = self.protocol_fee.safe_add(swap_result.protocol_fee)?;
        self.base_reserve = new_base;
        self.virtual_base_reserve = new_virtual_base;
        self.quote_reserve = new_quote;
        self.virtual_quote_reserve = new_virtual_quote;
        self.creator_fee = new_creator_fee;
        self.protocol_fee = new_protocol_fee;
        Ok(())
    }
}

/// A round-up share at a rate no more than the denominator never exceeds
/// the amount itself.
proof fn lemma_mul_div_up_le(amount: int, bps: int)
    requires
        0 <= amount <= u64::MAX,
        0 <= bps <= FEE_DENOMINATOR,
    ensures
        0 <= spec_mul_div(amount, bps, FEE_DENOMINATOR as int, Rounding::Up) <= amount,
{
    let den = FEE_DENOMINATOR as int;
    assert(amount * bps + den - 1 <= amount * den + den - 1) by (nonlinear_arith)
        requires
            0 <= amount && 0 <= bps <= den,
    ;
    lemma_div_is_ordered(amount * bps + den - 1, amount * den + den - 1, den);
    vstd::arithmetic::div_mod::lemma_div_multiples_vanish_fancy(amount, den - 1, den);
    vstd::arithmetic::mul::lemma_mul_is_commutative(amount, den);
    vstd::arithmetic::div_mod::lemma_div_pos_is_pos(amount * bps + den - 1, den);
    vstd::arithmetic::mul::lemma_mul_nonnegative(amount, bps);
}

/// The marginal price of the constant-product curve, as quote per scaled
/// base.
pub fn get_price(virtual_quote: u128, virtual_base: u128) -> (r: Result<u128, AmmError>)
    ensures
        virtual_base * 1000 > u128::MAX ==> r == Err::<u128, AmmError>(AmmError::MathOverflow),
        virtual_base == 0 ==> r == Err::<u128, AmmError>(AmmError::MathOverflow),
        virtual_base > 0 && virtual_base * 1000 <= u128::MAX ==> r == Ok::<u128, AmmError>(
            (virtual_quote / (virtual_base * 1000) as u128) as u128,
        ),
{
    let virtual_base_scaled = virtual_base.safe_mul(1000)?;
    let price = virtual_quote.safe_div(virtual_base_scaled)?;
    Ok(price)
}

/// Constant-product law for a buy: the updated reserves pin the old
/// invariant `k` between consecutive multiples of the new quote reserve -
/// `k` is preserved exactly up to the rounding loss of the final division -
/// and the base paid out is exactly the scaled-reserve drop.
pub proof fn lemma_buy_preserves_constant_product(vq: int, vb: int, amount_in: int, out: u64)
    requires
        0 <= vq,
        0 <= vb,
        0 <= amount_in,
        vq + amount_in > 0,
        spec_buy_output(vq, vb, amount_in) == Ok::<u64, AmmError>(out),
    ensures
        ({
            let k = vq * (vb * 1000);
            let new_vq = vq + amount_in;
            let new_vbs = k / new_vq;
            new_vq * new_vbs <= k && k < new_vq * (new_vbs + 1) && out == ((vb * 1000 - new_vbs)
                / 1000) as u64
        }),
{
    let k = vq * (vb * 1000);
    let new_vq = vq + amount_in;
    let new_vbs = k / new_vq;
    vstd::arithmetic::mul::lemma_mul_nonnegative(vq, vb * 1000);
    vstd::arithmetic::div_mod::lemma_fundamental_div_mod(k, new_vq);
    vstd::arithmetic::div_mod::lemma_mod_bound(k, new_vq);
    assert(new_vq * new_vbs <= k && k < new_vq * (new_vbs + 1)) by (nonlinear_arith)
        requires
            k == new_vq * new_vbs + k % new_vq,
            0 <= k % new_vq < new_vq,
            new_vq > 0,
    ;
}

/// Graduation cap law: when a buy's naive output would cross the
/// migration threshold, the result the engine commits pays out exactly
/// down to the threshold, and applying it leaves the base reserve exactly
/// on the threshold - never beyond it.
pub proof fn lemma_graduation_cap_lands_on_threshold(
    curve: BondingCurve,
    config: Config,
    amount_in: u64,
    has_l1_referral: bool,
    has_l2_referral: bool,
    has_l3_referral: bool,
    cashback_tier: Option<CashbackTier>,
    sr: SwapResult,
    applied: BondingCurve,
)
    requires
        curve.spec_get_swap_result(
            config,
            amount_in,
            TradeDirection::QuoteToBase,
            has_l1_referral,
            has_l2_referral,
            has_l3_referral,
            cashback_tier,
        ) == Ok::<SwapResult, AmmError>(sr),
        ({
            match spec_fee_type_of_raw(curve.fee_type) {
                Ok(ft) => match config.spec_get_fee_on_amount(
                    amount_in,
                    has_l1_referral,
                    has_l2_referral,
                    has_l3_referral,
                    ft,
                    cashback_tier,
                ) {
                    Ok(fb) => match spec_buy_output(
                        curve.virtual_quote_reserve as int,
                        curve.virtual_base_reserve as int,
                        fb.amount as int,
                    ) {
                        Ok(naive_out) => curve.spec_buy_overshoots(config, naive_out),
                        Err(e) => false,
                    },
                    Err(e) => false,
                },
                Err(e) => false,
            }
        }),
        curve.spec_apply_swap_result(sr, TradeDirection::QuoteToBase) == Ok::<
            BondingCurve,
            AmmError,
        >(applied),
    ensures
        sr.output_amount == curve.base_reserve - config.migration_base_threshold,
        applied.base_reserve == config.migration_base_threshold,
{
    reveal(BondingCurve::spec_get_swap_result);
    reveal(BondingCurve::spec_apply_swap_result);
}

/// Near round-trip law for the constant-product curve, with no fee taken:
/// buying with `amount_in` and selling the whole base output back moves
/// the quote side by at most one unit in either direction, and the base
/// reserves return exactly, so a fee-free round trip neither extracts nor
/// loses value beyond the rounding of its two legs. The upper bound needs
/// the scaled base reserve to cover the quote side; the lower bound needs
/// the base reserve itself to, which absorbs the final division's
/// thousand-fold granularity.
pub proof fn lemma_round_trip_bounded(vq: int, vb: int, amount_in: int, out: u64, back: u64)
    requires
        0 < vq,
        0 <= vb <= u64::MAX,
        0 <= amount_in,
        vq + amount_in <= u64::MAX,
        vb * 1000 >= vq + amount_in,
        spec_buy_output(vq, vb, amount_in) == Ok::<u64, AmmError>(out),
        spec_sell_output(vq + amount_in, vb - out, out as int) == Ok::<u64, AmmError>(back),
    ensures
        back <= amount_in + 1,
        vb >= vq + amount_in ==> back >= amount_in,
{
    let vbs = vb * 1000;
    let k = vq * vbs;
    let nvq = vq + amount_in;
    let vbsp = k / nvq;
    let outs = vbs - vbsp;
    vstd::arithmetic::mul::lemma_mul_nonnegative(vq, vbs);
    vstd::arithmetic::div_mod::lemma_fundamental_div_mod(k, nvq);
    vstd::arithmetic::div_mod::lemma_mod_bound(k, nvq);
    let rem = k % nvq;
    assert(vbsp <= vbs && vbsp >= 0) by (nonlinear_arith)
        requires
            k == nvq * vbsp + rem && 0 <= rem < nvq && k == vq * vbs && 0 < vq <= nvq && vbs >= 0
                && nvq <= vbs,
    ;
    vstd::arithmetic::div_mod::lemma_fundamental_div_mod(outs, 1000);
    vstd::arithmetic::div_mod::lemma_mod_bound(outs, 1000);
    assert(out == outs / 1000);
    let scaled_out = 1000 * (outs / 1000);
    assert(scaled_out <= outs);
    assert(nvq * outs == amount_in * vbs + rem) by (nonlinear_arith)
        requires
            outs == vbs - vbsp && k == nvq * vbsp + rem && k == vq * vbs && nvq == vq + amount_in,
    ;
    assert(scaled_out * nvq <= amount_in * vbs + vbs - 1) by (nonlinear_arith)
        requires
            scaled_out <= outs && nvq * outs == amount_in * vbs + rem && rem < nvq && nvq <= vbs
                && nvq > 0 && scaled_out >= 0,
    ;
    // the sell leg runs against the reserves the buy left behind
    let vbs_sell = (vb - out) * 1000;
    assert(vbs_sell == vbs - 1000 * out) by (nonlinear_arith)
        requires
            vbs_sell == (vb - out) * 1000 && vbs == vb * 1000,
    ;
    assert(vbs_sell + (out as int) * 1000 == vbs);
    let k_sell = vbs_sell * nvq;
    let new_q = k_sell / vbs;
    assert(back == (nvq - new_q) as u64);
    assert(k_sell >= vbs * (vq - 1) + 1) by (nonlinear_arith)
        requires
            k_sell == vbs_sell * nvq && vbs_sell == vbs - scaled_out && scaled_out * nvq
                <= amount_in * vbs + vbs - 1 && nvq == vq + amount_in && vbs > 0 && scaled_out
                == 1000 * out,
    ;
    vstd::arithmetic::div_mod::lemma_div_multiples_vanish(vq - 1, vbs);
    vstd::arithmetic::div_mod::lemma_div_is_ordered(vbs * (vq - 1), k_sell, vbs);
    assert(new_q >= vq - 1);
    assert(k_sell <= vbs * nvq) by (nonlinear_arith)
        requires
            k_sell == vbs_sell * nvq && 0 <= vbs_sell <= vbs && nvq > 0,
    ;
    vstd::arithmetic::div_mod::lemma_div_is_ordered(k_sell, vbs * nvq, vbs);
    vstd::arithmetic::div_mod::lemma_div_multiples_vanish(nvq, vbs);
    vstd::arithmetic::mul::lemma_mul_is_commutative(vbs, nvq);
    assert(new_q <= nvq);
    assert(0 <= nvq - new_q <= nvq);
    assert(back as int == nvq - new_q);
    if vb >= nvq {
        // the other direction: the base lost to the final division is
        // worth less than one quote unit on a base-heavy curve
        assert(scaled_out >= outs - 999);
        assert(scaled_out * nvq >= amount_in * vbs + rem - 999 * nvq) by (nonlinear_arith)
            requires
                scaled_out >= outs - 999 && nvq * outs == amount_in * vbs + rem && nvq > 0,
        ;
        assert(k_sell < vbs * (vq + 1)) by (nonlinear_arith)
            requires
                k_sell == vbs_sell * nvq,
                vbs_sell == vbs - scaled_out,
                scaled_out * nvq >= amount_in * vbs + rem - 999 * nvq,
                rem >= 0,
                nvq == vq + amount_in,
                vbs == vb * 1000,
                vb >= nvq,
                nvq >= 1,
        ;
        vstd::arithmetic::div_mod::lemma_fundamental_div_mod(k_sell, vbs);
        vstd::arithmetic::div_mod::lemma_mod_bound(k_sell, vbs);
        assert(new_q <= vq) by (nonlinear_arith)
            requires
                k_sell == vbs * new_q + k_sell % vbs,
                0 <= k_sell % vbs < vbs,
                k_sell < vbs * (vq + 1),
                vbs >= 1,
        ;
    }
}

/// Near round-trip idempotence at the state level: on a base-heavy curve,
/// a fee-free buy committed to the reserves and then a fee-free sell of
/// the whole base output committed after it return both base reserves
/// exactly and both quote reserves to within one unit of where they
/// started, and leave the accrued fees untouched.
pub proof fn lemma_round_trip_restores_reserves(
    c0: BondingCurve,
    amount_in: u64,
    out: u64,
    back: u64,
    sr1: SwapResult,
    sr2: SwapResult,
    c1: BondingCurve,
    c2: BondingCurve,
)
    requires
        0 < c0.virtual_quote_reserve,
        c0.virtual_base_reserve >= c0.virtual_quote_reserve + amount_in,
        c0.virtual_quote_reserve + amount_in <= u64::MAX,
        spec_buy_output(
            c0.virtual_quote_reserve as int,
            c0.virtual_base_reserve as int,
            amount_in as int,
        ) == Ok::<u64, AmmError>(out),
        sr1.actual_input_amount == amount_in && sr1.output_amount == out,
        sr1.creator_fee == 0 && sr1.protocol_fee == 0,
        c0.spec_apply_swap_result(sr1, TradeDirection::QuoteToBase) == Ok::<
            BondingCurve,
            AmmError,
        >(c1),
        spec_sell_output(
            c1.virtual_quote_reserve as int,
            c1.virtual_base_reserve as int,
            out as int,
        ) == Ok::<u64, AmmError>(back),
        sr2.actual_input_amount == out && sr2.output_amount == back,
        sr2.creator_fee == 0 && sr2.protocol_fee == 0,
        c1.spec_apply_swap_result(sr2, TradeDirection::BaseToQuote) == Ok::<
            BondingCurve,
            AmmError,
        >(c2),
    ensures
        c2.base_reserve == c0.base_reserve,
        c2.virtual_base_reserve == c0.virtual_base_reserve,
        c0.quote_reserve - 1 <= c2.quote_reserve <= c0.quote_reserve,
        c0.virtual_quote_reserve - 1 <= c2.virtual_quote_reserve <= c0.virtual_quote_reserve,
        c2.creator_fee == c0.creator_fee && c2.protocol_fee == c0.protocol_fee,
{
    reveal(BondingCurve::spec_apply_swap_result);
    lemma_round_trip_bounded(
        c0.virtual_quote_reserve as int,
        c0.virtual_base_reserve as int,
        amount_in as int,
        out,
        back,
    );
}

} // verus!
