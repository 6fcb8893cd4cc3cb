use amm_core::cashback::CashbackTier;
use amm_core::config::Config;
use amm_core::config::FeeType;
use amm_core::errors::AmmError;

fn config_with_fees(
    fee_basis_points: u16,
    l1: u16,
    l2: u16,
    l3: u16,
    discount: u16,
    creator: u16,
    meme: u16,
) -> Config {
    Config {
        quote_mint: [0u8; 32],
        fee_claimer: [0u8; 32],
        base_token_flag: 0,
        quote_token_flag: 0,
        base_decimal: 6,
        quote_decimal: 9,
        fee_basis_points,
        l1_referral_fee_basis_points: l1,
        l2_referral_fee_basis_points: l2,
        l3_referral_fee_basis_points: l3,
        referee_discount_basis_points: discount,
        creator_fee_basis_points: creator,
        meme_fee_basis_points: meme,
        migration_fee_basis_points: 0,
        migration_base_threshold: 1,
        migration_quote_threshold: 1,
        initial_virtual_quote_reserve: 1,
        initial_virtual_base_reserve: 1,
    }
}

#[test]
fn fee_breakdown_for_plain_creator_trade() {
    // fee rate 100 out of 100,000 is 0.1%; creator rate 20 is 0.02%
    let config = config_with_fees(100, 0, 0, 0, 0, 20, 0);
    let fb = config
        .get_fee_on_amount(1_000_000, false, false, false, FeeType::Creator, None)
        .unwrap();
    assert_eq!(fb.creator_fee, 200);
    assert_eq!(fb.protocol_fee, 800);
    assert_eq!(fb.amount, 999_000);
    assert_eq!(fb.l1_referral_fee, 0);
    assert_eq!(fb.l2_referral_fee, 0);
    assert_eq!(fb.l3_referral_fee, 0);
    assert_eq!(fb.cashback_fee, 0);
    // total fee = 1,000
    assert_eq!(fb.sum(), 1_000);
}

#[test]
fn fee_components_sum_back_to_the_gross_amount() {
    let config = config_with_fees(2000, 300, 200, 100, 50, 150, 50);
    let amount_in = 1_000_000u64;
    let fb = config
        .get_fee_on_amount(
            amount_in,
            true,
            true,
            true,
            FeeType::Creator,
            Some(CashbackTier::Wood),
        )
        .unwrap();
    assert_eq!(fb.l1_referral_fee, 3_000);
    assert_eq!(fb.l2_referral_fee, 2_000);
    assert_eq!(fb.l3_referral_fee, 1_000);
    assert_eq!(fb.cashback_fee, 500);
    assert_eq!(fb.creator_fee, 1_500);
    // total at the discounted rate 1950: 19,500; protocol absorbs the rest
    assert_eq!(fb.protocol_fee, 11_500);
    assert_eq!(fb.amount, 980_500);
    let total = fb.l1_referral_fee
        + fb.l2_referral_fee
        + fb.l3_referral_fee
        + fb.cashback_fee
        + fb.creator_fee
        + fb.protocol_fee;
    assert_eq!(fb.amount + total, amount_in);
}

#[test]
fn meme_fee_type_uses_the_meme_rate() {
    let config = config_with_fees(2000, 300, 200, 100, 50, 150, 50);
    let fb = config
        .get_fee_on_amount(1_000_000, false, false, false, FeeType::Meme, None)
        .unwrap();
    assert_eq!(fb.creator_fee, 500);
}

#[test]
fn blocked_fee_type_takes_no_creator_fee() {
    let config = config_with_fees(2000, 300, 200, 100, 50, 150, 50);
    let fb = config
        .get_fee_on_amount(1_000_000, false, false, false, FeeType::Blocked, None)
        .unwrap();
    assert_eq!(fb.creator_fee, 0);
    assert_eq!(fb.protocol_fee, 20_000);
}

#[test]
fn discount_past_gross_rate_is_math_overflow() {
    let config = config_with_fees(100, 10, 5, 2, 200, 0, 0);
    assert_eq!(
        config.get_fee_on_amount(1_000_000, true, false, false, FeeType::Creator, None),
        Err(AmmError::MathOverflow)
    );
}

#[test]
fn components_past_total_fee_is_math_overflow() {
    // gross rate 10 cannot cover a creator rate of 150
    let config = config_with_fees(10, 0, 0, 0, 0, 150, 0);
    assert_eq!(
        config.get_fee_on_amount(1_000_000, false, false, false, FeeType::Creator, None),
        Err(AmmError::MathOverflow)
    );
}

#[test]
fn cashback_tier_rates_scale_with_the_tier() {
    assert_eq!(CashbackTier::Wood.get_cashback_bps(), 50);
    assert_eq!(CashbackTier::Champion.get_cashback_bps(), 250);
    let config = config_with_fees(2000, 0, 0, 0, 0, 0, 0);
    let fb = config
        .get_fee_on_amount(
            1_000_000,
            false,
            false,
            false,
            FeeType::Blocked,
            Some(CashbackTier::Champion),
        )
        .unwrap();
    assert_eq!(fb.cashback_fee, 2_500);
    assert_eq!(fb.protocol_fee, 17_500);
}
