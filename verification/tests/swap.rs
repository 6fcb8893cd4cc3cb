use amm_core::bonding_curve::BondingCurve;
use amm_core::bonding_curve::MigrationStatus;
use amm_core::config::Config;
use amm_core::errors::AmmError;
use amm_core::instructions::handle_swap;
use amm_core::instructions::SwapParameters;
use amm_core::params::TradeDirection;

fn feeless_config() -> Config {
    Config {
        quote_mint: [0u8; 32],
        fee_claimer: [0u8; 32],
        base_token_flag: 0,
        quote_token_flag: 0,
        base_decimal: 6,
        quote_decimal: 9,
        fee_basis_points: 0,
        l1_referral_fee_basis_points: 0,
        l2_referral_fee_basis_points: 0,
        l3_referral_fee_basis_points: 0,
        referee_discount_basis_points: 0,
        creator_fee_basis_points: 0,
        meme_fee_basis_points: 0,
        migration_fee_basis_points: 0,
        migration_base_threshold: 800,
        migration_quote_threshold: 500,
        initial_virtual_quote_reserve: 1_000,
        initial_virtual_base_reserve: 2_000,
    }
}

fn small_curve() -> BondingCurve {
    let mut curve = BondingCurve::default();
    curve.base_reserve = 1_000;
    curve.virtual_base_reserve = 2_000;
    curve.quote_reserve = 0;
    curve.virtual_quote_reserve = 1_000;
    curve
}

#[test]
fn zero_amount_is_rejected() {
    let config = feeless_config();
    let mut curve = small_curve();
    let params = SwapParameters { amount_in: 0, minimum_amount_out: 0 };
    assert_eq!(
        handle_swap(
            &mut curve,
            &config,
            params,
            TradeDirection::QuoteToBase,
            false,
            false,
            false,
            None,
            false,
            7
        ),
        Err(AmmError::AmountIsZero)
    );
}

#[test]
fn graduated_pool_rejects_trades() {
    let config = feeless_config();
    let mut curve = small_curve();
    curve.base_reserve = 800;
    let params = SwapParameters { amount_in: 10, minimum_amount_out: 0 };
    assert_eq!(
        handle_swap(
            &mut curve,
            &config,
            params,
            TradeDirection::QuoteToBase,
            false,
            false,
            false,
            None,
            false,
            7
        ),
        Err(AmmError::PoolIsCompleted)
    );
}

#[test]
fn slippage_floor_is_enforced() {
    let config = feeless_config();
    let mut curve = small_curve();
    let before = curve;
    let params = SwapParameters { amount_in: 100, minimum_amount_out: u64::MAX };
    assert_eq!(
        handle_swap(
            &mut curve,
            &config,
            params,
            TradeDirection::QuoteToBase,
            false,
            false,
            false,
            None,
            false,
            7
        ),
        Err(AmmError::ExceededSlippage)
    );
    // a failed trade leaves the curve untouched
    assert_eq!(curve.base_reserve, before.base_reserve);
    assert_eq!(curve.virtual_quote_reserve, before.virtual_quote_reserve);
}

#[test]
fn small_buy_moves_the_reserves() {
    let config = feeless_config();
    let mut curve = small_curve();
    let params = SwapParameters { amount_in: 100, minimum_amount_out: 0 };
    let sr = handle_swap(
        &mut curve,
        &config,
        params,
        TradeDirection::QuoteToBase,
        false,
        false,
        false,
        None,
        false,
        7,
    )
    .unwrap();
    // k = 1000 * 2_000_000; new scaled base = floor(k / 1100) = 1_818_181
    assert_eq!(sr.actual_input_amount, 100);
    assert_eq!(sr.output_amount, 181);
    assert_eq!(sr.trading_fee, 0);
    assert_eq!(curve.quote_reserve, 100);
    assert_eq!(curve.virtual_quote_reserve, 1_100);
    assert_eq!(curve.base_reserve, 819);
    assert_eq!(curve.virtual_base_reserve, 1_819);
    assert_eq!(curve.migration_status, 0);
}

#[test]
fn overshooting_buy_lands_exactly_on_the_threshold() {
    let config = feeless_config();
    let mut curve = small_curve();
    let params = SwapParameters { amount_in: 1_000, minimum_amount_out: 0 };
    let sr = handle_swap(
        &mut curve,
        &config,
        params,
        TradeDirection::QuoteToBase,
        false,
        false,
        false,
        None,
        false,
        777,
    )
    .unwrap();
    // the naive output of 1000 would drain past the threshold of 800;
    // the capped trade pays out exactly down to it
    assert_eq!(sr.output_amount, 200);
    assert_eq!(sr.actual_input_amount, 50);
    assert_eq!(curve.base_reserve, 800);
    assert_eq!(curve.virtual_base_reserve, 1_800);
    assert_eq!(curve.quote_reserve, 50);
    assert_eq!(curve.virtual_quote_reserve, 1_050);
    // completion records the finish time and advances the lifecycle
    assert_eq!(curve.curve_finish_timestamp, 777);
    assert_eq!(
        curve.get_migration_progress(),
        Ok(MigrationStatus::LockedVesting)
    );
}

#[test]
fn completion_with_vesting_moves_to_post_bonding() {
    let config = feeless_config();
    let mut curve = small_curve();
    let params = SwapParameters { amount_in: 1_000, minimum_amount_out: 0 };
    handle_swap(
        &mut curve,
        &config,
        params,
        TradeDirection::QuoteToBase,
        false,
        false,
        false,
        None,
        true,
        777,
    )
    .unwrap();
    assert_eq!(
        curve.get_migration_progress(),
        Ok(MigrationStatus::PostBondingCurve)
    );
}

#[test]
fn sell_pays_quote_out_of_the_reserve() {
    let config = feeless_config();
    let mut curve = small_curve();
    curve.quote_reserve = 500;
    curve.virtual_quote_reserve = 1_000;
    let params = SwapParameters { amount_in: 500, minimum_amount_out: 0 };
    let sr = handle_swap(
        &mut curve,
        &config,
        params,
        TradeDirection::BaseToQuote,
        false,
        false,
        false,
        None,
        false,
        7,
    )
    .unwrap();
    // scaled base 2_000_000 grows by 500_000; quote falls to
    // floor(2e6 * 1000 / 2.5e6) = 800
    assert_eq!(sr.output_amount, 200);
    assert_eq!(curve.quote_reserve, 300);
    assert_eq!(curve.virtual_quote_reserve, 800);
    assert_eq!(curve.base_reserve, 1_500);
    assert_eq!(curve.virtual_base_reserve, 2_500);
}

#[test]
fn graduation_check_names_the_boundary_output() {
    let config = feeless_config();
    let curve = small_curve();
    let safe = curve.check_graduation(&config, 100);
    assert!(!safe.will_graduate);
    assert_eq!(safe.capped_amount, 0);
    let crossing = curve.check_graduation(&config, 300);
    assert!(crossing.will_graduate);
    assert_eq!(crossing.capped_amount, 200);
}

