use amm_core::bonding_curve::BondingCurve;
use amm_core::bonding_curve::MigrationStatus;
use amm_core::cashback::CashbackAccount;
use amm_core::cashback::CashbackTier;
use amm_core::config::Config;
use amm_core::config::FeeType;
use amm_core::constants::CASHBACK_CLAIM_COOLDOWN;
use amm_core::constants::MAX_SQRT_PRICE;
use amm_core::constants::MIN_SQRT_PRICE;
use amm_core::constants::CASHBACK_INACTIVE_PERIOD;
use amm_core::errors::AmmError;
use amm_core::instructions::handle_claim_cashback;
use amm_core::instructions::handle_claim_creator_fee;
use amm_core::instructions::handle_claim_protocol_fee;
use amm_core::instructions::handle_create_cashback;
use amm_core::instructions::handle_create_config;
use amm_core::instructions::handle_create_curve_spl_token;
use amm_core::instructions::handle_create_locker;
use amm_core::instructions::handle_migrate_damm_v2;
use amm_core::instructions::handle_reclaim_cashback;
use amm_core::instructions::handle_set_fee_type;
use amm_core::instructions::handle_update_cashback_tier;
use amm_core::instructions::validate_damm_config_key;
use amm_core::instructions::ConfigParameters;
use amm_core::instructions::CreateCurveParams;

fn plain_config() -> Config {
    Config {
        quote_mint: [0u8; 32],
        fee_claimer: [0u8; 32],
        base_token_flag: 0,
        quote_token_flag: 0,
        base_decimal: 6,
        quote_decimal: 9,
        fee_basis_points: 2000,
        l1_referral_fee_basis_points: 300,
        l2_referral_fee_basis_points: 200,
        l3_referral_fee_basis_points: 100,
        referee_discount_basis_points: 50,
        creator_fee_basis_points: 150,
        meme_fee_basis_points: 50,
        migration_fee_basis_points: 0,
        migration_base_threshold: 800,
        migration_quote_threshold: 500,
        initial_virtual_quote_reserve: 1_000,
        initial_virtual_base_reserve: 2_000,
    }
}

#[test]
fn creator_to_meme_rescales_and_sweeps_the_excess() {
    let config = plain_config();
    let mut curve = BondingCurve::default();
    curve.creator_fee = 1_000;
    curve.protocol_fee = 0;
    handle_set_fee_type(&mut curve, &config, 1).unwrap();
    // ratio 150/50 = 3: the accrued fee falls to 333 and 667 moves over
    assert_eq!(curve.creator_fee, 333);
    assert_eq!(curve.protocol_fee, 667);
    assert_eq!(curve.get_fee_type(), Ok(FeeType::Meme));
    // setting the same type again is rejected
    assert_eq!(
        handle_set_fee_type(&mut curve, &config, 1),
        Err(AmmError::FeeTypeAlreadySet)
    );
}

#[test]
fn meme_to_creator_relabels_without_rescale() {
    let config = plain_config();
    let mut curve = BondingCurve::default();
    curve.fee_type = 1;
    curve.creator_fee = 444;
    handle_set_fee_type(&mut curve, &config, 0).unwrap();
    assert_eq!(curve.creator_fee, 444);
    assert_eq!(curve.protocol_fee, 0);
    assert_eq!(curve.get_fee_type(), Ok(FeeType::Creator));
}

#[test]
fn blocking_sweeps_the_whole_creator_fee() {
    let config = plain_config();
    let mut curve = BondingCurve::default();
    curve.creator_fee = 250;
    curve.protocol_fee = 50;
    handle_set_fee_type(&mut curve, &config, 2).unwrap();
    assert_eq!(curve.creator_fee, 0);
    assert_eq!(curve.protocol_fee, 300);
    assert_eq!(curve.get_fee_type(), Ok(FeeType::Blocked));
}

#[test]
fn undefined_fee_type_is_rejected() {
    let config = plain_config();
    let mut curve = BondingCurve::default();
    assert_eq!(
        handle_set_fee_type(&mut curve, &config, 3),
        Err(AmmError::InvalidFeeType)
    );
}

#[test]
fn claims_clear_their_counters_and_reject_empty_balances() {
    let mut curve = BondingCurve::default();
    assert_eq!(
        handle_claim_creator_fee(&mut curve),
        Err(AmmError::NothingToClaim)
    );
    curve.creator_fee = 75;
    assert_eq!(handle_claim_creator_fee(&mut curve), Ok(75));
    assert_eq!(curve.creator_fee, 0);

    curve.protocol_fee = 40;
    assert_eq!(handle_claim_protocol_fee(&mut curve, 0), Ok(40));
    assert_eq!(curve.protocol_fee, 0);
    assert_eq!(
        handle_claim_protocol_fee(&mut curve, 0),
        Err(AmmError::NothingToClaim)
    );
}

#[test]
fn protocol_claim_after_migration_sweeps_the_vault() {
    let mut curve = BondingCurve::default();
    curve.migration_status = 3;
    curve.protocol_fee = 10;
    assert_eq!(handle_claim_protocol_fee(&mut curve, 999), Ok(999));
    assert_eq!(curve.protocol_fee, 0);
}

#[test]
fn locker_runs_only_in_the_post_bonding_phase() {
    let mut curve = BondingCurve::default();
    assert_eq!(
        handle_create_locker(&mut curve),
        Err(AmmError::NotPermitToDoThisAction)
    );
    curve.migration_status = 1;
    handle_create_locker(&mut curve).unwrap();
    assert_eq!(
        curve.get_migration_progress(),
        Ok(MigrationStatus::LockedVesting)
    );
}

#[test]
fn migration_runs_once_the_curve_is_locked_and_complete() {
    let config = plain_config();
    let mut curve = BondingCurve::default();
    curve.base_reserve = 800;
    curve.quote_reserve = 50;
    let sqrt_price: u128 = 1u128 << 64;
    assert_eq!(
        handle_migrate_damm_v2(&mut curve, &config, 800, sqrt_price),
        Err(AmmError::NotPermitToDoThisAction)
    );
    curve.migration_status = 2;
    let plan = handle_migrate_damm_v2(&mut curve, &config, 800, sqrt_price).unwrap();
    assert_eq!(plan.quote_amount, 50);
    assert_eq!(plan.sqrt_price, sqrt_price);
    // the quote deposit supports less liquidity than the base deposit
    assert_eq!(plan.initial_liquidity, 922_337_203_900_229_981_650);
    assert_eq!(curve.is_migrated, 1);
    assert_eq!(
        curve.get_migration_progress(),
        Ok(MigrationStatus::CreatedPool)
    );
}

#[test]
fn incomplete_curve_cannot_migrate() {
    let config = plain_config();
    let mut curve = BondingCurve::default();
    curve.base_reserve = 900;
    curve.migration_status = 2;
    assert_eq!(
        handle_migrate_damm_v2(&mut curve, &config, 900, 1u128 << 64),
        Err(AmmError::PoolIsIncompleted)
    );
}

#[test]
fn cashback_claim_respects_the_cooldown() {
    let mut account = CashbackAccount {
        owner: [1u8; 32],
        current_tier: 0,
        last_claim_timestamp: 0,
    };
    handle_create_cashback(&mut account, [1u8; 32], 1_000).unwrap();
    assert_eq!(account.last_claim_timestamp, 1_000);
    // too early
    assert_eq!(
        handle_claim_cashback(&mut account, 10, 1_000 + CASHBACK_CLAIM_COOLDOWN - 1),
        Err(AmmError::ClaimCooldownNotMet)
    );
    // in time, but nothing to pay
    assert_eq!(
        handle_claim_cashback(&mut account, 0, 1_000 + CASHBACK_CLAIM_COOLDOWN),
        Err(AmmError::NoCashbackToClaim)
    );
    // a successful claim advances the clock to the supplied time
    let t1 = 1_000 + CASHBACK_CLAIM_COOLDOWN;
    assert_eq!(handle_claim_cashback(&mut account, 10, t1), Ok(10));
    assert_eq!(account.last_claim_timestamp, t1);
    // a second claim within the window fails again
    assert_eq!(
        handle_claim_cashback(&mut account, 10, t1 + CASHBACK_CLAIM_COOLDOWN - 1),
        Err(AmmError::ClaimCooldownNotMet)
    );
}

#[test]
fn reclaim_needs_a_dormant_account_and_a_balance() {
    let account = CashbackAccount {
        owner: [1u8; 32],
        current_tier: 0,
        last_claim_timestamp: 500,
    };
    assert_eq!(
        handle_reclaim_cashback(&account, 10, 500 + CASHBACK_INACTIVE_PERIOD - 1),
        Err(AmmError::AccountNotInactive)
    );
    assert_eq!(
        handle_reclaim_cashback(&account, 0, 500 + CASHBACK_INACTIVE_PERIOD),
        Err(AmmError::NoCashbackToClaim)
    );
    assert_eq!(
        handle_reclaim_cashback(&account, 10, 500 + CASHBACK_INACTIVE_PERIOD),
        Ok(10)
    );
    // reclamation leaves the claim clock alone
    assert_eq!(account.last_claim_timestamp, 500);
}

#[test]
fn stored_tiers_past_the_table_read_as_the_top_tier() {
    let mut account = CashbackAccount {
        owner: [1u8; 32],
        current_tier: 0,
        last_claim_timestamp: 0,
    };
    handle_update_cashback_tier(&mut account, 3).unwrap();
    assert_eq!(account.get_tier(), Ok(CashbackTier::Gold));
    handle_update_cashback_tier(&mut account, 9).unwrap();
    assert_eq!(account.get_tier(), Ok(CashbackTier::Champion));
}

fn valid_params() -> ConfigParameters {
    ConfigParameters {
        base_token_flag: 0,
        base_decimal: 6,
        fee_basis_points: 2000,
        l1_referral_fee_basis_points: 300,
        l2_referral_fee_basis_points: 200,
        l3_referral_fee_basis_points: 100,
        referee_discount_basis_points: 50,
        creator_fee_basis_points: 150,
        meme_fee_basis_points: 50,
        migration_fee_basis_points: 0,
        migration_base_threshold: 800,
        migration_quote_threshold: 500,
        initial_virtual_quote_reserve: 1_000,
        initial_virtual_base_reserve: 2_000,
    }
}

#[test]
fn config_validation_accepts_a_sound_parameter_set() {
    assert_eq!(valid_params().validate(), Ok(()));
}

#[test]
fn config_validation_rejects_each_broken_invariant() {
    let mut p = valid_params();
    p.base_token_flag = 2;
    assert_eq!(p.validate(), Err(AmmError::InvalidTokenType));

    let mut p = valid_params();
    p.base_decimal = 5;
    assert_eq!(p.validate(), Err(AmmError::InvalidTokenDecimals));

    let mut p = valid_params();
    p.fee_basis_points = 800;
    // 300 + 200 + 100 + 150 + 250 = 1000 >= 800
    assert_eq!(p.validate(), Err(AmmError::InvalidFeeBasisPoints));

    let mut p = valid_params();
    p.l2_referral_fee_basis_points = 300;
    assert_eq!(p.validate(), Err(AmmError::InvalidAmmConfig));

    let mut p = valid_params();
    p.l3_referral_fee_basis_points = 200;
    assert_eq!(p.validate(), Err(AmmError::InvalidAmmConfig));

    let mut p = valid_params();
    p.creator_fee_basis_points = 1001;
    p.fee_basis_points = 2000;
    assert_eq!(
        p.validate(),
        Err(AmmError::InvalidCreatorTradingFeePercentage)
    );

    let mut p = valid_params();
    p.fee_basis_points = 10_001;
    assert_eq!(p.validate(), Err(AmmError::InvalidAmmConfig));

    let mut p = valid_params();
    p.migration_base_threshold = 0;
    assert_eq!(p.validate(), Err(AmmError::InvalidAmmConfig));
}

#[test]
fn token_metadata_lengths_are_checked_in_order() {
    let good = CreateCurveParams {
        name: String::from("Token"),
        symbol: String::from("TOK"),
        uri: String::from("https://example.invalid/meta.json"),
    };
    assert_eq!(good.validate(), Ok(()));

    let bad_name = CreateCurveParams {
        name: String::new(),
        symbol: String::from("TOK"),
        uri: String::from("u"),
    };
    assert_eq!(bad_name.validate(), Err(AmmError::InvalidTokenName));

    let bad_symbol = CreateCurveParams {
        name: String::from("Token"),
        symbol: String::from("TOOLONGTICKER"),
        uri: String::from("u"),
    };
    assert_eq!(bad_symbol.validate(), Err(AmmError::InvalidTokenSymbol));

    let bad_uri = CreateCurveParams {
        name: String::from("Token"),
        symbol: String::from("TOK"),
        uri: String::new(),
    };
    assert_eq!(bad_uri.validate(), Err(AmmError::InvalidTokenUri));
}

#[test]
fn migration_amount_keeps_back_the_fee_rounding_up() {
    let mut curve = BondingCurve::default();
    curve.quote_reserve = 1_000_000;
    curve.base_reserve = 1_000_000;
    let amounts = curve.get_migration_amount(5_000).unwrap();
    assert_eq!(amounts.quote_amount, 950_000);
    assert_eq!(amounts.base_amount, 950_000);
}

#[test]
fn create_config_records_the_validated_parameters() {
    let mut config = Config {
        quote_mint: [0u8; 32],
        fee_claimer: [0u8; 32],
        base_token_flag: 0,
        quote_token_flag: 0,
        base_decimal: 0,
        quote_decimal: 0,
        fee_basis_points: 0,
        l1_referral_fee_basis_points: 0,
        l2_referral_fee_basis_points: 0,
        l3_referral_fee_basis_points: 0,
        referee_discount_basis_points: 0,
        creator_fee_basis_points: 0,
        meme_fee_basis_points: 0,
        migration_fee_basis_points: 0,
        migration_base_threshold: 0,
        migration_quote_threshold: 0,
        initial_virtual_quote_reserve: 0,
        initial_virtual_base_reserve: 0,
    };
    handle_create_config(&mut config, valid_params(), &[7u8; 32], &[8u8; 32], 1, 9).unwrap();
    assert_eq!(config.quote_mint, [7u8; 32]);
    assert_eq!(config.fee_claimer, [8u8; 32]);
    assert_eq!(config.quote_token_flag, 1);
    assert_eq!(config.quote_decimal, 9);
    assert_eq!(config.fee_basis_points, 2000);
    assert_eq!(config.migration_base_threshold, 800);

    let mut bad = valid_params();
    bad.migration_base_threshold = 0;
    let before = config;
    assert_eq!(
        handle_create_config(&mut config, bad, &[7u8; 32], &[8u8; 32], 1, 9),
        Err(AmmError::InvalidAmmConfig)
    );
    assert_eq!(config.fee_basis_points, before.fee_basis_points);
}

#[test]
fn create_curve_seeds_the_full_supply_and_virtual_reserves() {
    let config = plain_config();
    let mut curve = BondingCurve::default();
    let params = CreateCurveParams {
        name: String::from("Token"),
        symbol: String::from("TOK"),
        uri: String::from("https://example.invalid/meta.json"),
    };
    handle_create_curve_spl_token(
        &mut curve,
        &config,
        &params,
        [1u8; 32],
        [2u8; 32],
        [3u8; 32],
        [4u8; 32],
        [5u8; 32],
    )
    .unwrap();
    assert_eq!(curve.base_reserve, 1_000_000_000_000_000);
    assert_eq!(curve.virtual_quote_reserve, 1_000);
    assert_eq!(curve.virtual_base_reserve, 2_000);
    assert_eq!(curve.creator, [2u8; 32]);

    let mut curve2 = BondingCurve::default();
    let mut config2 = plain_config();
    config2.base_token_flag = 1;
    assert_eq!(
        handle_create_curve_spl_token(
            &mut curve2,
            &config2,
            &params,
            [1u8; 32],
            [2u8; 32],
            [3u8; 32],
            [4u8; 32],
            [5u8; 32],
        ),
        Err(AmmError::InvalidTokenType)
    );
}

#[test]
fn external_pool_configuration_must_match_the_price_bounds() {
    assert_eq!(
        validate_damm_config_key(0, MIN_SQRT_PRICE, MAX_SQRT_PRICE, true),
        Ok(())
    );
    assert_eq!(
        validate_damm_config_key(1, MIN_SQRT_PRICE, MAX_SQRT_PRICE, true),
        Err(AmmError::InvalidConfigAccount)
    );
    assert_eq!(
        validate_damm_config_key(0, MIN_SQRT_PRICE + 1, MAX_SQRT_PRICE, true),
        Err(AmmError::InvalidConfigAccount)
    );
    assert_eq!(
        validate_damm_config_key(0, MIN_SQRT_PRICE, MAX_SQRT_PRICE, false),
        Err(AmmError::InvalidConfigAccount)
    );
}

#[test]
fn token_metadata_lengths_count_bytes_not_characters() {
    // nine two-byte characters: nine characters but eighteen bytes, past
    // the ten-byte symbol limit
    let wide_symbol = CreateCurveParams {
        name: String::from("Token"),
        symbol: String::from("\u{e9}\u{e9}\u{e9}\u{e9}\u{e9}\u{e9}\u{e9}\u{e9}\u{e9}"),
        uri: String::from("u"),
    };
    assert_eq!(wide_symbol.symbol.chars().count(), 9);
    assert_eq!(wide_symbol.symbol.len(), 18);
    assert_eq!(wide_symbol.validate(), Err(AmmError::InvalidTokenSymbol));
}

