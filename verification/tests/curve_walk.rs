use amm_core::constants::MAX_SQRT_PRICE;
use amm_core::constants::MIN_SQRT_PRICE;
use amm_core::curve::get_delta_amount_base_unsigned;
use amm_core::curve::get_delta_amount_quote_unsigned;
use amm_core::curve::get_initial_liquidity_from_delta_quote;
use amm_core::curve::get_next_sqrt_price_from_input;
use amm_core::curve::swap_base_to_quote_on_curve;
use amm_core::curve::swap_quote_to_base_on_curve;
use amm_core::curve::LiquidityPoint;
use amm_core::errors::AmmError;
use amm_core::math::Rounding;

const P0: u128 = 1u128 << 64;
const P1: u128 = 2u128 << 64;
const LIQ: u128 = 1u128 << 70;

#[test]
fn delta_amounts_match_the_interval_formulas() {
    // quote spanned: L * (upper - lower) / 2^128 = 2^134 / 2^128 = 64
    assert_eq!(
        get_delta_amount_quote_unsigned(P0, P1, LIQ, Rounding::Up),
        Ok(64)
    );
    // base spanned: L * (upper - lower) / (upper * lower) = 2^134 / 2^129
    assert_eq!(
        get_delta_amount_base_unsigned(P0, P1, LIQ, Rounding::Down),
        Ok(32)
    );
}

#[test]
fn next_price_moves_up_for_quote_input() {
    // price rises by 32 * 2^128 / 2^70 = 2^63
    assert_eq!(
        get_next_sqrt_price_from_input(P0, LIQ, 32, false),
        Ok(P0 + (1u128 << 63))
    );
}

#[test]
fn buy_walk_stops_inside_the_segment_that_absorbs_the_rest() {
    let points = vec![LiquidityPoint { sqrt_price: P1, liquidity: LIQ }];
    let step = swap_quote_to_base_on_curve(&points, P0, 32, 0).unwrap();
    assert_eq!(step.next_sqrt_price, P0 + (1u128 << 63));
    assert_eq!(step.output_amount, 21);
    assert!(step.next_sqrt_price >= MIN_SQRT_PRICE && step.next_sqrt_price <= MAX_SQRT_PRICE);
}

#[test]
fn buy_walk_consumes_whole_segments_and_tolerates_a_small_leftover() {
    let points = vec![LiquidityPoint { sqrt_price: P1, liquidity: LIQ }];
    // the single segment absorbs 64; the leftover 36 exceeds a zero limit
    assert_eq!(
        swap_quote_to_base_on_curve(&points, P0, 100, 0),
        Err(AmmError::SwapAmountIsOverAThreshold)
    );
    // within the swallow limit the leftover is forgiven
    let step = swap_quote_to_base_on_curve(&points, P0, 100, 40).unwrap();
    assert_eq!(step.output_amount, 32);
    assert_eq!(step.next_sqrt_price, P1);
}

#[test]
fn buy_walk_ends_at_a_zero_breakpoint() {
    let points = vec![
        LiquidityPoint { sqrt_price: P1, liquidity: LIQ },
        LiquidityPoint { sqrt_price: 0, liquidity: 0 },
    ];
    let step = swap_quote_to_base_on_curve(&points, P0, 64, 0).unwrap();
    assert_eq!(step.next_sqrt_price, P1);
    assert_eq!(step.output_amount, 32);
}

#[test]
fn sell_walk_stops_inside_the_segment_that_absorbs_the_rest() {
    let points = vec![LiquidityPoint { sqrt_price: P1, liquidity: LIQ }];
    let step = swap_base_to_quote_on_curve(&points, P1, 1_000, 0).unwrap();
    assert_eq!(step.next_sqrt_price, 1_143_984_128_602_142_736);
    assert_eq!(step.output_amount, 124);
    assert!(step.next_sqrt_price >= MIN_SQRT_PRICE);
}

#[test]
fn sell_walk_skips_zero_breakpoints() {
    let points = vec![
        LiquidityPoint { sqrt_price: 0, liquidity: 0 },
        LiquidityPoint { sqrt_price: P1, liquidity: LIQ },
    ];
    let step = swap_base_to_quote_on_curve(&points, P1, 1_000, 0).unwrap();
    assert_eq!(step.next_sqrt_price, 1_143_984_128_602_142_736);
    assert_eq!(step.output_amount, 124);
}

#[test]
fn quote_deposit_liquidity_matches_the_formula() {
    assert_eq!(
        get_initial_liquidity_from_delta_quote(500_000, MIN_SQRT_PRICE, P0),
        Ok(9_223_372_039_002_299_816_500_018)
    );
}

#[test]
fn quote_deposit_liquidity_past_128_bits_is_a_cast_failure() {
    // a huge deposit over a one-unit price gap supports more liquidity
    // than 128 bits can name
    assert_eq!(
        get_initial_liquidity_from_delta_quote(u64::MAX, MIN_SQRT_PRICE, MIN_SQRT_PRICE + 1),
        Err(AmmError::TypeCastFailed)
    );
}

