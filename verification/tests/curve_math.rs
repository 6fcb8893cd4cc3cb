use amm_core::bonding_curve::get_price;
use amm_core::bonding_curve::get_swap_amount_from_base_to_quote;
use amm_core::bonding_curve::get_swap_amount_from_quote_to_base;
use amm_core::errors::AmmError;
use amm_core::liquidity_distribution::get_sqrt_price_from_amounts;

#[test]
fn buy_preserves_the_constant_product() {
    let virtual_quote: u128 = 30_000_000_000;
    let virtual_base: u128 = 1_073_000_000_000_000;
    let amount_in: u64 = 1_000_000_000;
    let out = get_swap_amount_from_quote_to_base(virtual_quote, virtual_base, amount_in).unwrap();
    assert_eq!(out, 34_612_903_225_806);
    // the scaled product sits between consecutive multiples of the new
    // quote reserve: k is preserved up to the final division's rounding
    let k: u128 = virtual_quote * virtual_base * 1000;
    let new_vq: u128 = virtual_quote + amount_in as u128;
    let new_vbs: u128 = k / new_vq;
    assert_eq!(new_vbs, 1_038_387_096_774_193_548);
    assert!(new_vq * new_vbs <= k);
    assert!(k < new_vq * (new_vbs + 1));
    assert_eq!(out as u128, (virtual_base * 1000 - new_vbs) / 1000);
}

#[test]
fn sell_pays_out_quote() {
    let out = get_swap_amount_from_base_to_quote(
        30_000_000_000,
        1_073_000_000_000_000,
        1_000_000_000,
    )
    .unwrap();
    assert_eq!(out, 27_959);
}

#[test]
fn swap_on_empty_pool_is_math_overflow() {
    assert_eq!(
        get_swap_amount_from_quote_to_base(0, 0, 0),
        Err(AmmError::MathOverflow)
    );
}

#[test]
fn price_is_quote_over_scaled_base() {
    assert_eq!(get_price(2_000_000_000_000, 1_000_000), Ok(2000));
    assert_eq!(get_price(1, 0), Err(AmmError::MathOverflow));
}

#[test]
fn sqrt_price_of_a_perfect_square_ratio() {
    // quote/base = 4, scaled to 4e18; its root 2e9 lands in the high half
    let price = get_sqrt_price_from_amounts(1, 4, 6, 6).unwrap();
    assert_eq!(price, 2_000_000_000u128 * (1u128 << 64));
}

#[test]
fn sqrt_price_adjusts_for_decimal_difference() {
    // base has three more decimals, so the scaled price divides by 1000
    let price = get_sqrt_price_from_amounts(1_000_000, 9_000_000, 9, 6).unwrap();
    assert_eq!(price, 94_868_329u128 * (1u128 << 64));
}

#[test]
fn sqrt_price_of_zero_base_is_rejected() {
    assert_eq!(
        get_sqrt_price_from_amounts(0, 5, 6, 6),
        Err(AmmError::AmountIsZero)
    );
}

#[test]
fn sqrt_price_grows_with_the_quote_amount() {
    let low = get_sqrt_price_from_amounts(1_000_000, 4_000_000, 6, 6).unwrap();
    let high = get_sqrt_price_from_amounts(1_000_000, 9_000_000, 6, 6).unwrap();
    assert_eq!(low, 2_000_000_000u128 * (1u128 << 64));
    assert_eq!(high, 3_000_000_000u128 * (1u128 << 64));
    assert!(low < high);
}

#[test]
fn newton_reports_a_price_it_cannot_settle() {
    // a radicand of the form s*(s+2) makes the integer Newton iteration
    // oscillate between s and s+1, which the engine reports rather than
    // returning either endpoint
    let r = get_sqrt_price_from_amounts(1_000_000_000_000_000_000, 8, 6, 6);
    assert_eq!(r, Err(AmmError::MathOverflow));
}

#[test]
fn feeless_round_trip_returns_the_quote_paid() {
    // buy 100 quote on a small pool, then sell the whole base output back
    let out = get_swap_amount_from_quote_to_base(1_000, 2_000, 100).unwrap();
    assert_eq!(out, 181);
    let back = get_swap_amount_from_base_to_quote(1_100, 2_000 - out as u128, out).unwrap();
    assert_eq!(back, 100);
}

