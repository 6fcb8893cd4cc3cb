//! Segment/curve evaluator: token deltas over a Q64.64 square-root price
//! interval at constant liquidity, the price reached after consuming an
//! input, the walk across breakpoints, and the liquidity seeded into the
//! migration pool.
use vstd::prelude::*;
use vstd::arithmetic::div_mod::lemma_div_pos_is_pos;
use vstd::arithmetic::mul::lemma_mul_nonnegative;

use crate::constants::MAX_SQRT_PRICE;
use crate::constants::MIN_SQRT_PRICE;
use crate::errors::AmmError;
use crate::math::Rounding;
use crate::wide::spec_div_round;
use crate::wide::wide_add;
use crate::wide::wide_div;
use crate::wide::wide_div_round;
use crate::wide::wide_mul;
use crate::wide::wide_mul_div;
use crate::wide::wide_val;
use crate::wide::Wide;

verus! {

/// One breakpoint of a segmented curve: constant liquidity applies from
/// the previous breakpoint's price up to this one.
#[derive(Clone, Copy, Debug, PartialEq, Eq, Structural)]
pub struct LiquidityPoint {
    pub sqrt_price: u128,
    pub liquidity: u128,
}

/// The token-0 amount spanned by a price interval at given liquidity:
/// `liquidity * (upper - lower) / (upper * lower)`, under the caller's
/// rounding.
pub open spec fn spec_delta_base(lower: int, upper: int, liquidity: int, rounding: Rounding) -> int {
    spec_div_round(liquidity * (upper - lower), upper * lower, rounding)
}

/// The token-1 amount spanned by a price interval at given liquidity:
/// `liquidity * (upper - lower)` scaled down by the Q64.64 fixed-point
/// base of both factors, under the caller's rounding.
pub open spec fn spec_delta_quote(lower: int, upper: int, liquidity: int, rounding: Rounding) -> int {
    spec_div_round(liquidity * (upper - lower), 0x100000000000000000000000000000000int, rounding)
}

/// Two 128-bit factors never overflow 256 bits.
proof fn lemma_wide_product_fits(a: int, b: int)
    requires
        0 <= a <= u128::MAX,
        0 <= b <= u128::MAX,
    ensures
        a * b < 0x10000000000000000000000000000000000000000000000000000000000000000int,
        a * b >= 0,
{
    assert(a * b <= u128::MAX * u128::MAX) by (nonlinear_arith)
        requires
            0 <= a <= u128::MAX && 0 <= b <= u128::MAX,
    ;
    lemma_mul_nonnegative(a, b);
}

/// Token-0 amount for a price interval at constant liquidity, rounded per
/// the caller's mode; fails only when the result does not fit 64 bits.
pub fn get_delta_amount_base_unsigned(
    lower_sqrt_price: u128,
    upper_sqrt_price: u128,
    liquidity: u128,
    rounding: Rounding,
) -> (r: Result<u64, AmmError>)
    requires
        0 < lower_sqrt_price <= upper_sqrt_price,
    ensures
        r matches Ok(v) ==> v == spec_delta_base(
            lower_sqrt_price as int,
            upper_sqrt_price as int,
            liquidity as int,
            rounding,
        ),
        r is Ok <==> spec_delta_base(
            lower_sqrt_price as int,
            upper_sqrt_price as int,
            liquidity as int,
            rounding,
        ) <= u64::MAX,
        r is Err ==> r == Err::<u64, AmmError>(AmmError::TypeCastFailed),
{
    proof {
        lemma_wide_product_fits(liquidity as int, (upper_sqrt_price - lower_sqrt_price) as int);
        lemma_wide_product_fits(upper_sqrt_price as int, lower_sqrt_price as int);
        assert(upper_sqrt_price as int * lower_sqrt_price as int > 0) by (nonlinear_arith)
            requires
                upper_sqrt_price > 0 && lower_sqrt_price > 0,
        ;
    }
    let numerator = match wide_mul(
        &Wide::from_u128(liquidity),
        &Wide::from_u128(upper_sqrt_price - lower_sqrt_price),
    ) {
        Ok(v) => v,
        Err(e) => {
            return Err(AmmError::TypeCastFailed);
        },
    };
    let denominator = match wide_mul(
        &Wide::from_u128(upper_sqrt_price),
        &Wide::from_u128(lower_sqrt_price),
    ) {
        Ok(v) => v,
        Err(e) => {
            return Err(AmmError::TypeCastFailed);
        },
    };
    let quotient = match wide_div_round(&numerator, &denominator, rounding) {
        Ok(v) => v,
        Err(e) => {
            return Err(AmmError::TypeCastFailed);
        },
    };
    match quotient.to_u64() {
        Some(v) => Ok(v),
        None => Err(AmmError::TypeCastFailed),
    }
}

/// Token-1 amount for a price interval at constant liquidity, rounded per
/// the caller's mode; fails only when the result does not fit 64 bits.
pub fn get_delta_amount_quote_unsigned(
    lower_sqrt_price: u128,
    upper_sqrt_price: u128,
    liquidity: u128,
    rounding: Rounding,
) -> (r: Result<u64, AmmError>)
    requires
        lower_sqrt_price <= upper_sqrt_price,
    ensures
        r matches Ok(v) ==> v == spec_delta_quote(
            lower_sqrt_price as int,
            upper_sqrt_price as int,
            liquidity as int,
            rounding,
        ),
        r is Ok <==> spec_delta_quote(
            lower_sqrt_price as int,
            upper_sqrt_price as int,
            liquidity as int,
            rounding,
        ) <= u64::MAX,
        r is Err ==> r == Err::<u64, AmmError>(AmmError::TypeCastFailed),
{
    proof {
        lemma_wide_product_fits(liquidity as int, (upper_sqrt_price - lower_sqrt_price) as int);
    }
    let numerator = match wide_mul(
        &Wide::from_u128(liquidity),
        &Wide::from_u128(upper_sqrt_price - lower_sqrt_price),
    ) {
        Ok(v) => v,
        Err(e) => {
            return Err(AmmError::TypeCastFailed);
        },
    };
    let denominator = Wide::from_u128_shifted(1);
    let quotient = match wide_div_round(&numerator, &denominator, rounding) {
        Ok(v) => v,
        Err(e) => {
            return Err(AmmError::TypeCastFailed);
        },
    };
    match quotient.to_u64() {
        Some(v) => Ok(v),
        None => Err(AmmError::TypeCastFailed),
    }
}

/// The price after injecting quote at constant liquidity: the price rises
/// by the floor of `amount * 2^128 / liquidity`.
pub open spec fn spec_next_sqrt_price_up(sqrt_price: int, liquidity: int, amount_in: int) -> int {
    sqrt_price + amount_in * 0x100000000000000000000000000000000int / liquidity
}

/// The price after injecting base at constant liquidity: the ceiling of
/// `liquidity * price / (liquidity + amount * price)`.
pub open spec fn spec_next_sqrt_price_down(sqrt_price: int, liquidity: int, amount_in: int) -> int {
    spec_div_round(liquidity * sqrt_price, liquidity + amount_in * sqrt_price, Rounding::Up)
}

/// Solve for the square-root price after consuming the whole input within
/// one segment. Injecting base moves the price down, rounded up so the
/// pool never undercharges; injecting quote moves it up, its increment
/// rounded down for the same reason.
pub fn get_next_sqrt_price_from_input(
    sqrt_price: u128,
    liquidity: u128,
    amount_in: u64,
    base_for_input: bool,
) -> (r: Result<u128, AmmError>)
    requires
        sqrt_price > 0,
        liquidity > 0,
    ensures
        base_for_input ==> r == Ok::<u128, AmmError>(
            spec_next_sqrt_price_down(sqrt_price as int, liquidity as int, amount_in as int) as u128,
        ),
        base_for_input ==> spec_next_sqrt_price_down(
            sqrt_price as int,
            liquidity as int,
            amount_in as int,
        ) <= sqrt_price,
        base_for_input ==> spec_next_sqrt_price_down(
            sqrt_price as int,
            liquidity as int,
            amount_in as int,
        ) >= 1,
        !base_for_input ==> ({
            let next = spec_next_sqrt_price_up(
                sqrt_price as int,
                liquidity as int,
                amount_in as int,
            );
            if next <= u128::MAX {
                r == Ok::<u128, AmmError>(next as u128) && next >= sqrt_price
            } else {
                r == Err::<u128, AmmError>(AmmError::MathOverflow)
            }
        }),
{
    if base_for_input {
        proof {
            lemma_wide_product_fits(liquidity as int, sqrt_price as int);
            lemma_wide_product_fits(amount_in as int, sqrt_price as int);
            assert((liquidity as int) + (amount_in as int) * (sqrt_price as int)
                < 0x10000000000000000000000000000000000000000000000000000000000000000int)
                by (nonlinear_arith)
                requires
                    0 < liquidity <= u128::MAX && 0 < sqrt_price <= u128::MAX && amount_in
                        <= u64::MAX,
            ;
        }
        let numerator = match wide_mul(&Wide::from_u128(liquidity), &Wide::from_u128(sqrt_price)) {
            Ok(v) => v,
            Err(e) => {
                return Err(AmmError::MathOverflow);
            },
        };
        let product = match wide_mul(
            &Wide::from_u128(amount_in as u128),
            &Wide::from_u128(sqrt_price),
        ) {
            Ok(v) => v,
            Err(e) => {
                return Err(AmmError::MathOverflow);
            },
        };
        let denominator = match wide_add(&Wide::from_u128(liquidity), &product) {
            Ok(v) => v,
            Err(e) => {
                return Err(AmmError::MathOverflow);
            },
        };
        proof {
            lemma_next_price_down_bounds(
                sqrt_price as int,
                liquidity as int,
                amount_in as int,
            );
        }
        let quotient = match wide_div_round(&numerator, &denominator, Rounding::Up) {
            Ok(v) => v,
            Err(e) => {
                return Err(AmmError::MathOverflow);
            },
        };
        match quotient.to_u128() {
            Some(v) => Ok(v),
            None => Err(AmmError::MathOverflow),
        }
    } else {
        let shifted = Wide::from_u128_shifted(amount_in as u128);
        let quotient = match wide_div(&shifted, &Wide::from_u128(liquidity)) {
            Ok(v) => v,
            Err(e) => {
                return Err(AmmError::MathOverflow);
            },
        };
        proof {
            lemma_mul_nonnegative(amount_in as int, 0x100000000000000000000000000000000int);
            lemma_div_pos_is_pos(
                amount_in as int * 0x100000000000000000000000000000000int,
                liquidity as int,
            );
        }
        let next = match wide_add(&Wide::from_u128(sqrt_price), &quotient) {
            Ok(v) => v,
            Err(e) => {
                return Err(AmmError::MathOverflow);
            },
        };
        match next.to_u128() {
            Some(v) => Ok(v),
            None => Err(AmmError::MathOverflow),
        }
    }
}

/// Moving down within a segment keeps the price positive and never raises
/// it: the ceiling quotient stays within `[1, sqrt_price]`.
proof fn lemma_next_price_down_bounds(sqrt_price: int, liquidity: int, amount_in: int)
    requires
        0 < sqrt_price <= u128::MAX,
        0 < liquidity <= u128::MAX,
        0 <= amount_in,
    ensures
        1 <= spec_next_sqrt_price_down(sqrt_price, liquidity, amount_in) <= sqrt_price,
{
    let num = liquidity * sqrt_price;
    let den = liquidity + amount_in * sqrt_price;
    assert(num >= liquidity && den >= liquidity && den >= 1 && num >= 1) by (nonlinear_arith)
        requires
            num == liquidity * sqrt_price,
            den == liquidity + amount_in * sqrt_price,
            0 < sqrt_price && 0 < liquidity && 0 <= amount_in,
    ;
    assert((num + den - 1) / den <= sqrt_price) by (nonlinear_arith)
        requires
            num == liquidity * sqrt_price,
            den >= liquidity && den >= 1 && 0 < sqrt_price && 0 < liquidity,
    ;
    assert((num + den - 1) / den >= 1) by (nonlinear_arith)
        requires
            num >= 1 && den >= 1,
    ;
}

/// Where the curve walk stopped: the tokens paid out and the price
/// reached.
#[derive(Clone, Copy, Debug, PartialEq, Eq, Structural)]
pub struct CurveStep {
    pub output_amount: u64,
    pub next_sqrt_price: u128,
}

/// Every breakpoint either is a zero sentinel (curve not configured past
/// this point) or carries a price within the global bounds.
pub open spec fn spec_curve_in_bounds(points: Seq<LiquidityPoint>) -> bool {
    forall|i: int|
        0 <= i < points.len() ==> ((#[trigger] points[i]).sqrt_price == 0 || (MIN_SQRT_PRICE
            <= points[i].sqrt_price <= MAX_SQRT_PRICE))
}

/// An input below a segment's rounded-up capacity moves the price less
/// than the whole segment: the partial-fill price stays under the
/// breakpoint.
proof fn lemma_buy_partial_within(price: int, upper: int, liquidity: int, remaining: int)
    requires
        0 < price < upper,
        liquidity >= 1,
        0 <= remaining,
        remaining < spec_delta_quote(price, upper, liquidity, Rounding::Up),
    ensures
        spec_next_sqrt_price_up(price, liquidity, remaining) < upper,
{
    let d = 0x100000000000000000000000000000000int;
    let n = liquidity * (upper - price);
    assert(n >= 1) by (nonlinear_arith)
        requires
            liquidity >= 1 && upper - price >= 1 && n == liquidity * (upper - price),
    ;
    vstd::arithmetic::div_mod::lemma_div_plus_one(n - 1, d);
    assert(remaining <= (n - 1) / d);
    vstd::arithmetic::div_mod::lemma_fundamental_div_mod(n - 1, d);
    vstd::arithmetic::div_mod::lemma_mod_bound(n - 1, d);
    assert(remaining * d <= n - 1) by (nonlinear_arith)
        requires
            remaining <= (n - 1) / d && n - 1 == d * ((n - 1) / d) + (n - 1) % d && (n - 1) % d
                >= 0 && d > 0 && remaining >= 0,
    ;
    vstd::arithmetic::div_mod::lemma_fundamental_div_mod(remaining * d, liquidity);
    assert(remaining * d / liquidity < upper - price) by (nonlinear_arith)
        requires
            remaining * d < liquidity * (upper - price),
            remaining * d == liquidity * (remaining * d / liquidity) + (remaining * d) % liquidity,
            (remaining * d) % liquidity >= 0,
            liquidity >= 1,
            remaining * d >= 0,
    ;
}

/// An input below a segment's rounded-up capacity leaves the partial-fill
/// price above the segment's lower breakpoint.
proof fn lemma_sell_partial_above(lower: int, upper: int, liquidity: int, remaining: int)
    requires
        0 < lower < upper,
        liquidity >= 1,
        0 <= remaining,
        remaining < spec_delta_base(lower, upper, liquidity, Rounding::Up),
    ensures
        spec_next_sqrt_price_down(upper, liquidity, remaining) >= lower,
{
    let d = upper * lower;
    let n = liquidity * (upper - lower);
    assert(n >= 1 && d >= 1) by (nonlinear_arith)
        requires
            liquidity >= 1 && upper - lower >= 1 && 0 < lower < upper && n == liquidity * (upper
                - lower) && d == upper * lower,
    ;
    vstd::arithmetic::div_mod::lemma_div_plus_one(n - 1, d);
    assert(remaining <= (n - 1) / d);
    vstd::arithmetic::div_mod::lemma_fundamental_div_mod(n - 1, d);
    vstd::arithmetic::div_mod::lemma_mod_bound(n - 1, d);
    assert(remaining * d <= n - 1) by (nonlinear_arith)
        requires
            remaining <= (n - 1) / d && n - 1 == d * ((n - 1) / d) + (n - 1) % d && (n - 1) % d
                >= 0 && d > 0 && remaining >= 0,
    ;
    let num = liquidity * upper;
    let den = liquidity + remaining * upper;
    assert(num >= lower * den + 1 && den >= 1) by (nonlinear_arith)
        requires
            remaining * (upper * lower) <= liquidity * (upper - lower) - 1,
            num == liquidity * upper,
            den == liquidity + remaining * upper,
            0 < lower < upper,
            liquidity >= 1,
            remaining >= 0,
    ;
    vstd::arithmetic::div_mod::lemma_fundamental_div_mod(num + den - 1, den);
    vstd::arithmetic::div_mod::lemma_mod_bound(num + den - 1, den);
    assert((num + den - 1) / den >= lower) by (nonlinear_arith)
        requires
            num >= lower * den + 1,
            den >= 1,
            lower >= 1,
            num + den - 1 == den * ((num + den - 1) / den) + (num + den - 1) % den,
            0 <= (num + den - 1) % den < den,
    ;
}

/// The end of the walk: input left unabsorbed by the configured curve is
/// tolerated only up to the swallow limit.
pub open spec fn spec_walk_leftover(
    remaining: u64,
    swallow_limit: u64,
    acc: u64,
    price: u128,
) -> Result<CurveStep, AmmError> {
    if remaining > swallow_limit {
        Err(AmmError::SwapAmountIsOverAThreshold)
    } else {
        Ok((CurveStep { output_amount: acc, next_sqrt_price: price }))
    }
}

/// The buy walk from breakpoint `i` on, step for step: segments at or
/// below the price are skipped, a zero breakpoint ends the configured
/// curve, a segment with room for the rest is exited at the exact solved
/// price, and a full segment is consumed and the walk continues above it.
pub open spec fn spec_walk_buy(
    points: Seq<LiquidityPoint>,
    i: int,
    price: u128,
    remaining: u64,
    acc: u64,
    swallow_limit: u64,
) -> Result<CurveStep, AmmError>
    decreases points.len() - i,
{
    if i < 0 || i >= points.len() {
        spec_walk_leftover(remaining, swallow_limit, acc, price)
    } else {
        let pt = points[i];
        if pt.sqrt_price == 0 || pt.liquidity == 0 {
            spec_walk_leftover(remaining, swallow_limit, acc, price)
        } else if pt.sqrt_price <= price {
            spec_walk_buy(points, i + 1, price, remaining, acc, swallow_limit)
        } else {
            let cap = spec_delta_quote(
                price as int,
                pt.sqrt_price as int,
                pt.liquidity as int,
                Rounding::Up,
            );
            if remaining < cap {
                let next = spec_next_sqrt_price_up(
                    price as int,
                    pt.liquidity as int,
                    remaining as int,
                );
                let out = spec_delta_base(price as int, next, pt.liquidity as int, Rounding::Down);
                if out > u64::MAX {
                    Err(AmmError::TypeCastFailed)
                } else if acc + out > u64::MAX {
                    Err(AmmError::MathOverflow)
                } else {
                    Ok(
                        (CurveStep {
                            output_amount: (acc + out) as u64,
                            next_sqrt_price: next as u128,
                        }),
                    )
                }
            } else {
                let out = spec_delta_base(
                    price as int,
                    pt.sqrt_price as int,
                    pt.liquidity as int,
                    Rounding::Down,
                );
                if out > u64::MAX {
                    Err(AmmError::TypeCastFailed)
                } else if acc + out > u64::MAX {
                    Err(AmmError::MathOverflow)
                } else {
                    spec_walk_buy(
                        points,
                        i + 1,
                        pt.sqrt_price,
                        (remaining - cap) as u64,
                        (acc + out) as u64,
                        swallow_limit,
                    )
                }
            }
        }
    }
}

/// Walk the curve upward for a buy: consume each segment's capacity in
/// breakpoint order, solve for the exit price inside the segment that
/// absorbs the rest, and pay out the spanned base amount. A zero
/// breakpoint ends the configured curve; input left unabsorbed there is
/// tolerated only up to the caller's swallow limit. The price never
/// leaves the global bounds.
pub fn swap_quote_to_base_on_curve(
    points: &Vec<LiquidityPoint>,
    sqrt_start_price: u128,
    amount_in: u64,
    swallow_limit: u64,
) -> (r: Result<CurveStep, AmmError>)
    requires
        MIN_SQRT_PRICE <= sqrt_start_price <= MAX_SQRT_PRICE,
        spec_curve_in_bounds(points@),
    ensures
        r == spec_walk_buy(points@, 0, sqrt_start_price, amount_in, 0, swallow_limit),
        r matches Ok(st) ==> MIN_SQRT_PRICE <= st.next_sqrt_price <= MAX_SQRT_PRICE,
        r matches Ok(st) ==> st.next_sqrt_price >= sqrt_start_price,
{
    let mut price: u128 = sqrt_start_price;
    let mut remaining: u64 = amount_in;
    let mut total_output: u64 = 0;
    let mut i: usize = 0;
    let n: usize = points.len();
    while i < n
        invariant
            MIN_SQRT_PRICE <= price <= MAX_SQRT_PRICE,
            price >= sqrt_start_price,
            i <= n == points@.len(),
            spec_curve_in_bounds(points@),
            spec_walk_buy(points@, i as int, price, remaining, total_output, swallow_limit)
                == spec_walk_buy(points@, 0, sqrt_start_price, amount_in, 0, swallow_limit),
        decreases n - i,
    {
        let pt = points[i];
        if pt.sqrt_price == 0 || pt.liquidity == 0 {
            // curve not configured past this point
            if remaining > swallow_limit {
                return Err(AmmError::SwapAmountIsOverAThreshold);
            }
            return Ok(CurveStep { output_amount: total_output, next_sqrt_price: price });
        }
        if pt.sqrt_price <= price {
            i = i + 1;
            continue ;
        }
        let capacity = get_delta_amount_quote_unsigned(
            price,
            pt.sqrt_price,
            pt.liquidity,
            Rounding::Up,
        );
        let fits_in_segment: bool = match capacity {
            Ok(cap) => remaining < cap,
            // a capacity past 64 bits absorbs any input
            Err(_) => true,
        };
        if fits_in_segment {
            proof {
                lemma_buy_partial_within(
                    price as int,
                    pt.sqrt_price as int,
                    pt.liquidity as int,
                    remaining as int,
                );
            }
            let next = get_next_sqrt_price_from_input(price, pt.liquidity, remaining, false)?;
            let out = get_delta_amount_base_unsigned(price, next, pt.liquidity, Rounding::Down)?;
            let new_total = match total_output.checked_add(out) {
                Some(v) => v,
                None => {
                    return Err(AmmError::MathOverflow);
                },
            };
            return Ok(CurveStep { output_amount: new_total, next_sqrt_price: next });
        } else {
            let cap = match capacity {
                Ok(c) => c,
                Err(e) => {
                    return Err(e);
                },
            };
            let out = get_delta_amount_base_unsigned(
                price,
                pt.sqrt_price,
                pt.liquidity,
                Rounding::Down,
            )?;
            total_output = match total_output.checked_add(out) {
                Some(v) => v,
                None => {
                    return Err(AmmError::MathOverflow);
                },
            };
            remaining = remaining - cap;
            price = pt.sqrt_price;
            i = i + 1;
        }
    }
    if remaining > swallow_limit {
        return Err(AmmError::SwapAmountIsOverAThreshold);
    }
    Ok(CurveStep { output_amount: total_output, next_sqrt_price: price })
}

/// The price floor of the segment ending at breakpoint `i`: the previous
/// breakpoint's price, or the global floor below the first breakpoint or a
/// zero sentinel.
pub open spec fn spec_segment_lower_bound(points: Seq<LiquidityPoint>, i: int) -> u128 {
    if i == 0 || points[i - 1].sqrt_price == 0 {
        MIN_SQRT_PRICE
    } else {
        points[i - 1].sqrt_price
    }
}

fn segment_lower_bound(points: &Vec<LiquidityPoint>, i: usize) -> (r: u128)
    requires
        i < points@.len(),
        spec_curve_in_bounds(points@),
    ensures
        r == spec_segment_lower_bound(points@, i as int),
        MIN_SQRT_PRICE <= r <= MAX_SQRT_PRICE,
{
    if i == 0 {
        MIN_SQRT_PRICE
    } else {
        let p = points[i - 1].sqrt_price;
        if p == 0 {
            MIN_SQRT_PRICE
        } else {
            p
        }
    }
}

/// The sell walk with `i` breakpoints left, step for step: zero
/// breakpoints are skipped, segments wholly above the price contribute
/// nothing, a segment with room for the rest is exited at the exact
/// solved price, and a full segment is consumed down to its floor.
pub open spec fn spec_walk_sell(
    points: Seq<LiquidityPoint>,
    i: int,
    price: u128,
    remaining: u64,
    acc: u64,
    swallow_limit: u64,
) -> Result<CurveStep, AmmError>
    decreases i,
{
    if i <= 0 {
        spec_walk_leftover(remaining, swallow_limit, acc, price)
    } else {
        let pt = points[i - 1];
        if pt.sqrt_price == 0 || pt.liquidity == 0 {
            spec_walk_sell(points, i - 1, price, remaining, acc, swallow_limit)
        } else {
            let upper = if price < pt.sqrt_price {
                price
            } else {
                pt.sqrt_price
            };
            let lower = spec_segment_lower_bound(points, i - 1);
            if upper <= lower {
                spec_walk_sell(points, i - 1, price, remaining, acc, swallow_limit)
            } else {
                let cap = spec_delta_base(
                    lower as int,
                    upper as int,
                    pt.liquidity as int,
                    Rounding::Up,
                );
                if remaining < cap {
                    let next = spec_next_sqrt_price_down(
                        upper as int,
                        pt.liquidity as int,
                        remaining as int,
                    );
                    let out = spec_delta_quote(
                        next,
                        upper as int,
                        pt.liquidity as int,
                        Rounding::Down,
                    );
                    if out > u64::MAX {
                        Err(AmmError::TypeCastFailed)
                    } else if acc + out > u64::MAX {
                        Err(AmmError::MathOverflow)
                    } else {
                        Ok(
                            (CurveStep {
                                output_amount: (acc + out) as u64,
                                next_sqrt_price: next as u128,
                            }),
                        )
                    }
                } else {
                    let out = spec_delta_quote(
                        lower as int,
                        upper as int,
                        pt.liquidity as int,
                        Rounding::Down,
                    );
                    if out > u64::MAX {
                        Err(AmmError::TypeCastFailed)
                    } else if acc + out > u64::MAX {
                        Err(AmmError::MathOverflow)
                    } else {
                        spec_walk_sell(
                            points,
                            i - 1,
                            lower,
                            (remaining - cap) as u64,
                            (acc + out) as u64,
                            swallow_limit,
                        )
                    }
                }
            }
        }
    }
}

/// Walk the curve downward for a sell: iterate breakpoints in reverse,
/// skipping zero sentinels, consume each segment down to its floor, and
/// solve for the exit price inside the segment that absorbs the rest,
/// paying out the spanned quote amount. Input left unabsorbed below the
/// last segment is tolerated only up to the caller's swallow limit. The
/// price never leaves the global bounds.
pub fn swap_base_to_quote_on_curve(
    points: &Vec<LiquidityPoint>,
    sqrt_start_price: u128,
    amount_in: u64,
    swallow_limit: u64,
) -> (r: Result<CurveStep, AmmError>)
    requires
        MIN_SQRT_PRICE <= sqrt_start_price <= MAX_SQRT_PRICE,
        spec_curve_in_bounds(points@),
    ensures
        r == spec_walk_sell(
            points@,
            points@.len() as int,
            sqrt_start_price,
            amount_in,
            0,
            swallow_limit,
        ),
        r matches Ok(st) ==> MIN_SQRT_PRICE <= st.next_sqrt_price <= MAX_SQRT_PRICE,
        r matches Ok(st) ==> st.next_sqrt_price <= sqrt_start_price,
{
    let mut price: u128 = sqrt_start_price;
    let mut remaining: u64 = amount_in;
    let mut total_output: u64 = 0;
    let mut i: usize = points.len();
    while i > 0
        invariant
            MIN_SQRT_PRICE <= price <= MAX_SQRT_PRICE,
            price <= sqrt_start_price,
            i <= points@.len(),
            spec_curve_in_bounds(points@),
            spec_walk_sell(points@, i as int, price, remaining, total_output, swallow_limit)
                == spec_walk_sell(
                points@,
                points@.len() as int,
                sqrt_start_price,
                amount_in,
                0,
                swallow_limit,
            ),
        decreases i,
    {
        let pt = points[i - 1];
        if pt.sqrt_price == 0 || pt.liquidity == 0 {
            // unconfigured breakpoints are skipped on the way down
            i = i - 1;
            continue ;
        }
        let upper: u128 = if price < pt.sqrt_price {
            price
        } else {
            pt.sqrt_price
        };
        let lower: u128 = segment_lower_bound(points, i - 1);
        if upper <= lower {
            i = i - 1;
            continue ;
        }
        // moving down to the segment's top through any unconfigured gap
        // spans no liquidity and costs nothing
        price = upper;
        let capacity = get_delta_amount_base_unsigned(lower, upper, pt.liquidity, Rounding::Up);
        let fits_in_segment: bool = match capacity {
            Ok(cap) => remaining < cap,
            Err(_) => true,
        };
        if fits_in_segment {
            proof {
                lemma_sell_partial_above(
                    lower as int,
                    upper as int,
                    pt.liquidity as int,
                    remaining as int,
                );
            }
            let next = get_next_sqrt_price_from_input(upper, pt.liquidity, remaining, true)?;
            let out = get_delta_amount_quote_unsigned(next, upper, pt.liquidity, Rounding::Down)?;
            let new_total = match total_output.checked_add(out) {
                Some(v) => v,
                None => {
                    return Err(AmmError::MathOverflow);
                },
            };
            return Ok(CurveStep { output_amount: new_total, next_sqrt_price: next });
        } else {
            let cap = match capacity {
                Ok(c) => c,
                Err(e) => {
                    return Err(e);
                },
            };
            let out = get_delta_amount_quote_unsigned(lower, upper, pt.liquidity, Rounding::Down)?;
            total_output = match total_output.checked_add(out) {
                Some(v) => v,
                None => {
                    return Err(AmmError::MathOverflow);
                },
            };
            remaining = remaining - cap;
            price = lower;
            i = i - 1;
        }
    }
    if remaining > swallow_limit {
        return Err(AmmError::SwapAmountIsOverAThreshold);
    }
    Ok(CurveStep { output_amount: total_output, next_sqrt_price: price })
}

/// The liquidity that a base deposit supports between the current price
/// and the price ceiling: `base * price * max_price / (max_price - price)`,
/// as a wide value.
pub fn get_initial_liquidity_from_delta_base(
    base_amount: u64,
    max_sqrt_price: u128,
    sqrt_price: u128,
) -> (r: Result<Wide, AmmError>)
    requires
        sqrt_price < max_sqrt_price,
    ensures
        r matches Ok(v) ==> wide_val(v) == (base_amount * sqrt_price) * max_sqrt_price / (
        max_sqrt_price - sqrt_price),
        r is Ok <==> (base_amount * sqrt_price) * max_sqrt_price / (max_sqrt_price - sqrt_price)
            < 0x10000000000000000000000000000000000000000000000000000000000000000int,
        r is Err ==> r == Err::<Wide, AmmError>(AmmError::MathOverflow),
{
    proof {
        lemma_wide_product_fits(base_amount as int, sqrt_price as int);
    }
    let prod = match wide_mul(&Wide::from_u128(base_amount as u128), &Wide::from_u128(sqrt_price)) {
        Ok(v) => v,
        Err(e) => {
            return Err(AmmError::MathOverflow);
        },
    };
    wide_mul_div(
        &prod,
        &Wide::from_u128(max_sqrt_price),
        &Wide::from_u128(max_sqrt_price - sqrt_price),
    )
}

/// The liquidity that a quote deposit supports between the price floor and
/// the current price: `quote * 2^128 / (price - min_price)`.
pub fn get_initial_liquidity_from_delta_quote(
    quote_amount: u64,
    min_sqrt_price: u128,
    sqrt_price: u128,
) -> (r: Result<u128, AmmError>)
    requires
        min_sqrt_price < sqrt_price,
    ensures
        r matches Ok(v) ==> v == quote_amount * 0x100000000000000000000000000000000int / (
        sqrt_price - min_sqrt_price),
        r is Ok <==> quote_amount * 0x100000000000000000000000000000000int / (sqrt_price
            - min_sqrt_price) <= u128::MAX,
        r is Err ==> r == Err::<u128, AmmError>(AmmError::TypeCastFailed),
{
    let shifted = Wide::from_u128_shifted(quote_amount as u128);
    let liquidity = match wide_div(&shifted, &Wide::from_u128(sqrt_price - min_sqrt_price)) {
        Ok(v) => v,
        Err(e) => {
            return Err(AmmError::TypeCastFailed);
        },
    };
    proof {
        lemma_mul_nonnegative(quote_amount as int, 0x100000000000000000000000000000000int);
        lemma_div_pos_is_pos(
            quote_amount as int * 0x100000000000000000000000000000000int,
            (sqrt_price - min_sqrt_price) as int,
        );
    }
    match liquidity.to_u128() {
        Some(v) => Ok(v),
        None => Err(AmmError::TypeCastFailed),
    }
}

/// Liquidity for seeding the migration pool: the smaller of what the base
/// and the quote deposits each support, so both fit.
pub fn get_liquidity_for_adding_liquidity(
    base_amount: u64,
    quote_amount: u64,
    sqrt_price: u128,
) -> (r: Result<u128, AmmError>)
    requires
        MIN_SQRT_PRICE < sqrt_price < MAX_SQRT_PRICE,
    ensures
        r matches Ok(v) ==> ({
            let from_base = (base_amount * sqrt_price) * MAX_SQRT_PRICE / (MAX_SQRT_PRICE
                - sqrt_price);
            let from_quote = quote_amount * 0x100000000000000000000000000000000int / (sqrt_price
                - MIN_SQRT_PRICE);
            v == if from_base > from_quote {
                from_quote
            } else {
                from_base
            }
        }),
        r is Ok <==> quote_amount * 0x100000000000000000000000000000000int / (sqrt_price
            - MIN_SQRT_PRICE) <= u128::MAX,
        r is Err ==> r == Err::<u128, AmmError>(AmmError::TypeCastFailed),
{
    let liquidity_from_base = get_initial_liquidity_from_delta_base(
        base_amount,
        MAX_SQRT_PRICE,
        sqrt_price,
    );
    let liquidity_from_quote = get_initial_liquidity_from_delta_quote(
        quote_amount,
        MIN_SQRT_PRICE,
        sqrt_price,
    )?;
    match liquidity_from_base {
        Ok(wide_from_base) => match wide_from_base.to_u128() {
            Some(from_base) => {
                if from_base > liquidity_from_quote {
                    Ok(liquidity_from_quote)
                } else {
                    Ok(from_base)
                }
            },
            // past 128 bits the base side surely supports more than the
            // quote side, which fits 128 bits
            None => Ok(liquidity_from_quote),
        },
        // the base side supports more liquidity than a 256-bit value can
        // name, so the quote side is the smaller of the two
        Err(e) => Ok(liquidity_from_quote),
    }
}

} // verus!
