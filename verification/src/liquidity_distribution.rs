//! High-precision square-root pricing: a base/quote amount ratio becomes a
//! Q64.64 fixed-point square-root price, exactly, with no floating point,
//! so independent implementations agree bit for bit.
use vstd::prelude::*;
use vstd::arithmetic::div_mod::lemma_div_is_ordered;
use vstd::arithmetic::div_mod::lemma_div_pos_is_pos;
use vstd::arithmetic::mul::lemma_mul_inequality;
use vstd::arithmetic::mul::lemma_mul_nonnegative;

use crate::errors::AmmError;
use crate::wide::isqrt_ok;
use crate::wide::spec_newton_from;
use crate::wide::spec_newton_seed;
use crate::wide::wide_limit;
use crate::wide::wide_div;
use crate::wide::wide_mul;
use crate::wide::wide_sqrt;
use crate::wide::wide_val;
use crate::wide::Wide;

verus! {

/// Ten to the k-th power.
pub open spec fn spec_pow10(k: nat) -> int
    decreases k,
{
    if k == 0 {
        1
    } else {
        10 * spec_pow10((k - 1) as nat)
    }
}

/// Powers of ten are positive.
pub proof fn lemma_pow10_pos(k: nat)
    ensures
        spec_pow10(k) >= 1,
    decreases k,
{
    if k > 0 {
        lemma_pow10_pos((k - 1) as nat);
    }
}

/// Compute a power of ten that fits 128 bits.
fn pow10_u128(k: u32) -> (r: u128)
    requires
        k <= 38,
    ensures
        r == spec_pow10(k as nat),
{
    let mut acc: u128 = 1;
    let mut i: u32 = 0;
    while i < k
        invariant
            i <= k,
            k <= 38,
            acc == spec_pow10(i as nat),
        decreases k - i,
    {
        proof {
            lemma_pow10_within_u128((i + 1) as nat);
        }
        acc = acc * 10;
        i = i + 1;
    }
    acc
}

/// Up to ten to the 38th, a power of ten fits 128 bits.
#[verifier::rlimit(100)]
proof fn lemma_pow10_within_u128(k: nat)
    requires
        k <= 38,
    ensures
        spec_pow10(k) <= u128::MAX,
    decreases k,
{
    lemma_pow10_le_bound(k, 38);
    reveal_with_fuel(spec_pow10, 40);
    assert(spec_pow10(38) == 100000000000000000000000000000000000000);
}

/// Powers of ten grow with the exponent.
proof fn lemma_pow10_le_bound(k: nat, m: nat)
    requires
        k <= m,
    ensures
        spec_pow10(k) <= spec_pow10(m),
    decreases m,
{
    if k < m {
        lemma_pow10_le_bound(k, (m - 1) as nat);
        lemma_pow10_pos((m - 1) as nat);
    }
}

/// The price after correcting for the decimal-place difference between the
/// base and quote mints.
pub open spec fn spec_adjusted_price(p: int, base_decimal: u8, quote_decimal: u8) -> int {
    if base_decimal > quote_decimal {
        p / spec_pow10((base_decimal - quote_decimal) as nat)
    } else if quote_decimal > base_decimal {
        p * spec_pow10((quote_decimal - base_decimal) as nat)
    } else {
        p
    }
}

/// `r` is the Q64.64 square-root price of the 18-decimal scaled ratio
/// `quote / base`: its low 64 bits are clear and its high half is exactly
/// the integer square root of the decimal-adjusted scaled price.
pub open spec fn spec_sqrt_price_ok(
    base_amount: int,
    quote_amount: int,
    base_decimal: u8,
    quote_decimal: u8,
    r: u128,
) -> bool {
    let scaled = quote_amount * 1_000_000_000_000_000_000 / base_amount;
    let adjusted = spec_adjusted_price(scaled, base_decimal, quote_decimal);
    r % 0x10000000000000000 == 0 && isqrt_ok(adjusted, r as int / 0x10000000000000000)
}

/// The whole fixed-point conversion, step for step: adjust the scaled
/// price for the decimal difference (`MathOverflow` when scaling up
/// leaves 256 bits), take the integer square root by the Newton iteration
/// (its own exact errors), and shift into Q64.64 (`TypeCastFailed` when
/// the shifted root does not fit 128 bits).
pub open spec fn spec_sqrt_price_from_price(
    p: int,
    base_decimal: u8,
    quote_decimal: u8,
) -> Result<u128, AmmError> {
    if quote_decimal > base_decimal && p * spec_pow10((quote_decimal - base_decimal) as nat)
        >= wide_limit() {
        Err(AmmError::MathOverflow)
    } else {
        let adjusted = spec_adjusted_price(p, base_decimal, quote_decimal);
        if adjusted == 0 {
            Ok(0u128)
        } else {
            match spec_newton_from(adjusted, spec_newton_seed(adjusted), 255) {
                Err(e) => Err(e),
                Ok(s) => if s * 0x10000000000000000 >= 0x100000000000000000000000000000000int {
                    Err(AmmError::TypeCastFailed)
                } else {
                    Ok((s * 0x10000000000000000) as u128)
                },
            }
        }
    }
}

/// Calculate sqrt price from a scaled price.
/// Based on the formula: price = (sqrtPrice >> 64)^2 * 10^(tokenADecimal - tokenBDecimal),
/// therefore sqrtPrice = sqrt(price / 10^(tokenADecimal - tokenBDecimal)) << 64.
#[verifier::rlimit(100)]
fn get_sqrt_price_from_price(price: &Wide, base_decimal: u8, quote_decimal: u8) -> (r: Result<
    u128,
    AmmError,
>)
    requires
        base_decimal <= 38,
        quote_decimal <= 38,
    ensures
        r == spec_sqrt_price_from_price(wide_val(*price), base_decimal, quote_decimal),
        r matches Ok(v) ==> ({
            let adjusted = spec_adjusted_price(wide_val(*price), base_decimal, quote_decimal);
            v % 0x10000000000000000 == 0 && isqrt_ok(adjusted, v as int / 0x10000000000000000)
        }),
        r is Err ==> (r == Err::<u128, AmmError>(AmmError::MathOverflow) || r == Err::<
            u128,
            AmmError,
        >(AmmError::TypeCastFailed)),
{
    let price_adjusted: Wide = if base_decimal > quote_decimal {
        // base has more decimals than quote: divide the price down
        let divisor = Wide::from_u128(pow10_u128((base_decimal - quote_decimal) as u32));
        proof {
            lemma_pow10_pos((base_decimal - quote_decimal) as nat);
        }
        wide_div(price, &divisor)?
    } else if quote_decimal > base_decimal {
        // quote has more decimals than base: scale the price up
        let factor = Wide::from_u128(pow10_u128((quote_decimal - base_decimal) as u32));
        wide_mul(price, &factor)?
    } else {
        *price
    };
    let sqrt_price = wide_sqrt(&price_adjusted)?;
    proof {
        assert(wide_val(sqrt_price) < 0x100000000000000000000000000000000int) by (nonlinear_arith)
            requires
                wide_val(sqrt_price) >= 0,
                wide_val(sqrt_price) * wide_val(sqrt_price) <= wide_val(price_adjusted),
                wide_val(price_adjusted)
                    < 0x10000000000000000000000000000000000000000000000000000000000000000int,
        ;
    }
    let shift = Wide::from_u128(0x10000000000000000u128);
    let sqrt_price_q64 = wide_mul(&sqrt_price, &shift)?;
    match sqrt_price_q64.to_u128() {
        Some(v) => {
            proof {
                let s = wide_val(sqrt_price);
                vstd::arithmetic::div_mod::lemma_mod_multiples_basic(
                    s,
                    0x10000000000000000int,
                );
                vstd::arithmetic::div_mod::lemma_div_multiples_vanish(
                    s,
                    0x10000000000000000int,
                );
                vstd::arithmetic::mul::lemma_mul_is_commutative(s, 0x10000000000000000int);
            }
            Ok(v)
        },
        None => Err(AmmError::TypeCastFailed),
    }
}

/// Calculate the Q64.64 square-root price from base and quote amounts. The
/// ratio `quote / base` is scaled to 18 decimal places in a wide integer,
/// adjusted for the mints' decimal difference, and square-rooted by
/// Newton's method; a zero base amount is rejected.
pub fn get_sqrt_price_from_amounts(
    base_amount: u128,
    quote_amount: u128,
    base_decimal: u8,
    quote_decimal: u8,
) -> (r: Result<u128, AmmError>)
    requires
        base_decimal <= 38,
        quote_decimal <= 38,
    ensures
        base_amount == 0 <==> r == Err::<u128, AmmError>(AmmError::AmountIsZero),
        base_amount >= 1 ==> r == spec_sqrt_price_from_price(
            quote_amount * 1_000_000_000_000_000_000 / (base_amount as int),
            base_decimal,
            quote_decimal,
        ),
        r matches Ok(v) ==> spec_sqrt_price_ok(
            base_amount as int,
            quote_amount as int,
            base_decimal,
            quote_decimal,
            v,
        ),
        r is Err ==> (r == Err::<u128, AmmError>(AmmError::AmountIsZero) || r == Err::<
            u128,
            AmmError,
        >(AmmError::MathOverflow) || r == Err::<u128, AmmError>(AmmError::TypeCastFailed)),
{
    if base_amount == 0 {
        return Err(AmmError::AmountIsZero);
    }
    let scale = Wide::from_u128(1_000_000_000_000_000_000u128);
    let wide_quote = Wide::from_u128(quote_amount);
    proof {
        assert(quote_amount as int * 1_000_000_000_000_000_000
            < 0x10000000000000000000000000000000000000000000000000000000000000000int)
            by (nonlinear_arith)
            requires
                quote_amount <= u128::MAX,
        ;
    }
    let price_scaled = wide_mul(&wide_quote, &scale)?;
    let wide_base = Wide::from_u128(base_amount);
    let price = wide_div(&price_scaled, &wide_base)?;
    get_sqrt_price_from_price(&price, base_decimal, quote_decimal)
}

/// Two integer square roots of ordered radicands are ordered.
pub proof fn lemma_isqrt_monotonic(p1: int, p2: int, s1: int, s2: int)
    requires
        p1 <= p2,
        isqrt_ok(p1, s1),
        isqrt_ok(p2, s2),
    ensures
        s1 <= s2,
{
    if s1 > s2 {
        assert(false) by (nonlinear_arith)
            requires
                s1 >= s2 + 1 && s2 >= 0 && s1 * s1 <= p1 && p1 <= p2 && p2 < (s2 + 1) * (s2 + 1),
        ;
    }
}

/// Monotonicity of the square-root price: raising the quote amount while
/// holding the base amount fixed never lowers the returned sqrt price.
pub proof fn lemma_sqrt_price_monotonic(
    base_amount: int,
    quote_1: int,
    quote_2: int,
    base_decimal: u8,
    quote_decimal: u8,
    price_1: u128,
    price_2: u128,
)
    requires
        base_amount >= 1,
        0 <= quote_1 <= quote_2,
        spec_sqrt_price_ok(base_amount, quote_1, base_decimal, quote_decimal, price_1),
        spec_sqrt_price_ok(base_amount, quote_2, base_decimal, quote_decimal, price_2),
    ensures
        price_1 <= price_2,
{
    let e18 = 1_000_000_000_000_000_000int;
    let scaled_1 = quote_1 * e18 / base_amount;
    let scaled_2 = quote_2 * e18 / base_amount;
    lemma_mul_inequality(quote_1, quote_2, e18);
    lemma_mul_nonnegative(quote_1, e18);
    lemma_div_is_ordered(quote_1 * e18, quote_2 * e18, base_amount);
    lemma_div_pos_is_pos(quote_1 * e18, base_amount);
    let adj_1 = spec_adjusted_price(scaled_1, base_decimal, quote_decimal);
    let adj_2 = spec_adjusted_price(scaled_2, base_decimal, quote_decimal);
    if base_decimal > quote_decimal {
        let d = spec_pow10((base_decimal - quote_decimal) as nat);
        lemma_pow10_pos((base_decimal - quote_decimal) as nat);
        lemma_div_is_ordered(scaled_1, scaled_2, d);
    } else if quote_decimal > base_decimal {
        let m = spec_pow10((quote_decimal - base_decimal) as nat);
        lemma_pow10_pos((quote_decimal - base_decimal) as nat);
        lemma_mul_inequality(scaled_1, scaled_2, m);
    }
    lemma_isqrt_monotonic(
        adj_1,
        adj_2,
        price_1 as int / 0x10000000000000000,
        price_2 as int / 0x10000000000000000,
    );
    vstd::arithmetic::div_mod::lemma_fundamental_div_mod(price_1 as int, 0x10000000000000000int);
    vstd::arithmetic::div_mod::lemma_fundamental_div_mod(price_2 as int, 0x10000000000000000int);
}

} // verus!
