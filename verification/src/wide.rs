//! 256-bit unsigned arithmetic for the high-precision price pipeline.
//!
//! A value is held as four 64-bit limbs, least significant first, the same
//! layout ruint uses. The arithmetic itself is done by ruint behind small
//! trusted wrappers with exact contracts; everything around them — limb
//! conversions, rounding, and the integer square root — is verified.
use vstd::prelude::*;
use vstd::arithmetic::power2::pow2;
use vstd::arithmetic::power2::lemma2_to64;
use vstd::arithmetic::power2::lemma_pow2_adds;
use vstd::arithmetic::power2::lemma_pow2_strictly_increases;
use vstd::arithmetic::div_mod::lemma_fundamental_div_mod;
use vstd::arithmetic::div_mod::lemma_div_is_ordered_by_denominator;

use crate::errors::AmmError;
use crate::math::Rounding;
use crate::math::lemma_pow2_128_value;

verus! {

/// An unsigned 256-bit value as four 64-bit limbs, least significant first.
#[derive(Clone, Copy, Debug, PartialEq, Eq, Structural)]
pub struct Wide {
    pub l0: u64,
    pub l1: u64,
    pub l2: u64,
    pub l3: u64,
}

/// The mathematical value of a `Wide`.
pub open spec fn wide_val(w: Wide) -> int {
    w.l0 + w.l1 * 0x10000000000000000 + w.l2 * 0x100000000000000000000000000000000int + w.l3
        * 0x1000000000000000000000000000000000000000000000000int
}

/// One more than the largest value a `Wide` can hold: 2^256.
pub open spec fn wide_limit() -> int {
    0x10000000000000000000000000000000000000000000000000000000000000000int
}

/// `r` is the integer square root of `p`.
pub open spec fn isqrt_ok(p: int, r: int) -> bool {
    0 <= r && r * r <= p && p < (r + 1) * (r + 1)
}

/// Relies on ruint's `Uint::<256>::checked_mul` (exact product, or `None`
/// past 256 bits) and its little-endian `from_limbs`/`into_limbs` layout.
#[verifier::external_body]
fn wide_mul_raw(a: &Wide, b: &Wide) -> (r: Option<Wide>)
    ensures
        r is Some <==> wide_val(*a) * wide_val(*b) < wide_limit(),
        r matches Some(c) ==> wide_val(c) == wide_val(*a) * wide_val(*b),
{
    let x = ruint::aliases::U256::from_limbs([a.l0, a.l1, a.l2, a.l3]);
    let y = ruint::aliases::U256::from_limbs([b.l0, b.l1, b.l2, b.l3]);
    x.checked_mul(y).map(|v| {
        let l = v.into_limbs();
        Wide { l0: l[0], l1: l[1], l2: l[2], l3: l[3] }
    })
}

/// Relies on ruint's `Uint::<256>::checked_add` (exact sum, or `None` past
/// 256 bits) and its little-endian `from_limbs`/`into_limbs` layout.
#[verifier::external_body]
fn wide_add_raw(a: &Wide, b: &Wide) -> (r: Option<Wide>)
    ensures
        r is Some <==> wide_val(*a) + wide_val(*b) < wide_limit(),
        r matches Some(c) ==> wide_val(c) == wide_val(*a) + wide_val(*b),
{
    let x = ruint::aliases::U256::from_limbs([a.l0, a.l1, a.l2, a.l3]);
    let y = ruint::aliases::U256::from_limbs([b.l0, b.l1, b.l2, b.l3]);
    x.checked_add(y).map(|v| {
        let l = v.into_limbs();
        Wide { l0: l[0], l1: l[1], l2: l[2], l3: l[3] }
    })
}

/// Relies on ruint's `Uint::<256>::checked_div` (floor quotient, or `None`
/// for a zero divisor) and its little-endian `from_limbs`/`into_limbs`
/// layout.
#[verifier::external_body]
fn wide_div_raw(a: &Wide, b: &Wide) -> (r: Option<Wide>)
    ensures
        r is Some <==> wide_val(*b) != 0,
        r matches Some(c) ==> wide_val(c) == wide_val(*a) / wide_val(*b),
{
    let x = ruint::aliases::U256::from_limbs([a.l0, a.l1, a.l2, a.l3]);
    let y = ruint::aliases::U256::from_limbs([b.l0, b.l1, b.l2, b.l3]);
    x.checked_div(y).map(|v| {
        let l = v.into_limbs();
        Wide { l0: l[0], l1: l[1], l2: l[2], l3: l[3] }
    })
}

/// Relies on ruint's `Uint::<256>::checked_rem` (exact remainder, or `None`
/// for a zero divisor) and its little-endian `from_limbs`/`into_limbs`
/// layout.
#[verifier::external_body]
fn wide_rem_raw(a: &Wide, b: &Wide) -> (r: Option<Wide>)
    ensures
        r is Some <==> wide_val(*b) != 0,
        r matches Some(c) ==> wide_val(c) == wide_val(*a) % wide_val(*b),
{
    let x = ruint::aliases::U256::from_limbs([a.l0, a.l1, a.l2, a.l3]);
    let y = ruint::aliases::U256::from_limbs([b.l0, b.l1, b.l2, b.l3]);
    x.checked_rem(y).map(|v| {
        let l = v.into_limbs();
        Wide { l0: l[0], l1: l[1], l2: l[2], l3: l[3] }
    })
}

/// Relies on ruint's `Uint::<256>::bit_len`: the dynamic length in bits
/// ignoring leading zeros, so `2^(n-1) <= value < 2^n` for a nonzero value.
#[verifier::external_body]
fn wide_bit_len_raw(a: &Wide) -> (n: usize)
    ensures
        n <= 256,
        wide_val(*a) < pow2(n as nat),
        n == 0 ==> wide_val(*a) == 0,
        n > 0 ==> pow2((n - 1) as nat) <= wide_val(*a),
{
    ruint::aliases::U256::from_limbs([a.l0, a.l1, a.l2, a.l3]).bit_len()
}

/// Relies on ruint's 512-bit `checked_mul`, `checked_div` and the
/// `UintTryTo` narrowing back to 256 bits: the floor of `a * b / d` when
/// the divisor is nonzero and the quotient fits 256 bits, `None` otherwise.
#[verifier::external_body]
fn wide_mul_div_raw(a: &Wide, b: &Wide, d: &Wide) -> (r: Option<Wide>)
    ensures
        r is Some <==> (wide_val(*d) != 0 && wide_val(*a) * wide_val(*b) / wide_val(*d) < wide_limit()),
        r matches Some(c) ==> wide_val(c) == wide_val(*a) * wide_val(*b) / wide_val(*d),
{
    let x = ruint::aliases::U512::from_limbs([a.l0, a.l1, a.l2, a.l3, 0, 0, 0, 0]);
    let y = ruint::aliases::U512::from_limbs([b.l0, b.l1, b.l2, b.l3, 0, 0, 0, 0]);
    let z = ruint::aliases::U512::from_limbs([d.l0, d.l1, d.l2, d.l3, 0, 0, 0, 0]);
    let q = x.checked_mul(y)?.checked_div(z)?;
    let narrowed: ruint::aliases::U256 = ruint::UintTryTo::uint_try_to(&q).ok()?;
    let l = narrowed.into_limbs();
    Some(Wide { l0: l[0], l1: l[1], l2: l[2], l3: l[3] })
}

impl Wide {
    /// The zero value.
    pub fn zero() -> (w: Wide)
        ensures
            wide_val(w) == 0,
    {
        Wide { l0: 0, l1: 0, l2: 0, l3: 0 }
    }

    /// Widen a 128-bit value.
    pub fn from_u128(x: u128) -> (w: Wide)
        ensures
            wide_val(w) == x,
    {
        let (lo, hi) = split_u128(x);
        Wide { l0: lo, l1: hi, l2: 0, l3: 0 }
    }

    /// Widen a 128-bit value shifted left by 128 bits: `x * 2^128`.
    pub fn from_u128_shifted(x: u128) -> (w: Wide)
        ensures
            wide_val(w) == x * 0x100000000000000000000000000000000int,
    {
        let (lo, hi) = split_u128(x);
        let w = Wide { l0: 0, l1: 0, l2: lo, l3: hi };
        proof {
            assert(wide_val(w) == x * 0x100000000000000000000000000000000int) by (nonlinear_arith)
                requires
                    w.l0 == 0 && w.l1 == 0 && w.l2 == lo && w.l3 == hi,
                    x == hi * 0x10000000000000000 + lo,
            ;
        }
        w
    }

    /// Narrow to 128 bits; fails exactly when the value does not fit.
    pub fn to_u128(&self) -> (r: Option<u128>)
        ensures
            r is Some <==> wide_val(*self) < 0x100000000000000000000000000000000int,
            r matches Some(v) ==> v == wide_val(*self),
    {
        if self.l2 == 0 && self.l3 == 0 {
            Some((self.l1 as u128) * 0x10000000000000000 + (self.l0 as u128))
        } else {
            None
        }
    }

    /// Narrow to 64 bits; fails exactly when the value does not fit.
    pub fn to_u64(&self) -> (r: Option<u64>)
        ensures
            r is Some <==> wide_val(*self) < 0x10000000000000000,
            r matches Some(v) ==> v == wide_val(*self),
    {
        if self.l1 == 0 && self.l2 == 0 && self.l3 == 0 {
            Some(self.l0)
        } else {
            None
        }
    }

    /// True exactly on the zero value.
    pub fn is_zero(&self) -> (b: bool)
        ensures
            b <==> wide_val(*self) == 0,
    {
        self.l0 == 0 && self.l1 == 0 && self.l2 == 0 && self.l3 == 0
    }
}

/// Split a 128-bit value into its low and high 64-bit halves.
fn split_u128(x: u128) -> (r: (u64, u64))
    ensures
        x == r.1 * 0x10000000000000000 + r.0,
{
    let lo = (x % 0x10000000000000000) as u64;
    let hi = (x / 0x10000000000000000) as u64;
    proof {
        lemma_fundamental_div_mod(x as int, 0x10000000000000000);
        assert(x as int / 0x10000000000000000 < 0x10000000000000000) by (nonlinear_arith)
            requires
                x <= u128::MAX,
        ;
    }
    (lo, hi)
}

/// Exact checked product of two wide values.
pub fn wide_mul(a: &Wide, b: &Wide) -> (r: Result<Wide, AmmError>)
    ensures
        r is Ok <==> wide_val(*a) * wide_val(*b) < wide_limit(),
        r matches Ok(c) ==> wide_val(c) == wide_val(*a) * wide_val(*b),
        r is Err ==> r == Err::<Wide, AmmError>(AmmError::MathOverflow),
{
    match wide_mul_raw(a, b) {
        Some(c) => Ok(c),
        None => Err(AmmError::MathOverflow),
    }
}

/// Exact checked sum of two wide values.
pub fn wide_add(a: &Wide, b: &Wide) -> (r: Result<Wide, AmmError>)
    ensures
        r is Ok <==> wide_val(*a) + wide_val(*b) < wide_limit(),
        r matches Ok(c) ==> wide_val(c) == wide_val(*a) + wide_val(*b),
        r is Err ==> r == Err::<Wide, AmmError>(AmmError::MathOverflow),
{
    match wide_add_raw(a, b) {
        Some(c) => Ok(c),
        None => Err(AmmError::MathOverflow),
    }
}

/// Exact floor quotient of two wide values.
pub fn wide_div(a: &Wide, b: &Wide) -> (r: Result<Wide, AmmError>)
    ensures
        r is Ok <==> wide_val(*b) != 0,
        r matches Ok(c) ==> wide_val(c) == wide_val(*a) / wide_val(*b),
        r is Err ==> r == Err::<Wide, AmmError>(AmmError::MathOverflow),
{
    match wide_div_raw(a, b) {
        Some(c) => Ok(c),
        None => Err(AmmError::MathOverflow),
    }
}

/// The quotient `n / d` rounded per the caller's mode, as an unbounded
/// integer; meaningful only for a positive divisor.
pub open spec fn spec_div_round(n: int, d: int, rounding: Rounding) -> int {
    if rounding == Rounding::Up {
        (n + d - 1) / d
    } else {
        n / d
    }
}

/// Rounding up adds one to the floor quotient exactly on a nonzero
/// remainder.
proof fn lemma_div_round_up(n: int, d: int)
    requires
        n >= 0,
        d > 0,
    ensures
        (n + d - 1) / d == n / d + if n % d == 0 { 0int } else { 1int },
{
    lemma_fundamental_div_mod(n, d);
    vstd::arithmetic::div_mod::lemma_div_pos_is_pos(n, d);
    vstd::arithmetic::div_mod::lemma_mod_bound(n, d);
    let q = n / d;
    let m = n % d;
    if m == 0 {
        assert((n + d - 1) / d == q) by (nonlinear_arith)
            requires
                n == d * q + m && m == 0 && d > 0 && q >= 0,
        ;
    } else {
        assert((n + d - 1) / d == q + 1) by (nonlinear_arith)
            requires
                n == d * q + m && 0 < m < d && q >= 0,
        ;
    }
}

/// Exact quotient of two wide values under the caller's rounding mode.
pub fn wide_div_round(n: &Wide, d: &Wide, rounding: Rounding) -> (r: Result<Wide, AmmError>)
    ensures
        r is Ok <==> wide_val(*d) != 0,
        r matches Ok(c) ==> wide_val(c) == spec_div_round(wide_val(*n), wide_val(*d), rounding),
        r is Err ==> r == Err::<Wide, AmmError>(AmmError::MathOverflow),
{
    let q = match wide_div_raw(n, d) {
        Some(c) => c,
        None => {
            return Err(AmmError::MathOverflow);
        },
    };
    match rounding {
        Rounding::Down => Ok(q),
        Rounding::Up => {
            let m = match wide_rem_raw(n, d) {
                Some(c) => c,
                None => {
                    return Err(AmmError::MathOverflow);
                },
            };
            proof {
                lemma_div_round_up(wide_val(*n), wide_val(*d));
            }
            if m.is_zero() {
                Ok(q)
            } else {
                proof {
                    if wide_val(*d) >= 2 {
                        lemma_div_is_ordered_by_denominator(wide_val(*n), 2, wide_val(*d));
                    }
                    assert(wide_val(q) + 1 < wide_limit()) by (nonlinear_arith)
                        requires
                            wide_val(q) == wide_val(*n) / wide_val(*d),
                            wide_val(*n) % wide_val(*d) != 0,
                            wide_val(*d) >= 1,
                            0 <= wide_val(*n) < wide_limit(),
                            wide_val(*d) >= 2 ==> wide_val(q) <= wide_val(*n) / 2,
                    ;
                }
                let one = Wide::from_u128(1);
                match wide_add_raw(&q, &one) {
                    Some(c) => Ok(c),
                    None => Err(AmmError::MathOverflow),
                }
            }
        },
    }
}

/// Exact floor of `a * b / d`; fails on a zero divisor or a quotient past
/// 256 bits.
pub fn wide_mul_div(a: &Wide, b: &Wide, d: &Wide) -> (r: Result<Wide, AmmError>)
    ensures
        r is Ok <==> (wide_val(*d) != 0 && wide_val(*a) * wide_val(*b) / wide_val(*d) < wide_limit()),
        r matches Ok(c) ==> wide_val(c) == wide_val(*a) * wide_val(*b) / wide_val(*d),
        r is Err ==> r == Err::<Wide, AmmError>(AmmError::MathOverflow),
{
    match wide_mul_div_raw(a, b, d) {
        Some(c) => Ok(c),
        None => Err(AmmError::MathOverflow),
    }
}

/// A fixed point of the integer Newton step is exactly the integer square
/// root.
proof fn lemma_newton_fixed_point(p: int, x: int)
    requires
        p >= 0,
        x >= 1,
        x == (x + p / x) / 2,
    ensures
        isqrt_ok(p, x),
{
    let d = p / x;
    lemma_fundamental_div_mod(p, x);
    assert(x <= d && d <= x + 1) by (nonlinear_arith)
        requires
            x >= 1 && x == (x + d) / 2,
    ;
    assert(x * x <= p) by (nonlinear_arith)
        requires
            x >= 1 && x <= d && p == x * d + p % x && p % x >= 0,
    ;
    assert(p < (x + 1) * (x + 1)) by (nonlinear_arith)
        requires
            x >= 1 && d <= x + 1 && p == x * d + p % x && p % x < x,
    ;
}

/// Limb representation is unique: equal values are equal limb for limb.
proof fn lemma_wide_val_injective(a: Wide, b: Wide)
    requires
        wide_val(a) == wide_val(b),
    ensures
        a == b,
{
    let d0 = a.l0 - b.l0;
    let d1 = a.l1 - b.l1;
    let d2 = a.l2 - b.l2;
    let d3 = a.l3 - b.l3;
    let t1 = d1 + 0x10000000000000000 * d2 + 0x100000000000000000000000000000000int * d3;
    assert(d0 == -0x10000000000000000 * t1);
    assert(t1 == 0);
    assert(d0 == 0);
    let t2 = d2 + 0x10000000000000000 * d3;
    assert(d1 == -0x10000000000000000 * t2);
    assert(t2 == 0);
    assert(d1 == 0);
    assert(d2 == -0x10000000000000000 * d3);
    assert(d3 == 0);
    assert(d2 == 0);
}

/// The dynamic length of a value in bits, ignoring leading zeros.
pub open spec fn spec_bit_len(v: int) -> nat
    decreases v,
{
    if v <= 0 {
        0
    } else {
        1 + spec_bit_len(v / 2)
    }
}

/// A value bracketed between consecutive powers of two has exactly that
/// bit length.
proof fn lemma_bit_len_of_bracket(v: int, n: nat)
    requires
        n >= 1,
        pow2((n - 1) as nat) <= v < pow2(n),
    ensures
        spec_bit_len(v) == n,
    decreases n,
{
    lemma2_to64();
    if n == 1 {
        assert(v == 1);
        reveal_with_fuel(spec_bit_len, 3);
    } else {
        let lo = pow2((n - 2) as nat) as int;
        let hi = pow2((n - 1) as nat) as int;
        lemma_pow2_adds((n - 2) as nat, 1);
        lemma_pow2_adds((n - 1) as nat, 1);
        vstd::arithmetic::power2::lemma_pow2_pos((n - 2) as nat);
        vstd::arithmetic::div_mod::lemma_div_is_ordered(2 * lo, v, 2);
        vstd::arithmetic::div_mod::lemma_div_multiples_vanish(lo, 2);
        vstd::arithmetic::div_mod::lemma_div_is_ordered(v, 2 * hi - 1, 2);
        vstd::arithmetic::div_mod::lemma_div_multiples_vanish_fancy(hi - 1, 1, 2);
        lemma_bit_len_of_bracket(v / 2, (n - 1) as nat);
    }
}

/// The seed of the square-root iteration: two to half the operand's bit
/// length.
pub open spec fn spec_newton_seed(p: int) -> int {
    pow2(((spec_bit_len(p) - 1) as nat) / 2) as int
}

/// The integer Newton iteration `x -> (x + p/x) / 2`, step for step:
/// reaching a fixed point yields that value; exhausting the fuel without
/// one, or a sum past 256 bits, is the arithmetic fault the iteration
/// reports.
pub open spec fn spec_newton_from(p: int, x: int, fuel: nat) -> Result<int, AmmError>
    decreases fuel,
{
    if fuel == 0 {
        Err(AmmError::MathOverflow)
    } else if x + p / x >= wide_limit() {
        Err(AmmError::MathOverflow)
    } else {
        let x2 = (x + p / x) / 2;
        if x2 == x {
            Ok(x)
        } else {
            spec_newton_from(p, x2, (fuel - 1) as nat)
        }
    }
}

/// Compute a power of two that fits a 128-bit value.
fn pow2_u128(k: u32) -> (r: u128)
    requires
        k <= 127,
    ensures
        r == pow2(k as nat),
{
    proof {
        lemma2_to64();
    }
    let mut acc: u128 = 1;
    let mut i: u32 = 0;
    while i < k
        invariant
            i <= k,
            k <= 127,
            acc == pow2(i as nat),
        decreases k - i,
    {
        proof {
            lemma_pow2_adds(i as nat, 1);
            lemma2_to64();
            lemma_pow2_128_value();
            if ((i + 1) as nat) < 128 {
                lemma_pow2_strictly_increases((i + 1) as nat, 128);
            }
        }
        acc = acc * 2;
        i = i + 1;
    }
    acc
}

/// Integer square root by Newton's method, seeded from the operand's bit
/// length and iterated to a fixed point. Zero yields zero at once; any
/// other run is exactly the iteration `spec_newton_from` over 255 steps,
/// so it succeeds precisely when that iteration reaches a fixed point, and
/// a returned value is exactly the integer square root.
pub fn wide_sqrt(p: &Wide) -> (r: Result<Wide, AmmError>)
    ensures
        r matches Ok(s) ==> isqrt_ok(wide_val(*p), wide_val(s)),
        r matches Err(e) ==> e == AmmError::MathOverflow,
        wide_val(*p) == 0 ==> r == Ok::<Wide, AmmError>((Wide { l0: 0, l1: 0, l2: 0, l3: 0 })),
        wide_val(*p) >= 1 ==> (r matches Ok(s) ==> Ok::<int, AmmError>(wide_val(s))
            == spec_newton_from(wide_val(*p), spec_newton_seed(wide_val(*p)), 255)),
        wide_val(*p) >= 1 ==> (r matches Err(e) ==> Err::<int, AmmError>(e) == spec_newton_from(
            wide_val(*p),
            spec_newton_seed(wide_val(*p)),
            255,
        )),
{
    if p.is_zero() {
        return Ok(Wide::zero());
    }
    let bits = wide_bit_len_raw(p);
    proof {
        lemma_bit_len_of_bracket(wide_val(*p), bits as nat);
    }
    let half: usize = (bits - 1) / 2;
    let mut x = Wide::from_u128(pow2_u128(half as u32));
    proof {
        vstd::arithmetic::power2::lemma_pow2_pos(half as nat);
    }
    let two = Wide::from_u128(2);
    let mut iterations: u32 = 0;
    while iterations < 255
        invariant
            wide_val(x) >= 1,
            wide_val(two) == 2,
            wide_val(*p) >= 1,
            iterations <= 255,
            spec_newton_from(wide_val(*p), wide_val(x), (255 - iterations) as nat)
                == spec_newton_from(wide_val(*p), spec_newton_seed(wide_val(*p)), 255),
        decreases 255 - iterations,
    {
        let prev = x;
        let d = match wide_div_raw(p, &x) {
            Some(c) => c,
            None => {
                return Err(AmmError::MathOverflow);
            },
        };
        let s = match wide_add_raw(&x, &d) {
            Some(c) => c,
            None => {
                return Err(AmmError::MathOverflow);
            },
        };
        x = match wide_div_raw(&s, &two) {
            Some(c) => c,
            None => {
                return Err(AmmError::MathOverflow);
            },
        };
        proof {
            assert(wide_val(x) >= 1) by (nonlinear_arith)
                requires
                    wide_val(x) == (wide_val(prev) + wide_val(d)) / 2,
                    wide_val(d) == wide_val(*p) / wide_val(prev),
                    wide_val(prev) >= 1,
                    wide_val(*p) >= 1,
            ;
        }
        iterations = iterations + 1;
        proof {
            if wide_val(x) == wide_val(prev) {
                lemma_wide_val_injective(x, prev);
            }
        }
        if x == prev {
            proof {
                lemma_newton_fixed_point(wide_val(*p), wide_val(x));
            }
            return Ok(x);
        }
    }
    Err(AmmError::MathOverflow)
}

} // verus!
