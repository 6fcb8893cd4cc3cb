//! Checked arithmetic layer: every operation either returns the exact
//! mathematical result or fails with `MathOverflow`; nothing wraps silently.
use vstd::prelude::*;
use vstd::arithmetic::power2::pow2;
use vstd::arithmetic::power2::lemma_pow2_adds;
use vstd::arithmetic::power2::lemma2_to64;
use vstd::arithmetic::power2::lemma_pow2_pos;
use vstd::arithmetic::div_mod::lemma_small_mod;
use vstd::arithmetic::div_mod::lemma_mul_mod_noop_left;
use vstd::arithmetic::mul::lemma_mul_upper_bound;
use vstd::bits::lemma_u64_shr_is_div;
use vstd::bits::lemma_u128_shr_is_div;

use crate::errors::AmmError;

verus! {

/// Rounding mode for quotients. Callers round up whenever the rounding
/// direction could let a user extract value (fees, amounts owed to the
/// protocol) and down when computing amounts owed to the user.
#[derive(Clone, Copy, Debug, PartialEq, Eq, Structural)]
pub enum Rounding {
    Up,
    Down,
}

/// Overflow-checked arithmetic over a fixed-width unsigned integer.
pub trait SafeMath: Sized {
    /// The mathematical value of this machine integer.
    spec fn s_val(self) -> int;

    /// The largest value the width can hold.
    spec fn s_max() -> int;

    /// The width in bits.
    spec fn s_bits() -> nat;

    fn safe_add(self, rhs: Self) -> (r: Result<Self, AmmError>)
        ensures
            r matches Ok(v) ==> v.s_val() == self.s_val() + rhs.s_val(),
            r is Ok <==> self.s_val() + rhs.s_val() <= Self::s_max(),
            r is Err ==> r == Err::<Self, AmmError>(AmmError::MathOverflow),
    ;

    fn safe_sub(self, rhs: Self) -> (r: Result<Self, AmmError>)
        ensures
            r matches Ok(v) ==> v.s_val() == self.s_val() - rhs.s_val(),
            r is Ok <==> self.s_val() >= rhs.s_val(),
            r is Err ==> r == Err::<Self, AmmError>(AmmError::MathOverflow),
    ;

    fn safe_mul(self, rhs: Self) -> (r: Result<Self, AmmError>)
        ensures
            r matches Ok(v) ==> v.s_val() == self.s_val() * rhs.s_val(),
            r is Ok <==> self.s_val() * rhs.s_val() <= Self::s_max(),
            r is Err ==> r == Err::<Self, AmmError>(AmmError::MathOverflow),
    ;

    fn safe_div(self, rhs: Self) -> (r: Result<Self, AmmError>)
        ensures
            r matches Ok(v) ==> v.s_val() == self.s_val() / rhs.s_val(),
            r is Ok <==> rhs.s_val() != 0,
            r is Err ==> r == Err::<Self, AmmError>(AmmError::MathOverflow),
    ;

    fn safe_rem(self, rhs: Self) -> (r: Result<Self, AmmError>)
        ensures
            r matches Ok(v) ==> v.s_val() == self.s_val() % rhs.s_val(),
            r is Ok <==> rhs.s_val() != 0,
            r is Err ==> r == Err::<Self, AmmError>(AmmError::MathOverflow),
    ;

    /// Checked shift left; fails exactly when the shift amount reaches the
    /// width. Bits shifted out of the width are discarded, so the result
    /// is the product reduced to the width, and the exact product whenever
    /// that stays in range.
    fn safe_shl(self, offset: u32) -> (r: Result<Self, AmmError>)
        ensures
            r is Ok <==> (offset as nat) < Self::s_bits(),
            r matches Ok(v) ==> v.s_val() == (self.s_val() * pow2(offset as nat)) % (Self::s_max()
                + 1),
            r matches Ok(v) ==> (self.s_val() * pow2(offset as nat) <= Self::s_max()
                ==> v.s_val() == self.s_val() * pow2(offset as nat)),
            r is Err ==> r == Err::<Self, AmmError>(AmmError::MathOverflow),
    ;

    /// Checked shift right; fails exactly when the shift amount reaches the
    /// width.
    fn safe_shr(self, offset: u32) -> (r: Result<Self, AmmError>)
        ensures
            r is Ok <==> (offset as nat) < Self::s_bits(),
            r matches Ok(v) ==> v.s_val() == self.s_val() / pow2(offset as nat) as int,
            r is Err ==> r == Err::<Self, AmmError>(AmmError::MathOverflow),
    ;
}

/// The numeric value of 2^128, needed beyond the tabulated powers of two.
pub proof fn lemma_pow2_128_value()
    ensures
        pow2(128) == 0x100000000000000000000000000000000,
{
    lemma2_to64();
    lemma_pow2_adds(64, 64);
}

impl SafeMath for u64 {
    open spec fn s_val(self) -> int {
        self as int
    }

    open spec fn s_max() -> int {
        u64::MAX as int
    }

    open spec fn s_bits() -> nat {
        64
    }

    fn safe_add(self, rhs: u64) -> (r: Result<u64, AmmError>) {
        match self.checked_add(rhs) {
            Some(v) => Ok(v),
            None => Err(AmmError::MathOverflow),
        }
    }

    fn safe_sub(self, rhs: u64) -> (r: Result<u64, AmmError>) {
        match self.checked_sub(rhs) {
            Some(v) => Ok(v),
            None => Err(AmmError::MathOverflow),
        }
    }

    fn safe_mul(self, rhs: u64) -> (r: Result<u64, AmmError>) {
        match self.checked_mul(rhs) {
            Some(v) => Ok(v),
            None => Err(AmmError::MathOverflow),
        }
    }

    fn safe_div(self, rhs: u64) -> (r: Result<u64, AmmError>) {
        match self.checked_div(rhs) {
            Some(v) => Ok(v),
            None => Err(AmmError::MathOverflow),
        }
    }

    fn safe_rem(self, rhs: u64) -> (r: Result<u64, AmmError>) {
        match self.checked_rem(rhs) {
            Some(v) => Ok(v),
            None => Err(AmmError::MathOverflow),
        }
    }

    fn safe_shl(self, offset: u32) -> (r: Result<u64, AmmError>) {
        if offset >= 64 {
            return Err(AmmError::MathOverflow);
        }
        proof {
            lemma2_to64();
            lemma_small_mod(self as nat, pow2(64));
        }
        let mut acc: u64 = self;
        let mut i: u32 = 0;
        while i < offset
            invariant
                i <= offset,
                offset < 64,
                acc as int == (self as int * pow2(i as nat)) % pow2(64) as int,
            decreases offset - i,
        {
            proof {
                lemma_pow2_adds(i as nat, 1);
                lemma2_to64();
                lemma_pow2_pos(64);
                lemma_mul_mod_noop_left(self as int * pow2(i as nat), 2, pow2(64) as int);
                assert((self as int * pow2(i as nat)) * 2 == self as int * pow2((i + 1) as nat))
                    by (nonlinear_arith)
                    requires pow2((i + 1) as nat) == pow2(i as nat) * 2;
            }
            acc = acc.wrapping_mul(2);
            i = i + 1;
        }
        proof {
            lemma2_to64();
            if self as int * pow2(offset as nat) <= u64::MAX as int {
                lemma_small_mod((self as int * pow2(offset as nat)) as nat, pow2(64));
            }
        }
        Ok(acc)
    }

    fn safe_shr(self, offset: u32) -> (r: Result<u64, AmmError>) {
        if offset >= 64 {
            return Err(AmmError::MathOverflow);
        }
        proof {
            lemma_u64_shr_is_div(self, offset as u64);
        }
        Ok(self >> offset)
    }
}

impl SafeMath for u128 {
    open spec fn s_val(self) -> int {
        self as int
    }

    open spec fn s_max() -> int {
        u128::MAX as int
    }

    open spec fn s_bits() -> nat {
        128
    }

    fn safe_add(self, rhs: u128) -> (r: Result<u128, AmmError>) {
        match self.checked_add(rhs) {
            Some(v) => Ok(v),
            None => Err(AmmError::MathOverflow),
        }
    }

    fn safe_sub(self, rhs: u128) -> (r: Result<u128, AmmError>) {
        match self.checked_sub(rhs) {
            Some(v) => Ok(v),
            None => Err(AmmError::MathOverflow),
        }
    }

    fn safe_mul(self, rhs: u128) -> (r: Result<u128, AmmError>) {
        match self.checked_mul(rhs) {
            Some(v) => Ok(v),
            None => Err(AmmError::MathOverflow),
        }
    }

    fn safe_div(self, rhs: u128) -> (r: Result<u128, AmmError>) {
        match self.checked_div(rhs) {
            Some(v) => Ok(v),
            None => Err(AmmError::MathOverflow),
        }
    }

    fn safe_rem(self, rhs: u128) -> (r: Result<u128, AmmError>) {
        match self.checked_rem(rhs) {
            Some(v) => Ok(v),
            None => Err(AmmError::MathOverflow),
        }
    }

    fn safe_shl(self, offset: u32) -> (r: Result<u128, AmmError>) {
        if offset >= 128 {
            return Err(AmmError::MathOverflow);
        }
        proof {
            lemma2_to64();
            lemma_pow2_128_value();
            lemma_small_mod(self as nat, pow2(128));
        }
        let mut acc: u128 = self;
        let mut i: u32 = 0;
        while i < offset
            invariant
                i <= offset,
                offset < 128,
                acc as int == (self as int * pow2(i as nat)) % pow2(128) as int,
            decreases offset - i,
        {
            proof {
                lemma_pow2_adds(i as nat, 1);
                lemma2_to64();
                lemma_pow2_128_value();
                lemma_pow2_pos(128);
                lemma_mul_mod_noop_left(self as int * pow2(i as nat), 2, pow2(128) as int);
                assert((self as int * pow2(i as nat)) * 2 == self as int * pow2((i + 1) as nat))
                    by (nonlinear_arith)
                    requires pow2((i + 1) as nat) == pow2(i as nat) * 2;
            }
            acc = acc.wrapping_mul(2);
            i = i + 1;
        }
        proof {
            lemma_pow2_128_value();
            if self as int * pow2(offset as nat) <= u128::MAX as int {
                lemma_small_mod((self as int * pow2(offset as nat)) as nat, pow2(128));
            }
        }
        Ok(acc)
    }

    fn safe_shr(self, offset: u32) -> (r: Result<u128, AmmError>) {
        if offset >= 128 {
            return Err(AmmError::MathOverflow);
        }
        proof {
            lemma_u128_shr_is_div(self, offset as u128);
        }
        Ok(self >> offset)
    }
}

/// The exact quotient `x * y / denominator` under the given rounding mode,
/// as an unbounded integer; meaningful only for a nonzero denominator.
pub open spec fn spec_mul_div(x: int, y: int, denominator: int, rounding: Rounding) -> int {
    if rounding == Rounding::Up {
        (x * y + denominator - 1) / denominator
    } else {
        (x * y) / denominator
    }
}

/// Computes `x * y / denominator` by widening to 128 bits before the
/// multiply, rounding per the caller's mode, then narrowing to 64 bits.
pub fn safe_mul_div_cast_u64(x: u64, y: u64, denominator: u64, rounding: Rounding) -> (r: Result<
    u64,
    AmmError,
>)
    ensures
        denominator == 0 ==> r == Err::<u64, AmmError>(AmmError::MathOverflow),
        denominator != 0 && spec_mul_div(x as int, y as int, denominator as int, rounding)
            <= u64::MAX ==> r == Ok::<u64, AmmError>(
            spec_mul_div(x as int, y as int, denominator as int, rounding) as u64,
        ),
        denominator != 0 && spec_mul_div(x as int, y as int, denominator as int, rounding)
            > u64::MAX ==> r == Err::<u64, AmmError>(AmmError::TypeCastFailed),
{
    proof {
        lemma_mul_upper_bound(x as int, u64::MAX as int, y as int, u64::MAX as int);
    }
    let prod: u128 = (x as u128) * (y as u128);
    if denominator == 0 {
        return Err(AmmError::MathOverflow);
    }
    let wide_den: u128 = denominator as u128;
    let q: u128 = match rounding {
        Rounding::Up => (prod + wide_den - 1) / wide_den,
        Rounding::Down => prod / wide_den,
    };
    if q > u64::MAX as u128 {
        return Err(AmmError::TypeCastFailed);
    }
    Ok(q as u64)
}

} // verus!
