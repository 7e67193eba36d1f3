use vstd::prelude::*;
use vstd::arithmetic::div_mod::{
    lemma_basic_div, lemma_div_is_ordered_by_denominator, lemma_div_multiples_vanish, lemma_fundamental_div_mod,
    lemma_mod_pos_bound,
};
use vstd::arithmetic::mul::lemma_mul_inequality;

use crate::error::AmmError;

verus! {

/// Basis-point denominator: 10000 bps is 100%.
pub const BPS_DENOM: u128 = 10_000u128;

/// Ten to the power `n`.
pub open spec fn pow10(n: nat) -> nat
    decreases n,
{
    if n == 0 {
        1
    } else {
        10 * pow10((n - 1) as nat)
    }
}

pub proof fn lemma_pow10_positive(n: nat)
    ensures
        pow10(n) >= 1,
    decreases n,
{
    if n > 0 {
        lemma_pow10_positive((n - 1) as nat);
    }
}

pub proof fn lemma_pow10_monotone(a: nat, b: nat)
    requires
        a <= b,
    ensures
        pow10(a) <= pow10(b),
    decreases b,
{
    if a < b {
        lemma_pow10_monotone(a, (b - 1) as nat);
        lemma_pow10_positive((b - 1) as nat);
    }
}

/// An amount expressed with `from` decimals, re-expressed with `to` decimals
/// (floor division when the precision decreases).
pub open spec fn rescaled(amount: nat, from: nat, to: nat) -> nat {
    if from <= to {
        amount * pow10((to - from) as nat)
    } else {
        amount / pow10((from - to) as nat)
    }
}

/// The result of `normalize_amount_u128`: the amount at `target_decimals`,
/// or an overflow when it does not fit in 128 bits.
pub open spec fn normalize_spec(amount: u64, src_decimals: u8, target_decimals: u8) -> Result<u128, AmmError> {
    let v = rescaled(amount as nat, src_decimals as nat, target_decimals as nat);
    if v <= u128::MAX {
        Ok(v as u128)
    } else {
        Err(AmmError::MathOverflow)
    }
}

/// The result of `denormalize_amount_u64`: a normalized amount brought back
/// from `target_decimals` to `dst_decimals`, or an overflow when it does not
/// fit in 64 bits.
pub open spec fn denormalize_spec(amount_norm: u128, dst_decimals: u8, target_decimals: u8) -> Result<u64, AmmError> {
    let v = rescaled(amount_norm as nat, target_decimals as nat, dst_decimals as nat);
    if v <= u64::MAX {
        Ok(v as u64)
    } else {
        Err(AmmError::MathOverflow)
    }
}

/// `10^e` when it fits in 128 bits.
pub fn checked_pow10(e: u32) -> (r: Option<u128>)
    ensures
        r == (if pow10(e as nat) <= u128::MAX {
            Some(pow10(e as nat) as u128)
        } else {
            None::<u128>
        }),
        pow10(e as nat) >= 1,
{
    proof {
        lemma_pow10_positive(e as nat);
    }
    let mut p: u128 = 1;
    let mut i: u32 = 0;
    while i < e
        invariant
            i <= e,
            p as nat == pow10(i as nat),
        decreases e - i,
    {
        match p.checked_mul(10) {
            Some(q) => {
                p = q;
                i = i + 1;
            },
            None => {
                proof {
                    lemma_pow10_monotone((i + 1) as nat, e as nat);
                }
                return None;
            },
        }
    }
    Some(p)
}

/// Converts a native token amount to the pool's internal precision.
///
/// Equal precisions leave the amount as it is; a higher target precision
/// multiplies by `10^(target - src)`, failing with `MathOverflow` when the
/// result does not fit; a lower one floor-divides by `10^(src - target)`,
/// so that amounts below one target unit vanish.
pub fn normalize_amount_u128(amount: u64, src_decimals: u8, target_decimals: u8) -> (r: Result<u128, AmmError>)
    ensures
        r == normalize_spec(amount, src_decimals, target_decimals),
{
    let ghost exact = rescaled(amount as nat, src_decimals as nat, target_decimals as nat);
    if src_decimals == target_decimals {
        assert(pow10(0) == 1);
        assert(exact == (amount as nat) * pow10(0));
        assert((amount as nat) * 1 == amount as nat);
        assert(exact == amount);
        Ok(amount as u128)
    } else if src_decimals < target_decimals {
        let e = (target_decimals - src_decimals) as u32;
        assert(exact == amount * pow10(e as nat));
        if amount == 0 {
            assert(0 * pow10(e as nat) == 0);
            return Ok(0);
        }
        match checked_pow10(e) {
            Some(p) => match (amount as u128).checked_mul(p) {
                Some(v) => Ok(v),
                None => Err(AmmError::MathOverflow),
            },
            None => {
                proof {
                    lemma_mul_inequality(1, amount as int, pow10(e as nat) as int);
                }
                Err(AmmError::MathOverflow)
            },
        }
    } else {
        let e = (src_decimals - target_decimals) as u32;
        assert(exact == (amount as nat) / pow10(e as nat));
        match checked_pow10(e) {
            Some(p) => Ok((amount as u128) / p),
            None => {
                proof {
                    lemma_basic_div(amount as int, pow10(e as nat) as int);
                }
                Ok(0)
            },
        }
    }
}

/// Converts an amount at the pool's internal precision back to a token's
/// native precision: floor division when the native precision is lower,
/// checked multiplication when it is higher, and a final check that the
/// result fits in 64 bits. Each overflow fails with `MathOverflow`.
pub fn denormalize_amount_u64(amount_norm: u128, dst_decimals: u8, target_decimals: u8) -> (r: Result<u64, AmmError>)
    ensures
        r == denormalize_spec(amount_norm, dst_decimals, target_decimals),
{
    let wide: u128;
    if dst_decimals == target_decimals {
        assert(pow10(0) == 1);
        wide = amount_norm;
    } else if dst_decimals < target_decimals {
        let e = (target_decimals - dst_decimals) as u32;
        match checked_pow10(e) {
            Some(p) => {
                wide = amount_norm / p;
            },
            None => {
                proof {
                    lemma_basic_div(amount_norm as int, pow10(e as nat) as int);
                }
                return Ok(0);
            },
        }
    } else {
        let e = (dst_decimals - target_decimals) as u32;
        if amount_norm == 0 {
            assert(0 * pow10(e as nat) == 0);
            return Ok(0);
        }
        match checked_pow10(e) {
            Some(p) => match amount_norm.checked_mul(p) {
                Some(v) => {
                    wide = v;
                },
                None => {
                    return Err(AmmError::MathOverflow);
                },
            },
            None => {
                proof {
                    lemma_mul_inequality(1, amount_norm as int, pow10(e as nat) as int);
                }
                return Err(AmmError::MathOverflow);
            },
        }
    }
    assert(wide as nat == rescaled(amount_norm as nat, target_decimals as nat, dst_decimals as nat));
    if wide <= u64::MAX as u128 {
        Ok(wide as u64)
    } else {
        Err(AmmError::MathOverflow)
    }
}

/// Normalizing to an equal or finer precision and denormalizing back gives
/// the starting amount exactly.
pub proof fn lemma_normalize_round_trip(amount: u64, src_decimals: u8, target_decimals: u8)
    requires
        src_decimals <= target_decimals,
        normalize_spec(amount, src_decimals, target_decimals) is Ok,
    ensures
        denormalize_spec(normalize_spec(amount, src_decimals, target_decimals)->Ok_0, src_decimals, target_decimals)
            == Ok::<u64, AmmError>(amount),
{
    let e = (target_decimals - src_decimals) as nat;
    let p = pow10(e);
    lemma_pow10_positive(e);
    let n = normalize_spec(amount, src_decimals, target_decimals)->Ok_0;
    assert(n == amount * p);
    if src_decimals == target_decimals {
        assert(p == 1);
        assert((n as nat) * 1 == n as nat);
        assert((amount as nat) * 1 == amount as nat);
    } else {
        assert(amount * p == p * amount) by (nonlinear_arith);
        lemma_div_multiples_vanish(amount as int, p as int);
    }
}

/// Normalizing and denormalizing back never invents value: whatever the two
/// precisions, the round trip gives at most the starting amount.
pub proof fn lemma_round_trip_never_invents_value(amount: u64, src_decimals: u8, target_decimals: u8)
    requires
        normalize_spec(amount, src_decimals, target_decimals) is Ok,
        denormalize_spec(normalize_spec(amount, src_decimals, target_decimals)->Ok_0, src_decimals, target_decimals) is Ok,
    ensures
        denormalize_spec(normalize_spec(amount, src_decimals, target_decimals)->Ok_0, src_decimals, target_decimals)->Ok_0
            <= amount,
{
    if src_decimals <= target_decimals {
        lemma_normalize_round_trip(amount, src_decimals, target_decimals);
    } else {
        let e = (src_decimals - target_decimals) as nat;
        let p = pow10(e);
        lemma_pow10_positive(e);
        let n = normalize_spec(amount, src_decimals, target_decimals)->Ok_0;
        assert(n == (amount as nat) / p);
        lemma_fundamental_div_mod(amount as int, p as int);
        lemma_mod_pos_bound(amount as int, p as int);
        assert((n as nat) * p == p * (n as nat)) by (nonlinear_arith);
    }
}

/// `r` is the integer square root of `v`: the largest `r` with `r * r <= v`.
pub open spec fn is_isqrt(r: nat, v: nat) -> bool {
    r * r <= v < (r + 1) * (r + 1)
}

/// The integer square root of `v`.
pub open spec fn isqrt(v: nat) -> nat {
    choose|r: nat| is_isqrt(r, v)
}

/// Two integer square roots of one value are equal.
pub proof fn lemma_isqrt_unique(r1: nat, r2: nat, v: nat)
    requires
        is_isqrt(r1, v),
        is_isqrt(r2, v),
    ensures
        r1 == r2,
{
    if r1 < r2 {
        lemma_mul_inequality((r1 + 1) as int, r2 as int, (r1 + 1) as int);
        lemma_mul_inequality((r1 + 1) as int, r2 as int, r2 as int);
        assert((r2 as int) * (r1 + 1) == (r1 + 1) * (r2 as int)) by (nonlinear_arith);
    } else if r2 < r1 {
        lemma_mul_inequality((r2 + 1) as int, r1 as int, (r2 + 1) as int);
        lemma_mul_inequality((r2 + 1) as int, r1 as int, r1 as int);
        assert((r1 as int) * (r2 + 1) == (r2 + 1) * (r1 as int)) by (nonlinear_arith);
    }
}

/// Floor of the square root, by binary search.
pub fn integer_sqrt(value: u128) -> (r: u128)
    ensures
        is_isqrt(r as nat, value as nat),
        r == isqrt(value as nat),
{
    let r = integer_sqrt_search(value);
    proof {
        lemma_isqrt_unique(r as nat, isqrt(value as nat), value as nat);
    }
    r
}

fn integer_sqrt_search(value: u128) -> (r: u128)
    ensures
        is_isqrt(r as nat, value as nat),
{
    if value <= 1 {
        assert(is_isqrt(value as nat, value as nat)) by (nonlinear_arith)
            requires
                value <= 1,
        ;
        return value;
    }
    let mut left: u128 = 1;
    let mut right: u128 = value;
    assert((value + 1) * (value + 1) > value) by (nonlinear_arith);
    while left <= right
        invariant
            1 <= left,
            right <= value,
            left <= right + 1,
            (left - 1) * (left - 1) <= value,
            (right + 1) * (right + 1) > value,
        decreases right + 1 - left,
    {
        let mid: u128 = left + (right - left) / 2;
        assert(left <= mid <= right);
        match mid.checked_mul(mid) {
            Some(sq) => {
                if sq == value {
                    assert(is_isqrt(mid as nat, value as nat)) by (nonlinear_arith)
                        requires
                            mid * mid == value,
                    ;
                    return mid;
                }
                if sq < value {
                    assert(mid <= mid * mid) by (nonlinear_arith)
                        requires
                            mid >= 1,
                    ;
                    left = mid + 1;
                } else {
                    right = mid - 1;
                }
            },
            None => {
                right = mid - 1;
            },
        }
    }
    right
}

/// `a * b / c`, failing with `MathOverflow` when the product does not fit in
/// 128 bits or `c` is zero.
pub fn checked_mul_div(a: u128, b: u128, c: u128) -> (r: Result<u128, AmmError>)
    ensures
        r == (if a * b <= u128::MAX && c != 0 {
            Ok(((a * b) / (c as int)) as u128)
        } else {
            Err::<u128, AmmError>(AmmError::MathOverflow)
        }),
{
    match a.checked_mul(b) {
        Some(m) => {
            if c == 0 {
                Err(AmmError::MathOverflow)
            } else {
                proof {
                    lemma_div_is_ordered_by_denominator(m as int, 1, c as int);
                }
                Ok(m / c)
            }
        },
        None => Err(AmmError::MathOverflow),
    }
}

/// Constant-product output: `floor(amount_in * reserve_out / (reserve_in + amount_in))`.
pub open spec fn amount_out_spec(amount_in: u128, reserve_in: u128, reserve_out: u128) -> Result<u128, AmmError> {
    if reserve_in == 0 || reserve_out == 0 {
        Err(AmmError::NoLiquidity)
    } else if amount_in * reserve_out > u128::MAX || reserve_in + amount_in > u128::MAX {
        Err(AmmError::MathOverflow)
    } else {
        Ok(((amount_in * reserve_out) / (reserve_in + amount_in)) as u128)
    }
}

/// Prices a trade of `amount_in` against the reserves on the constant-product
/// curve. Fails with `NoLiquidity` when either reserve is empty.
pub fn get_amount_out(amount_in: u128, reserve_in: u128, reserve_out: u128) -> (r: Result<u128, AmmError>)
    ensures
        r == amount_out_spec(amount_in, reserve_in, reserve_out),
{
    if reserve_in == 0 || reserve_out == 0 {
        return Err(AmmError::NoLiquidity);
    }
    let numerator = match amount_in.checked_mul(reserve_out) {
        Some(n) => n,
        None => {
            return Err(AmmError::MathOverflow);
        },
    };
    let denominator = match reserve_in.checked_add(amount_in) {
        Some(d) => d,
        None => {
            return Err(AmmError::MathOverflow);
        },
    };
    proof {
        lemma_div_is_ordered_by_denominator(numerator as int, 1, denominator as int);
    }
    Ok(numerator / denominator)
}

/// The fee split of a normalized trade amount:
/// `(gross_fee, protocol_fee, creator_fee, net_in)`, where the protocol and
/// creator fees are fractions of the gross fee, not of the amount.
pub open spec fn fees_spec(amount_norm: u128, pool_fee_bps: u16, protocol_fee_bps: u16, creator_fee_bps: u16) -> Result<(u128, u128, u128, u128), AmmError> {
    let gross = (amount_norm * pool_fee_bps) / 10_000;
    if amount_norm * pool_fee_bps > u128::MAX
        || gross * protocol_fee_bps > u128::MAX
        || gross * creator_fee_bps > u128::MAX
        || gross > amount_norm {
        Err(AmmError::MathOverflow)
    } else {
        Ok((
            gross as u128,
            ((gross * protocol_fee_bps) / 10_000) as u128,
            ((gross * creator_fee_bps) / 10_000) as u128,
            (amount_norm - gross) as u128,
        ))
    }
}

/// Splits a normalized trade amount into gross fee, protocol fee, creator fee
/// and the net amount that is traded. What the gross fee holds beyond the
/// protocol and creator parts stays in the reserves.
pub fn compute_fees(amount_norm: u128, pool_fee_bps: u16, protocol_fee_bps: u16, creator_fee_bps: u16) -> (r: Result<(u128, u128, u128, u128), AmmError>)
    ensures
        r == fees_spec(amount_norm, pool_fee_bps, protocol_fee_bps, creator_fee_bps),
{
    let gross_fee = match checked_mul_div(amount_norm, pool_fee_bps as u128, BPS_DENOM) {
        Ok(g) => g,
        Err(e) => {
            return Err(e);
        },
    };
    let protocol_fee = match checked_mul_div(gross_fee, protocol_fee_bps as u128, BPS_DENOM) {
        Ok(p) => p,
        Err(e) => {
            return Err(e);
        },
    };
    let creator_fee = match checked_mul_div(gross_fee, creator_fee_bps as u128, BPS_DENOM) {
        Ok(c) => c,
        Err(e) => {
            return Err(e);
        },
    };
    let net_in = match amount_norm.checked_sub(gross_fee) {
        Some(n) => n,
        None => {
            return Err(AmmError::MathOverflow);
        },
    };
    Ok((gross_fee, protocol_fee, creator_fee, net_in))
}

} // verus!
