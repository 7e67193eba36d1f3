use vstd::prelude::*;

use crate::error::AmmError;
use crate::math::{
    amount_out_spec, checked_pow10, compute_fees, denormalize_amount_u64, denormalize_spec, fees_spec,
    get_amount_out, normalize_amount_u128, normalize_spec, pow10, BPS_DENOM,
};
use crate::pool::{credited, credited_amount, BalanceChange};
use crate::state::{Global, Pool, StackInfo, SwapDirection};

verus! {

/// The token movements a trade calls for, in native units of the output
/// asset: what the trader receives, and what goes to the protocol and
/// creator fee vaults.
#[derive(Clone, Copy, Debug, PartialEq, Eq, Structural)]
pub struct SwapPlan {
    pub amount_out: u64,
    pub protocol_fee_out: u64,
    pub creator_fee_out: u64,
}

/// `x * 10^decimals`, failing with `MathOverflow` when the factor or the
/// product does not fit in 128 bits.
pub open spec fn scale_up_spec(x: u128, decimals: u8) -> Result<u128, AmmError> {
    if pow10(decimals as nat) > u128::MAX || x * pow10(decimals as nat) > u128::MAX {
        Err(AmmError::MathOverflow)
    } else {
        Ok((x * pow10(decimals as nat)) as u128)
    }
}

pub fn scale_up(x: u128, decimals: u8) -> (r: Result<u128, AmmError>)
    ensures
        r == scale_up_spec(x, decimals),
{
    match checked_pow10(decimals as u32) {
        Some(p) => match x.checked_mul(p) {
            Some(v) => Ok(v),
            None => Err(AmmError::MathOverflow),
        },
        None => Err(AmmError::MathOverflow),
    }
}

/// The oracle guard: the trade's implied price
/// `amount_out_norm * 10^decimals / net_in` may differ from the oracle price
/// by at most `max_deviation_bps` of the oracle price. A trade with nothing
/// net to trade is refused as slippage, and a zero oracle price as overflow.
pub open spec fn oracle_check(amount_out_norm: u128, net_in: u128, oracle_price: u128, decimals: u8, max_deviation_bps: u16) -> Result<(), AmmError> {
    if net_in == 0 {
        Err(AmmError::SlippageExceeded)
    } else {
        match scale_up_spec(amount_out_norm, decimals) {
            Err(e) => Err(e),
            Ok(scaled) => {
                let implied = scaled / net_in;
                let diff = if oracle_price > implied {
                    oracle_price - implied
                } else {
                    implied - oracle_price
                };
                if diff * 10_000 > u128::MAX || oracle_price == 0 {
                    Err(AmmError::MathOverflow)
                } else if (diff * 10_000) / (oracle_price as int) > max_deviation_bps {
                    Err(AmmError::OraclePriceMismatch)
                } else {
                    Ok(())
                }
            },
        }
    }
}

pub fn check_oracle_price(amount_out_norm: u128, net_in: u128, oracle_price: u128, decimals: u8, max_deviation_bps: u16) -> (r: Result<(), AmmError>)
    ensures
        r == oracle_check(amount_out_norm, net_in, oracle_price, decimals, max_deviation_bps),
{
    if net_in == 0 {
        return Err(AmmError::SlippageExceeded);
    }
    let scaled = match scale_up(amount_out_norm, decimals) {
        Ok(v) => v,
        Err(e) => {
            return Err(e);
        },
    };
    let implied = scaled / net_in;
    let diff = if oracle_price > implied {
        oracle_price - implied
    } else {
        implied - oracle_price
    };
    let widened = match diff.checked_mul(BPS_DENOM) {
        Some(w) => w,
        None => {
            return Err(AmmError::MathOverflow);
        },
    };
    if oracle_price == 0 {
        return Err(AmmError::MathOverflow);
    }
    let pct = widened / oracle_price;
    if pct > max_deviation_bps as u128 {
        return Err(AmmError::OraclePriceMismatch);
    }
    Ok(())
}

/// Fee routing: the protocol and creator fees, collected in the input asset,
/// are converted to the output asset by pricing them on the curve against
/// the reserves before the trade (a simulation; the reserves do not move).
/// Gives the two native amounts for the fee vaults and what accrues to the
/// creator, in normalized quote units: the converted creator fee when the
/// output is quote, or when the output is stack and a native amount moves,
/// that amount priced back into quote. `None` when nothing accrues.
pub open spec fn route_fee_spec(direction: SwapDirection, protocol_fee: u128, creator_fee: u128, reserve_in: u128, reserve_out: u128, out_decimals: u8, target_decimals: u8) -> Result<(u64, u64, Option<u128>), AmmError> {
    match (amount_out_spec(protocol_fee, reserve_in, reserve_out), amount_out_spec(creator_fee, reserve_in, reserve_out)) {
        (Ok(protocol_out), Ok(creator_out)) => match (denormalize_spec(protocol_out, out_decimals, target_decimals), denormalize_spec(creator_out, out_decimals, target_decimals)) {
            (Ok(protocol_native), Ok(creator_native)) => match direction {
                SwapDirection::StackToQuote => Ok((protocol_native, creator_native, if creator_out > 0 {
                    Some(creator_out)
                } else {
                    None
                })),
                SwapDirection::QuoteToStack => if creator_native > 0 {
                    match amount_out_spec(creator_out, reserve_out, reserve_in) {
                        Ok(creator_quote) => Ok((protocol_native, creator_native, Some(creator_quote))),
                        Err(e) => Err(e),
                    }
                } else {
                    Ok((protocol_native, creator_native, None))
                },
            },
            (Err(e), _) => Err(e),
            (_, Err(e)) => Err(e),
        },
        (Err(e), _) => Err(e),
        (_, Err(e)) => Err(e),
    }
}

pub fn route_fee(direction: SwapDirection, protocol_fee: u128, creator_fee: u128, reserve_in: u128, reserve_out: u128, out_decimals: u8, target_decimals: u8) -> (r: Result<(u64, u64, Option<u128>), AmmError>)
    ensures
        r == route_fee_spec(direction, protocol_fee, creator_fee, reserve_in, reserve_out, out_decimals, target_decimals),
{
    let protocol_out = match get_amount_out(protocol_fee, reserve_in, reserve_out) {
        Ok(v) => v,
        Err(e) => {
            return Err(e);
        },
    };
    let creator_out = match get_amount_out(creator_fee, reserve_in, reserve_out) {
        Ok(v) => v,
        Err(e) => {
            return Err(e);
        },
    };
    let protocol_native = match denormalize_amount_u64(protocol_out, out_decimals, target_decimals) {
        Ok(v) => v,
        Err(e) => {
            return Err(e);
        },
    };
    let creator_native = match denormalize_amount_u64(creator_out, out_decimals, target_decimals) {
        Ok(v) => v,
        Err(e) => {
            return Err(e);
        },
    };
    match direction {
        SwapDirection::StackToQuote => {
            let accrual = if creator_out > 0 {
                Some(creator_out)
            } else {
                None
            };
            Ok((protocol_native, creator_native, accrual))
        },
        SwapDirection::QuoteToStack => {
            if creator_native > 0 {
                match get_amount_out(creator_out, reserve_out, reserve_in) {
                    Ok(creator_quote) => Ok((protocol_native, creator_native, Some(creator_quote))),
                    Err(e) => Err(e),
                }
            } else {
                Ok((protocol_native, creator_native, None))
            }
        },
    }
}

/// A trade of `amount_in` native input units against the reserves before it:
/// normalize, take fees, check the fee cap, price the net amount on the
/// curve, apply the oracle guard when a price is given, bring the output
/// back to native units, check it against `min_out`, and route the fees.
/// Gives the plan and the creator accrual.
pub open spec fn swap_spec(pool: Pool, global: Global, creator_fee_bps: u16, direction: SwapDirection, in_decimals: u8, out_decimals: u8, amount_in: u64, reserve_in: u64, reserve_out: u64, min_out: u64, oracle_price: Option<u128>) -> Result<(SwapPlan, Option<u128>), AmmError> {
    let t = pool.decimal_normalize_to;
    match (normalize_spec(amount_in, in_decimals, t), normalize_spec(reserve_in, in_decimals, t), normalize_spec(reserve_out, out_decimals, t)) {
        (Ok(norm_in), Ok(r_in), Ok(r_out)) => match fees_spec(norm_in, pool.fee_bps, global.protocol_fee_bps, creator_fee_bps) {
            Err(e) => Err(e),
            Ok((_gross, protocol_fee, creator_fee, net_in)) => if pool.fee_bps > global.max_fee_cap() {
                Err(AmmError::InvalidFee)
            } else {
                match amount_out_spec(net_in, r_in, r_out) {
                    Err(e) => Err(e),
                    Ok(out_norm) => {
                        let guard = match oracle_price {
                            Some(op) => oracle_check(out_norm, net_in, op, t, pool.max_price_deviation_bps),
                            None => Ok(()),
                        };
                        match guard {
                            Err(e) => Err(e),
                            Ok(()) => match denormalize_spec(out_norm, out_decimals, t) {
                                Err(e) => Err(e),
                                Ok(amount_out) => if amount_out < min_out {
                                    Err(AmmError::SlippageExceeded)
                                } else {
                                    match route_fee_spec(direction, protocol_fee, creator_fee, r_in, r_out, out_decimals, t) {
                                        Err(e) => Err(e),
                                        Ok((protocol_native, creator_native, accrual)) => {
                                            let plan = SwapPlan {
                                                amount_out,
                                                protocol_fee_out: protocol_native,
                                                creator_fee_out: creator_native,
                                            };
                                            match accrual {
                                                Some(x) => if pool.creator_claimable + x > u128::MAX {
                                                    Err(AmmError::MathOverflow)
                                                } else {
                                                    Ok((plan, Some(x)))
                                                },
                                                None => Ok((plan, None)),
                                            }
                                        },
                                    }
                                },
                            },
                        }
                    },
                }
            },
        },
        _ => Err(AmmError::MathOverflow),
    }
}

/// The pool after a creator accrual at time `now`.
pub open spec fn accrue(pool: Pool, accrual: Option<u128>, now: i64) -> Pool {
    match accrual {
        Some(x) => Pool { creator_claimable: (pool.creator_claimable + x) as u128, creator_last_claim_ts: now, ..pool },
        None => pool,
    }
}

/// A trade's result and pool state agree with its outcome: on success the
/// plan is returned and the creator accrual applied; on failure the error is
/// returned and the pool is unchanged.
pub open spec fn swap_applied(before: Pool, after: Pool, r: Result<SwapPlan, AmmError>, outcome: Result<(SwapPlan, Option<u128>), AmmError>, now: i64) -> bool {
    match outcome {
        Ok((plan, accrual)) => r == Ok::<SwapPlan, AmmError>(plan) && after == accrue(before, accrual, now),
        Err(e) => r == Err::<SwapPlan, AmmError>(e) && after == before,
    }
}

/// The accounting of a trade; the callers below supply the direction and
/// the amounts. Only the creator accrual changes the pool.
fn swap_core(pool: &mut Pool, global: &Global, creator_fee_bps: u16, direction: SwapDirection, in_decimals: u8, out_decimals: u8, amount_in: u64, reserve_in: u64, reserve_out: u64, min_out: u64, oracle_price: Option<u128>, now: i64) -> (r: Result<SwapPlan, AmmError>)
    ensures
        swap_applied(*old(pool), *final(pool), r, swap_spec(*old(pool), *global, creator_fee_bps, direction, in_decimals, out_decimals, amount_in, reserve_in, reserve_out, min_out, oracle_price), now),
{
    let t = pool.decimal_normalize_to;
    let norm_in = match normalize_amount_u128(amount_in, in_decimals, t) {
        Ok(v) => v,
        Err(e) => {
            return Err(e);
        },
    };
    let r_in = match normalize_amount_u128(reserve_in, in_decimals, t) {
        Ok(v) => v,
        Err(e) => {
            return Err(e);
        },
    };
    let r_out = match normalize_amount_u128(reserve_out, out_decimals, t) {
        Ok(v) => v,
        Err(e) => {
            return Err(e);
        },
    };
    let (_gross, protocol_fee, creator_fee, net_in) = match compute_fees(norm_in, pool.fee_bps, global.protocol_fee_bps, creator_fee_bps) {
        Ok(f) => f,
        Err(e) => {
            return Err(e);
        },
    };
    if pool.fee_bps > global.effective_max_fee_bps() {
        return Err(AmmError::InvalidFee);
    }
    let out_norm = match get_amount_out(net_in, r_in, r_out) {
        Ok(v) => v,
        Err(e) => {
            return Err(e);
        },
    };
    match oracle_price {
        Some(op) => match check_oracle_price(out_norm, net_in, op, t, pool.max_price_deviation_bps) {
            Ok(()) => {},
            Err(e) => {
                return Err(e);
            },
        },
        None => {},
    }
    let amount_out = match denormalize_amount_u64(out_norm, out_decimals, t) {
        Ok(v) => v,
        Err(e) => {
            return Err(e);
        },
    };
    if amount_out < min_out {
        return Err(AmmError::SlippageExceeded);
    }
    let (protocol_native, creator_native, accrual) = match route_fee(direction, protocol_fee, creator_fee, r_in, r_out, out_decimals, t) {
        Ok(v) => v,
        Err(e) => {
            return Err(e);
        },
    };
    let plan = SwapPlan { amount_out, protocol_fee_out: protocol_native, creator_fee_out: creator_native };
    match accrual {
        Some(x) => match pool.creator_claimable.checked_add(x) {
            Some(c) => {
                pool.creator_claimable = c;
                pool.creator_last_claim_ts = now;
                Ok(plan)
            },
            None => Err(AmmError::MathOverflow),
        },
        None => Ok(plan),
    }
}

/// The accounting of a stack-to-quote trade, run inside an entered operation
/// after the trader's stack has been transferred in. `stack_vault` holds the
/// stack vault balance around that transfer, so the trade uses what was
/// actually credited; `quote_reserve` is the quote vault balance.
pub fn swap_stack_to_quote(pool: &mut Pool, global: &Global, stack_info: &StackInfo, stack_decimals: u8, quote_decimals: u8, stack_vault: BalanceChange, quote_reserve: u64, min_out: u64, oracle_price: Option<u128>, now: i64) -> (r: Result<SwapPlan, AmmError>)
    requires
        old(pool).locked,
    ensures
        match credited(stack_vault) {
            Ok(amount_in) => swap_applied(*old(pool), *final(pool), r, swap_spec(*old(pool), *global, stack_info.creator_fee_bps, SwapDirection::StackToQuote, stack_decimals, quote_decimals, amount_in, stack_vault.before, quote_reserve, min_out, oracle_price), now),
            Err(e) => r == Err::<SwapPlan, AmmError>(e) && *final(pool) == *old(pool),
        },
{
    let amount_in = match credited_amount(stack_vault) {
        Ok(a) => a,
        Err(e) => {
            return Err(e);
        },
    };
    swap_core(pool, global, stack_info.creator_fee_bps, SwapDirection::StackToQuote, stack_decimals, quote_decimals, amount_in, stack_vault.before, quote_reserve, min_out, oracle_price, now)
}

/// The accounting of a quote-to-stack trade, run inside an entered operation
/// after the trader's quote has been transferred in. `quote_vault` holds the
/// quote vault balance around that transfer; `stack_reserve` is the stack
/// vault balance.
pub fn swap_quote_to_stack(pool: &mut Pool, global: &Global, stack_info: &StackInfo, stack_decimals: u8, quote_decimals: u8, quote_vault: BalanceChange, stack_reserve: u64, min_out: u64, oracle_price: Option<u128>, now: i64) -> (r: Result<SwapPlan, AmmError>)
    requires
        old(pool).locked,
    ensures
        match credited(quote_vault) {
            Ok(amount_in) => swap_applied(*old(pool), *final(pool), r, swap_spec(*old(pool), *global, stack_info.creator_fee_bps, SwapDirection::QuoteToStack, quote_decimals, stack_decimals, amount_in, quote_vault.before, stack_reserve, min_out, oracle_price), now),
            Err(e) => r == Err::<SwapPlan, AmmError>(e) && *final(pool) == *old(pool),
        },
{
    let amount_in = match credited_amount(quote_vault) {
        Ok(a) => a,
        Err(e) => {
            return Err(e);
        },
    };
    swap_core(pool, global, stack_info.creator_fee_bps, SwapDirection::QuoteToStack, quote_decimals, stack_decimals, amount_in, quote_vault.before, stack_reserve, min_out, oracle_price, now)
}

/// The accounting of minting stack through the pool: a quote-to-stack trade
/// priced as `swap_quote_to_stack` prices it, without an oracle guard, whose
/// `amount_out` is then minted to the trader rather than paid from the vault.
pub fn mint_stack_via_pool(pool: &mut Pool, global: &Global, stack_info: &StackInfo, stack_decimals: u8, quote_decimals: u8, quote_vault: BalanceChange, stack_reserve: u64, min_stack_out: u64, now: i64) -> (r: Result<SwapPlan, AmmError>)
    requires
        old(pool).locked,
    ensures
        match credited(quote_vault) {
            Ok(amount_in) => swap_applied(*old(pool), *final(pool), r, swap_spec(*old(pool), *global, stack_info.creator_fee_bps, SwapDirection::QuoteToStack, quote_decimals, stack_decimals, amount_in, quote_vault.before, stack_reserve, min_stack_out, None), now),
            Err(e) => r == Err::<SwapPlan, AmmError>(e) && *final(pool) == *old(pool),
        },
{
    let amount_in = match credited_amount(quote_vault) {
        Ok(a) => a,
        Err(e) => {
            return Err(e);
        },
    };
    swap_core(pool, global, stack_info.creator_fee_bps, SwapDirection::QuoteToStack, quote_decimals, stack_decimals, amount_in, quote_vault.before, stack_reserve, min_stack_out, None, now)
}

/// The accounting of redeeming stack through the pool: the trader's
/// `stack_in` is burned rather than transferred in, then priced as a
/// stack-to-quote trade against the vault balances, without an oracle guard.
pub fn redeem_stack_via_pool(pool: &mut Pool, global: &Global, stack_info: &StackInfo, stack_decimals: u8, quote_decimals: u8, stack_in: u64, stack_reserve: u64, quote_reserve: u64, min_quote_out: u64, now: i64) -> (r: Result<SwapPlan, AmmError>)
    requires
        old(pool).locked,
    ensures
        swap_applied(*old(pool), *final(pool), r, swap_spec(*old(pool), *global, stack_info.creator_fee_bps, SwapDirection::StackToQuote, stack_decimals, quote_decimals, stack_in, stack_reserve, quote_reserve, min_quote_out, None), now),
{
    swap_core(pool, global, stack_info.creator_fee_bps, SwapDirection::StackToQuote, stack_decimals, quote_decimals, stack_in, stack_reserve, quote_reserve, min_quote_out, None, now)
}

/// The pool's mid price, quote per stack at the pool's internal precision:
/// `floor(quote_amount * 10^decimal_normalize_to / stack_amount)` from the
/// raw vault balances. Fails with `NoLiquidity` when either vault is empty.
pub fn view_mid_price(pool: &Pool, stack_amount: u64, quote_amount: u64) -> (r: Result<u128, AmmError>)
    ensures
        r == (if stack_amount == 0 || quote_amount == 0 {
            Err(AmmError::NoLiquidity)
        } else {
            match scale_up_spec(quote_amount as u128, pool.decimal_normalize_to) {
                Ok(scaled) => Ok((scaled / (stack_amount as u128)) as u128),
                Err(e) => Err(e),
            }
        }),
{
    if stack_amount == 0 || quote_amount == 0 {
        return Err(AmmError::NoLiquidity);
    }
    match scale_up(quote_amount as u128, pool.decimal_normalize_to) {
        Ok(scaled) => Ok(scaled / (stack_amount as u128)),
        Err(e) => Err(e),
    }
}

} // verus!
