use vstd::prelude::*;

use crate::error::AmmError;
use crate::governance::{approval_check, validate_governance_approval};
use crate::lp::{
    apply_lp_change, bootstrap_lp, bootstrap_lp_spec, lp_change_accepted, pro_rata, pro_rata_spec,
    proportional_lp, proportional_lp_spec, LpChange,
};
use crate::math::{denormalize_amount_u64, denormalize_spec, normalize_amount_u128, normalize_spec};
use crate::state::{Global, GovernanceApproval, Key, Pool, StackInfo};

verus! {

/// A vault balance read before and after a transfer into it.
#[derive(Clone, Copy, Debug, PartialEq, Eq, Structural)]
pub struct BalanceChange {
    pub before: u64,
    pub after: u64,
}

/// What a transfer actually credited: the growth of the vault balance.
pub open spec fn credited(change: BalanceChange) -> Result<u64, AmmError> {
    if change.after < change.before {
        Err(AmmError::MathOverflow)
    } else {
        Ok((change.after - change.before) as u64)
    }
}

pub fn credited_amount(change: BalanceChange) -> (r: Result<u64, AmmError>)
    ensures
        r == credited(change),
{
    match change.after.checked_sub(change.before) {
        Some(d) => Ok(d),
        None => Err(AmmError::MathOverflow),
    }
}

/// Whether an operation may start on the pool: not paused (globally or for
/// the pool) unless it is an emergency path, and not already running.
pub open spec fn entry_check(pool: Pool, global: Global, emergency: bool) -> Result<(), AmmError> {
    if !emergency && (global.paused || pool.paused) {
        Err(AmmError::ProtocolPaused)
    } else if pool.locked {
        Err(AmmError::Reentrancy)
    } else {
        Ok(())
    }
}

impl Pool {
    /// Starts a value-moving operation: checks the pause flags (unless
    /// `emergency`) and the reentrancy lock, then takes the lock. A pool that
    /// is locked always refuses, before anything else happens.
    pub fn enter(&mut self, global: &Global, emergency: bool) -> (r: Result<(), AmmError>)
        ensures
            r == entry_check(*old(self), *global, emergency),
            r is Ok ==> *final(self) == (Pool { locked: true, ..*old(self) }),
            r is Err ==> *final(self) == *old(self),
            old(self).locked ==> r is Err,
    {
        if !emergency && (global.paused || self.paused) {
            return Err(AmmError::ProtocolPaused);
        }
        if self.locked {
            return Err(AmmError::Reentrancy);
        }
        self.locked = true;
        Ok(())
    }

    /// Starts a value-moving operation that needs a governance approval:
    /// validates the approval for `pool_key`, then enters as `enter` does.
    /// Either everything succeeds (the nonce is consumed and the lock taken)
    /// or the pool is left unchanged.
    pub fn enter_with_approval(&mut self, global: &Global, approval: &Option<GovernanceApproval>, pool_key: Key, now: i64) -> (r: Result<(), AmmError>)
        ensures
            match approval_check(*approval, pool_key, now, old(self).last_governance_nonce) {
                Ok(nonce) => {
                    &&& r == entry_check(*old(self), *global, false)
                    &&& r is Ok ==> *final(self) == (Pool { locked: true, last_governance_nonce: nonce, ..*old(self) })
                    &&& r is Err ==> *final(self) == *old(self)
                },
                Err(e) => r == Err::<(), AmmError>(e) && *final(self) == *old(self),
            },
            old(self).locked ==> r is Err,
    {
        let mut next = *self;
        match validate_governance_approval(approval, pool_key, now, &mut next) {
            Ok(()) => {},
            Err(e) => {
                return Err(e);
            },
        }
        match next.enter(global, false) {
            Ok(()) => {
                *self = next;
                Ok(())
            },
            Err(e) => Err(e),
        }
    }

    /// Ends an operation that completed: releases the lock.
    pub fn leave(&mut self)
        requires
            old(self).locked,
        ensures
            *final(self) == (Pool { locked: false, ..*old(self) }),
    {
        self.locked = false;
    }
}

/// How much of a vault's remaining balance goes to the treasury: all of it
/// when it is at or below the dust threshold in force, else nothing.
pub fn dust_to_sweep(global: &Global, vault_balance: u64) -> (r: u64)
    ensures
        r == (if vault_balance <= global.dust_limit() {
            vault_balance
        } else {
            0
        }),
{
    if vault_balance <= global.effective_dust_threshold() {
        vault_balance
    } else {
        0
    }
}

/// LP shares owed for a deposit, from the vault balances around the deposit
/// transfers. The credited amounts are normalized to the pool's precision; an
/// empty pool mints `floor(sqrt(stack * quote))`, any other
/// `floor(stack * total_lp_supply / stack_reserve_before)`.
pub open spec fn provide_spec(pool: Pool, stack_decimals: u8, quote_decimals: u8, stack: BalanceChange, quote: BalanceChange) -> Result<u64, AmmError> {
    let t = pool.decimal_normalize_to;
    let total = pool.total_lp_supply;
    match (credited(stack), credited(quote)) {
        (Ok(stack_in), Ok(quote_in)) => match (normalize_spec(stack_in, stack_decimals, t), normalize_spec(quote_in, quote_decimals, t)) {
            (Ok(norm_stack), Ok(norm_quote)) => {
                let minted = if total == 0 {
                    bootstrap_lp_spec(norm_stack, norm_quote)
                } else {
                    match normalize_spec(stack.before, stack_decimals, t) {
                        Ok(norm_reserve) => proportional_lp_spec(norm_stack, total, norm_reserve),
                        Err(e) => Err(e),
                    }
                };
                match minted {
                    Ok(lp) => if lp == 0 {
                        Err(AmmError::ZeroLpMint)
                    } else if lp > u64::MAX || total + lp > u128::MAX {
                        Err(AmmError::MathOverflow)
                    } else {
                        Ok(lp as u64)
                    },
                    Err(e) => Err(e),
                }
            },
            _ => Err(AmmError::MathOverflow),
        },
        _ => Err(AmmError::MathOverflow),
    }
}

/// The accounting of a deposit, run inside an entered operation after the
/// deposit transfers: computes the LP shares to mint and adds them to the
/// pool's supply. On failure the pool is unchanged.
pub fn provide_liquidity(pool: &mut Pool, stack_decimals: u8, quote_decimals: u8, stack: BalanceChange, quote: BalanceChange) -> (r: Result<u64, AmmError>)
    requires
        old(pool).locked,
    ensures
        r == provide_spec(*old(pool), stack_decimals, quote_decimals, stack, quote),
        r is Ok ==> *final(pool) == (Pool {
            total_lp_supply: apply_lp_change(old(pool).total_lp_supply as int, LpChange::Minted(r->Ok_0 as u128)) as u128,
            ..*old(pool)
        }),
        r is Err ==> *final(pool) == *old(pool),
{
    let t = pool.decimal_normalize_to;
    let stack_in = match credited_amount(stack) {
        Ok(a) => a,
        Err(e) => {
            return Err(e);
        },
    };
    let quote_in = match credited_amount(quote) {
        Ok(a) => a,
        Err(e) => {
            return Err(e);
        },
    };
    let norm_stack = match normalize_amount_u128(stack_in, stack_decimals, t) {
        Ok(v) => v,
        Err(e) => {
            return Err(e);
        },
    };
    let norm_quote = match normalize_amount_u128(quote_in, quote_decimals, t) {
        Ok(v) => v,
        Err(e) => {
            return Err(e);
        },
    };
    let minted = if pool.total_lp_supply == 0 {
        bootstrap_lp(norm_stack, norm_quote)
    } else {
        match normalize_amount_u128(stack.before, stack_decimals, t) {
            Ok(norm_reserve) => proportional_lp(norm_stack, pool.total_lp_supply, norm_reserve),
            Err(e) => Err(e),
        }
    };
    let lp = match minted {
        Ok(lp) => lp,
        Err(e) => {
            return Err(e);
        },
    };
    if lp == 0 {
        return Err(AmmError::ZeroLpMint);
    }
    if lp > u64::MAX as u128 {
        return Err(AmmError::MathOverflow);
    }
    match pool.total_lp_supply.checked_add(lp) {
        Some(total) => {
            pool.total_lp_supply = total;
            Ok(lp as u64)
        },
        None => Err(AmmError::MathOverflow),
    }
}

/// What a withdrawal of `lp_amount` shares pays: each normalized reserve
/// times `lp_amount / total_lp_supply` (floor), brought back to the asset's
/// precision, as `(stack_out, quote_out)`.
pub open spec fn remove_spec(pool: Pool, stack_decimals: u8, quote_decimals: u8, stack_reserve: u64, quote_reserve: u64, lp_amount: u64) -> Result<(u64, u64), AmmError> {
    let t = pool.decimal_normalize_to;
    let total = pool.total_lp_supply;
    if total == 0 {
        Err(AmmError::NoLiquidity)
    } else if !lp_change_accepted(total as int, LpChange::Burned(lp_amount as u128)) {
        Err(AmmError::MathOverflow)
    } else {
        match (normalize_spec(stack_reserve, stack_decimals, t), normalize_spec(quote_reserve, quote_decimals, t)) {
            (Ok(rs), Ok(rq)) => match (pro_rata_spec(rs, lp_amount as u128, total), pro_rata_spec(rq, lp_amount as u128, total)) {
                (Ok(os), Ok(oq)) => match (denormalize_spec(os, stack_decimals, t), denormalize_spec(oq, quote_decimals, t)) {
                    (Ok(s), Ok(q)) => Ok((s, q)),
                    _ => Err(AmmError::MathOverflow),
                },
                _ => Err(AmmError::MathOverflow),
            },
            _ => Err(AmmError::MathOverflow),
        }
    }
}

/// The accounting of a withdrawal, run inside an entered operation: computes
/// the pro-rata payout of both assets from the vault balances and takes
/// `lp_amount` out of the pool's supply. A withdrawal of more shares than
/// are outstanding is refused, so the supply never goes negative.
pub fn remove_liquidity(pool: &mut Pool, stack_decimals: u8, quote_decimals: u8, stack_reserve: u64, quote_reserve: u64, lp_amount: u64) -> (r: Result<(u64, u64), AmmError>)
    requires
        old(pool).locked,
    ensures
        r == remove_spec(*old(pool), stack_decimals, quote_decimals, stack_reserve, quote_reserve, lp_amount),
        r is Ok ==> lp_change_accepted(old(pool).total_lp_supply as int, LpChange::Burned(lp_amount as u128)),
        r is Ok ==> *final(pool) == (Pool {
            total_lp_supply: apply_lp_change(old(pool).total_lp_supply as int, LpChange::Burned(lp_amount as u128)) as u128,
            ..*old(pool)
        }),
        r is Err ==> *final(pool) == *old(pool),
{
    let t = pool.decimal_normalize_to;
    let total = pool.total_lp_supply;
    if total == 0 {
        return Err(AmmError::NoLiquidity);
    }
    let lp = lp_amount as u128;
    if lp > total {
        return Err(AmmError::MathOverflow);
    }
    let rs = match normalize_amount_u128(stack_reserve, stack_decimals, t) {
        Ok(v) => v,
        Err(e) => {
            return Err(e);
        },
    };
    let rq = match normalize_amount_u128(quote_reserve, quote_decimals, t) {
        Ok(v) => v,
        Err(e) => {
            return Err(e);
        },
    };
    let os = match pro_rata(rs, lp, total) {
        Ok(v) => v,
        Err(e) => {
            return Err(e);
        },
    };
    let oq = match pro_rata(rq, lp, total) {
        Ok(v) => v,
        Err(e) => {
            return Err(e);
        },
    };
    let stack_out = match denormalize_amount_u64(os, stack_decimals, t) {
        Ok(v) => v,
        Err(e) => {
            return Err(e);
        },
    };
    let quote_out = match denormalize_amount_u64(oq, quote_decimals, t) {
        Ok(v) => v,
        Err(e) => {
            return Err(e);
        },
    };
    pool.total_lp_supply = total - lp;
    Ok((stack_out, quote_out))
}

/// What an emergency withdrawal pays: each raw vault balance times
/// `lp_amount / total_lp_supply` (floor), as `(stack_out, quote_out)`.
pub open spec fn emergency_spec(pool: Pool, stack_reserve: u64, quote_reserve: u64, lp_amount: u64) -> Result<(u64, u64), AmmError> {
    let total = pool.total_lp_supply;
    if total == 0 {
        Err(AmmError::NoLiquidity)
    } else if !lp_change_accepted(total as int, LpChange::Burned(lp_amount as u128)) {
        Err(AmmError::MathOverflow)
    } else {
        Ok((
            ((stack_reserve * lp_amount) / (total as int)) as u64,
            ((quote_reserve * lp_amount) / (total as int)) as u64,
        ))
    }
}

/// The accounting of an emergency withdrawal, run inside an operation entered
/// as an emergency (which ignores the pause flags but not the lock): pays out
/// pro rata from the raw vault balances and takes `lp_amount` out of the
/// pool's supply.
pub fn emergency_withdraw(pool: &mut Pool, stack_reserve: u64, quote_reserve: u64, lp_amount: u64) -> (r: Result<(u64, u64), AmmError>)
    requires
        old(pool).locked,
    ensures
        r == emergency_spec(*old(pool), stack_reserve, quote_reserve, lp_amount),
        r is Ok ==> lp_change_accepted(old(pool).total_lp_supply as int, LpChange::Burned(lp_amount as u128)),
        r is Ok ==> *final(pool) == (Pool {
            total_lp_supply: apply_lp_change(old(pool).total_lp_supply as int, LpChange::Burned(lp_amount as u128)) as u128,
            ..*old(pool)
        }),
        r is Err ==> *final(pool) == *old(pool),
{
    let total = pool.total_lp_supply;
    if total == 0 {
        return Err(AmmError::NoLiquidity);
    }
    let lp = lp_amount as u128;
    if lp > total {
        return Err(AmmError::MathOverflow);
    }
    let stack_out = share_of_balance(stack_reserve, lp, total);
    let quote_out = share_of_balance(quote_reserve, lp, total);
    pool.total_lp_supply = total - lp;
    Ok((stack_out, quote_out))
}

/// `floor(balance * lp / total)`, which never exceeds `balance` when `lp <= total`.
fn share_of_balance(balance: u64, lp: u128, total: u128) -> (r: u64)
    requires
        0 < total,
        lp <= total,
        lp <= u64::MAX,
    ensures
        r == (balance * lp) / (total as int),
{
    proof {
        vstd::arithmetic::mul::lemma_mul_upper_bound(balance as int, u64::MAX as int, lp as int, u64::MAX as int);
        vstd::arithmetic::mul::lemma_mul_inequality(lp as int, total as int, balance as int);
        vstd::arithmetic::div_mod::lemma_div_is_ordered((balance * lp) as int, (balance * total) as int, total as int);
        vstd::arithmetic::div_mod::lemma_div_multiples_vanish(balance as int, total as int);
        assert(lp * balance == balance * lp) by (nonlinear_arith);
        assert(total * balance == balance * total) by (nonlinear_arith);
    }
    let product = (balance as u128) * lp;
    (product / total) as u64
}

/// What a creator fee claim pays, in native quote units: the accrued
/// `creator_claimable`, once the claim lock in force has elapsed since the
/// last accrual. Only the asset's creator may claim, and only when something
/// has accrued.
pub open spec fn claim_spec(pool: Pool, global: Global, stack_info: StackInfo, caller: Key, quote_decimals: u8, now: i64) -> Result<u64, AmmError> {
    let unlock_at = pool.creator_last_claim_ts + global.claim_lock();
    if caller != stack_info.creator {
        Err(AmmError::Unauthorized)
    } else if pool.creator_claimable == 0 {
        Err(AmmError::NoFees)
    } else if unlock_at < i64::MIN || unlock_at > i64::MAX {
        Err(AmmError::MathOverflow)
    } else if now < unlock_at {
        Err(AmmError::ClaimLocked)
    } else {
        denormalize_spec(pool.creator_claimable, quote_decimals, pool.decimal_normalize_to)
    }
}

/// The accounting of a creator fee claim, run inside an entered operation:
/// gives the native quote amount to pay from the creator fee vault and
/// resets the accrual to zero. On failure the pool is unchanged.
pub fn claim_creator_fees(pool: &mut Pool, global: &Global, stack_info: &StackInfo, caller: Key, quote_decimals: u8, now: i64) -> (r: Result<u64, AmmError>)
    requires
        old(pool).locked,
    ensures
        r == claim_spec(*old(pool), *global, *stack_info, caller, quote_decimals, now),
        r is Ok ==> *final(pool) == (Pool { creator_claimable: 0, ..*old(pool) }),
        r is Err ==> *final(pool) == *old(pool),
{
    if caller != stack_info.creator {
        return Err(AmmError::Unauthorized);
    }
    if pool.creator_claimable == 0 {
        return Err(AmmError::NoFees);
    }
    let lock_secs = global.effective_claim_lock_secs();
    let unlock_at = match pool.creator_last_claim_ts.checked_add(lock_secs) {
        Some(t) => t,
        None => {
            return Err(AmmError::MathOverflow);
        },
    };
    if now < unlock_at {
        return Err(AmmError::ClaimLocked);
    }
    match denormalize_amount_u64(pool.creator_claimable, quote_decimals, pool.decimal_normalize_to) {
        Ok(amount) => {
            pool.creator_claimable = 0;
            Ok(amount)
        },
        Err(e) => Err(e),
    }
}

} // verus!
