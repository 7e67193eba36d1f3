use vstd::prelude::*;

use crate::error::AmmError;
use crate::math::{checked_mul_div, integer_sqrt, isqrt};

verus! {

/// LP shares for the first deposit into an empty pool:
/// `floor(sqrt(norm_stack_in * norm_quote_in))`.
pub open spec fn bootstrap_lp_spec(norm_stack_in: u128, norm_quote_in: u128) -> Result<u128, AmmError> {
    if norm_stack_in * norm_quote_in > u128::MAX {
        Err(AmmError::MathOverflow)
    } else {
        Ok(isqrt((norm_stack_in * norm_quote_in) as nat) as u128)
    }
}

/// LP shares for a deposit into a pool that has shares outstanding:
/// `floor(norm_stack_in * total_lp_supply / norm_reserve_stack_before)`.
/// Only the stack side of the deposit counts.
pub open spec fn proportional_lp_spec(norm_stack_in: u128, total_lp_supply: u128, norm_reserve_stack_before: u128) -> Result<u128, AmmError> {
    if norm_reserve_stack_before == 0 {
        Err(AmmError::NoLiquidity)
    } else if norm_stack_in * total_lp_supply > u128::MAX {
        Err(AmmError::MathOverflow)
    } else {
        Ok(((norm_stack_in * total_lp_supply) / (norm_reserve_stack_before as int)) as u128)
    }
}

/// A holder's share of one reserve: `floor(reserve_norm * lp_amount / total_lp_supply)`.
pub open spec fn pro_rata_spec(reserve_norm: u128, lp_amount: u128, total_lp_supply: u128) -> Result<u128, AmmError> {
    if reserve_norm * lp_amount <= u128::MAX && total_lp_supply != 0 {
        Ok(((reserve_norm * lp_amount) / (total_lp_supply as int)) as u128)
    } else {
        Err(AmmError::MathOverflow)
    }
}

pub fn bootstrap_lp(norm_stack_in: u128, norm_quote_in: u128) -> (r: Result<u128, AmmError>)
    ensures
        r == bootstrap_lp_spec(norm_stack_in, norm_quote_in),
{
    match norm_stack_in.checked_mul(norm_quote_in) {
        Some(product) => Ok(integer_sqrt(product)),
        None => Err(AmmError::MathOverflow),
    }
}

pub fn proportional_lp(norm_stack_in: u128, total_lp_supply: u128, norm_reserve_stack_before: u128) -> (r: Result<u128, AmmError>)
    ensures
        r == proportional_lp_spec(norm_stack_in, total_lp_supply, norm_reserve_stack_before),
{
    if norm_reserve_stack_before == 0 {
        return Err(AmmError::NoLiquidity);
    }
    checked_mul_div(norm_stack_in, total_lp_supply, norm_reserve_stack_before)
}

pub fn pro_rata(reserve_norm: u128, lp_amount: u128, total_lp_supply: u128) -> (r: Result<u128, AmmError>)
    ensures
        r == pro_rata_spec(reserve_norm, lp_amount, total_lp_supply),
{
    checked_mul_div(reserve_norm, lp_amount, total_lp_supply)
}

/// One change of a pool's LP supply.
pub enum LpChange {
    Minted(u128),
    Burned(u128),
}

/// The supply after a change.
pub open spec fn apply_lp_change(supply: int, change: LpChange) -> int {
    match change {
        LpChange::Minted(n) => supply + n,
        LpChange::Burned(n) => supply - n,
    }
}

/// Whether the pool accepts a change at the given supply: a burn may not
/// exceed what is outstanding.
pub open spec fn lp_change_accepted(supply: int, change: LpChange) -> bool {
    match change {
        LpChange::Minted(_) => true,
        LpChange::Burned(n) => n <= supply,
    }
}

/// Minted minus burned over a sequence of changes.
pub open spec fn net_minted(changes: Seq<LpChange>) -> int
    decreases changes.len(),
{
    if changes.len() == 0 {
        0
    } else {
        apply_lp_change(net_minted(changes.drop_last()), changes.last())
    }
}

/// The LP supply of a pool, followed from creation (supply zero) through any
/// sequence of accepted mints and burns, equals minted minus burned at every
/// step and is never negative.
///
/// `supplies[i]` is the supply before `changes[i]`; deposits and withdrawals
/// state in their contracts that they move the supply by `apply_lp_change`
/// and only accept what `lp_change_accepted` allows.
pub proof fn lemma_lp_supply_is_net_minted(supplies: Seq<int>, changes: Seq<LpChange>)
    requires
        supplies.len() == changes.len() + 1,
        supplies[0] == 0,
        forall|i: int|
            0 <= i < changes.len() ==> lp_change_accepted(#[trigger] supplies[i], changes[i])
                && supplies[i + 1] == apply_lp_change(supplies[i], changes[i]),
    ensures
        forall|i: int| 0 <= i < supplies.len() ==> #[trigger] supplies[i] == net_minted(changes.take(i)),
        forall|i: int| 0 <= i < supplies.len() ==> #[trigger] supplies[i] >= 0,
        supplies.last() == net_minted(changes),
    decreases changes.len(),
{
    if changes.len() > 0 {
        let n = changes.len() - 1;
        lemma_lp_supply_is_net_minted(supplies.drop_last(), changes.drop_last());
        assert forall|i: int| 0 <= i < supplies.len() implies #[trigger] supplies[i] == net_minted(changes.take(i)) by {
            if i < supplies.len() - 1 {
                assert(supplies.drop_last()[i] == supplies[i]);
                assert(changes.drop_last().take(i) =~= changes.take(i));
            } else {
                assert(changes.take(i).drop_last() =~= changes.drop_last().take(n));
                assert(supplies.drop_last()[n] == supplies[n]);
                assert(changes.take(i).last() == changes[n]);
                assert(i == n + 1);
            }
        }
        assert forall|i: int| 0 <= i < supplies.len() implies #[trigger] supplies[i] >= 0 by {
            if i < supplies.len() - 1 {
                assert(supplies.drop_last()[i] == supplies[i]);
            } else {
                assert(supplies.drop_last()[n] == supplies[n]);
                assert(lp_change_accepted(supplies[n], changes[n]));
            }
        }
        assert(changes.take(changes.len() as int) =~= changes);
    } else {
        assert(changes.take(0) =~= changes);
    }
}

} // verus!
