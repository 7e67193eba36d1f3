use vstd::prelude::*;

verus! {

/// Fee cap for pools when the global configuration leaves it at zero (20%).
pub const FALLBACK_MAX_FEE_BPS: u16 = 2000;

/// Dust threshold when the global configuration leaves it at zero.
pub const FALLBACK_DUST_THRESHOLD: u64 = 10;

/// Creator claim timelock when the global configuration leaves it at zero (seven days).
pub const FALLBACK_CREATOR_CLAIM_LOCK_SECS: i64 = 60 * 60 * 24 * 7;

/// Highest creator fee an asset can be registered with (50% of the pool fee).
pub const MAX_CREATOR_FEE_BPS: u16 = 5000;

/// Highest internal precision a pool can normalize to.
pub const MAX_NORMALIZE_DECIMALS: u8 = 18;

/// Price deviation a new pool tolerates between a trade and an oracle price (20%).
pub const DEFAULT_MAX_PRICE_DEVIATION_BPS: u16 = 2000;

/// A 256-bit account identity (an address or a signer), as two halves.
#[derive(Clone, Copy, Debug, PartialEq, Eq, Structural)]
pub struct Key {
    pub hi: u128,
    pub lo: u128,
}

/// The process-wide configuration: roles, protocol fee, limits and the pause flag.
#[derive(Clone, Copy, Debug, PartialEq, Eq, Structural)]
pub struct Global {
    pub version: u8,
    pub admin: Key,
    pub pauser: Key,
    pub fee_manager: Key,
    pub governance: Key,
    pub protocol_fee_bps: u16,
    pub paused: bool,
    pub treasury: Key,
    pub max_fee_bps: u16,
    pub dust_threshold: u64,
    pub creator_claim_lock_secs: i64,
}

impl Global {
    /// The fee cap in force: the configured one, or the fallback when it is zero.
    pub open spec fn max_fee_cap(&self) -> u16 {
        if self.max_fee_bps == 0 {
            FALLBACK_MAX_FEE_BPS
        } else {
            self.max_fee_bps
        }
    }

    /// The dust threshold in force: the configured one, or the fallback when it is zero.
    pub open spec fn dust_limit(&self) -> u64 {
        if self.dust_threshold == 0 {
            FALLBACK_DUST_THRESHOLD
        } else {
            self.dust_threshold
        }
    }

    /// The creator claim timelock in force: the configured one, or the fallback when it is zero.
    pub open spec fn claim_lock(&self) -> i64 {
        if self.creator_claim_lock_secs == 0 {
            FALLBACK_CREATOR_CLAIM_LOCK_SECS
        } else {
            self.creator_claim_lock_secs
        }
    }

    pub fn effective_max_fee_bps(&self) -> (r: u16)
        ensures
            r == self.max_fee_cap(),
    {
        if self.max_fee_bps == 0 {
            FALLBACK_MAX_FEE_BPS
        } else {
            self.max_fee_bps
        }
    }

    pub fn effective_dust_threshold(&self) -> (r: u64)
        ensures
            r == self.dust_limit(),
    {
        if self.dust_threshold == 0 {
            FALLBACK_DUST_THRESHOLD
        } else {
            self.dust_threshold
        }
    }

    pub fn effective_claim_lock_secs(&self) -> (r: i64)
        ensures
            r == self.claim_lock(),
    {
        if self.creator_claim_lock_secs == 0 {
            FALLBACK_CREATOR_CLAIM_LOCK_SECS
        } else {
            self.creator_claim_lock_secs
        }
    }
}

/// A registered tradable asset: its creator and the creator's share of pool fees.
#[derive(Clone, Copy, Debug, PartialEq, Eq)]
pub struct StackInfo {
    pub version: u8,
    pub creator: Key,
    pub stack_mint: Key,
    pub creator_fee_bps: u16,
    pub rebalance_hook: Option<Key>,
    pub bump: u8,
}

/// One pool per (stack asset, quote asset) pair.
///
/// `creator_claimable` is held at the pool's internal precision
/// (`decimal_normalize_to`), in quote units.
#[derive(Clone, Copy, Debug, PartialEq, Eq, Structural)]
pub struct Pool {
    pub version: u8,
    pub stack_mint: Key,
    pub quote_mint: Key,
    pub lp_mint: Key,
    pub fee_bps: u16,
    pub k: u128,
    pub bump: u8,
    pub paused: bool,
    pub total_lp_supply: u128,
    pub locked: bool,
    pub decimal_normalize_to: u8,
    pub fee_on_transfer: bool,
    pub protocol_fee_vault: Key,
    pub creator_fee_vault: Key,
    pub treasury: Key,
    pub oracle: Key,
    pub creator_claimable: u128,
    pub creator_last_claim_ts: i64,
    pub max_price_deviation_bps: u16,
    pub last_governance_nonce: u128,
}

impl Pool {
    /// The pool's standing invariants under a configuration: its internal
    /// precision is at most `MAX_NORMALIZE_DECIMALS` and its fee respects the
    /// cap in force.
    pub open spec fn well_formed(&self, global: Global) -> bool {
        &&& self.decimal_normalize_to <= MAX_NORMALIZE_DECIMALS
        &&& self.fee_bps <= global.max_fee_cap()
    }
}

/// An attestation that governance approved an action on `target`; its
/// `nonce` can be consumed at most once per pool.
#[derive(Clone, Copy, Debug, PartialEq, Eq, Structural)]
pub struct GovernanceApproval {
    pub target: Key,
    pub approved: bool,
    pub expiry_ts: i64,
    pub nonce: u128,
}

/// Which way a swap trades.
#[derive(Clone, Copy, Debug, PartialEq, Eq, Structural)]
pub enum SwapDirection {
    StackToQuote,
    QuoteToStack,
}

} // verus!
