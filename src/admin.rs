use vstd::prelude::*;

use crate::error::AmmError;
use crate::governance::{approval_check, validate_governance_approval};
use crate::state::{
    Global, GovernanceApproval, Key, Pool, StackInfo, DEFAULT_MAX_PRICE_DEVIATION_BPS, MAX_CREATOR_FEE_BPS,
    MAX_NORMALIZE_DECIMALS,
};

verus! {

/// Creates the global configuration. Both fee rates must be at most 100%
/// (10000 bps), else `InvalidFee`. The protocol starts unpaused.
pub fn init_global(
    admin: Key,
    treasury: Key,
    protocol_fee_bps: u16,
    pauser: Key,
    fee_manager: Key,
    governance: Key,
    max_fee_bps: u16,
    dust_threshold: u64,
    creator_claim_lock_secs: i64,
) -> (r: Result<Global, AmmError>)
    ensures
        r == (if protocol_fee_bps > 10_000 || max_fee_bps > 10_000 {
            Err(AmmError::InvalidFee)
        } else {
            Ok(Global {
                version: 1,
                admin,
                pauser,
                fee_manager,
                governance,
                protocol_fee_bps,
                paused: false,
                treasury,
                max_fee_bps,
                dust_threshold,
                creator_claim_lock_secs,
            })
        }),
{
    if protocol_fee_bps > 10_000 || max_fee_bps > 10_000 {
        return Err(AmmError::InvalidFee);
    }
    Ok(Global {
        version: 1,
        admin,
        pauser,
        fee_manager,
        governance,
        protocol_fee_bps,
        paused: false,
        treasury,
        max_fee_bps,
        dust_threshold,
        creator_claim_lock_secs,
    })
}

/// Registers a tradable asset. The creator fee may be at most
/// `MAX_CREATOR_FEE_BPS`, else `InvalidFee`; the mint authority given must be
/// the one the authority resolver expects for this mint, else
/// `InvalidMintAuthority`.
pub fn register_stack(
    creator: Key,
    stack_mint: Key,
    stack_mint_auth: Key,
    expected_stack_mint_auth: Key,
    bump: u8,
    creator_fee_bps: u16,
) -> (r: Result<StackInfo, AmmError>)
    ensures
        r == (if creator_fee_bps > MAX_CREATOR_FEE_BPS {
            Err(AmmError::InvalidFee)
        } else if expected_stack_mint_auth != stack_mint_auth {
            Err(AmmError::InvalidMintAuthority)
        } else {
            Ok(StackInfo { version: 1, creator, stack_mint, creator_fee_bps, rebalance_hook: None, bump })
        }),
{
    if creator_fee_bps > MAX_CREATOR_FEE_BPS {
        return Err(AmmError::InvalidFee);
    }
    if expected_stack_mint_auth != stack_mint_auth {
        return Err(AmmError::InvalidMintAuthority);
    }
    Ok(StackInfo { version: 1, creator, stack_mint, creator_fee_bps, rebalance_hook: None, bump })
}

/// A token account: its address, the authority that owns it, and its mint.
#[derive(Clone, Copy, Debug, PartialEq, Eq, Structural)]
pub struct TokenAccountKeys {
    pub address: Key,
    pub owner: Key,
    pub mint: Key,
}

/// The accounts a new pool is built from. `expected_vault_authority` is the
/// vault authority the authority resolver gives for `pool`.
#[derive(Clone, Copy, Debug, PartialEq, Eq, Structural)]
pub struct NewPoolAccounts {
    pub pool: Key,
    pub stack_mint: Key,
    pub quote_mint: Key,
    pub lp_mint: Key,
    pub stack_vault: TokenAccountKeys,
    pub quote_vault: TokenAccountKeys,
    pub protocol_fee_vault: TokenAccountKeys,
    pub creator_fee_vault: TokenAccountKeys,
    pub vault_authority: Key,
    pub expected_vault_authority: Key,
    pub oracle: Key,
}

/// The checks on a new pool's parameters and accounts, in order: precision,
/// fee cap, the vault authority, the reserve vaults' owners and mints, and
/// the fee vaults' owners and mints (fee vaults hold the quote asset).
pub open spec fn new_pool_check(global: Global, a: NewPoolAccounts, fee_bps: u16, decimal_normalize_to: u8) -> Result<(), AmmError> {
    let va = a.vault_authority;
    if decimal_normalize_to > MAX_NORMALIZE_DECIMALS {
        Err(AmmError::InvalidDecimals)
    } else if fee_bps > global.max_fee_cap() {
        Err(AmmError::InvalidFee)
    } else if a.expected_vault_authority != va || a.stack_vault.owner != va || a.quote_vault.owner != va {
        Err(AmmError::InvalidVaultOwner)
    } else if a.stack_vault.mint != a.stack_mint || a.quote_vault.mint != a.quote_mint {
        Err(AmmError::InvalidVaultMint)
    } else if a.protocol_fee_vault.owner != va || a.creator_fee_vault.owner != va {
        Err(AmmError::InvalidVaultOwner)
    } else if a.protocol_fee_vault.mint != a.quote_mint || a.creator_fee_vault.mint != a.quote_mint {
        Err(AmmError::InvalidVaultMint)
    } else {
        Ok(())
    }
}

/// A freshly created pool: unlocked, unpaused, with no LP supply, no creator
/// accrual and no consumed governance nonce.
pub open spec fn new_pool(global: Global, a: NewPoolAccounts, fee_bps: u16, k: u128, fee_on_transfer: bool, decimal_normalize_to: u8, bump: u8) -> Pool {
    Pool {
        version: 1,
        stack_mint: a.stack_mint,
        quote_mint: a.quote_mint,
        lp_mint: a.lp_mint,
        fee_bps,
        k,
        bump,
        paused: false,
        total_lp_supply: 0,
        locked: false,
        decimal_normalize_to,
        fee_on_transfer,
        protocol_fee_vault: a.protocol_fee_vault.address,
        creator_fee_vault: a.creator_fee_vault.address,
        treasury: global.treasury,
        oracle: a.oracle,
        creator_claimable: 0,
        creator_last_claim_ts: 0,
        max_price_deviation_bps: DEFAULT_MAX_PRICE_DEVIATION_BPS,
        last_governance_nonce: 0,
    }
}

/// Creates a pool after checking its parameters and accounts.
pub fn create_pool(global: &Global, accounts: &NewPoolAccounts, fee_bps: u16, k: u128, fee_on_transfer: bool, decimal_normalize_to: u8, bump: u8) -> (r: Result<Pool, AmmError>)
    ensures
        r == (match new_pool_check(*global, *accounts, fee_bps, decimal_normalize_to) {
            Ok(()) => Ok(new_pool(*global, *accounts, fee_bps, k, fee_on_transfer, decimal_normalize_to, bump)),
            Err(e) => Err(e),
        }),
        r is Ok ==> r->Ok_0.well_formed(*global),
{
    let a = accounts;
    let va = a.vault_authority;
    if decimal_normalize_to > MAX_NORMALIZE_DECIMALS {
        return Err(AmmError::InvalidDecimals);
    }
    if fee_bps > global.effective_max_fee_bps() {
        return Err(AmmError::InvalidFee);
    }
    if a.expected_vault_authority != va || a.stack_vault.owner != va || a.quote_vault.owner != va {
        return Err(AmmError::InvalidVaultOwner);
    }
    if a.stack_vault.mint != a.stack_mint || a.quote_vault.mint != a.quote_mint {
        return Err(AmmError::InvalidVaultMint);
    }
    if a.protocol_fee_vault.owner != va || a.creator_fee_vault.owner != va {
        return Err(AmmError::InvalidVaultOwner);
    }
    if a.protocol_fee_vault.mint != a.quote_mint || a.creator_fee_vault.mint != a.quote_mint {
        return Err(AmmError::InvalidVaultMint);
    }
    Ok(Pool {
        version: 1,
        stack_mint: a.stack_mint,
        quote_mint: a.quote_mint,
        lp_mint: a.lp_mint,
        fee_bps,
        k,
        bump,
        paused: false,
        total_lp_supply: 0,
        locked: false,
        decimal_normalize_to,
        fee_on_transfer,
        protocol_fee_vault: a.protocol_fee_vault.address,
        creator_fee_vault: a.creator_fee_vault.address,
        treasury: global.treasury,
        oracle: a.oracle,
        creator_claimable: 0,
        creator_last_claim_ts: 0,
        max_price_deviation_bps: DEFAULT_MAX_PRICE_DEVIATION_BPS,
        last_governance_nonce: 0,
    })
}

/// Whether `caller` may pause and resume the protocol.
pub open spec fn may_pause(global: Global, caller: Key) -> bool {
    caller == global.admin || caller == global.pauser || caller == global.governance
}

/// Pauses the protocol; only the admin, pauser or governance may.
pub fn emergency_pause(global: &mut Global, caller: Key) -> (r: Result<(), AmmError>)
    ensures
        may_pause(*old(global), caller) ==> r is Ok && *final(global) == (Global { paused: true, ..*old(global) }),
        !may_pause(*old(global), caller) ==> r == Err::<(), AmmError>(AmmError::Unauthorized) && *final(global) == *old(global),
{
    if !(caller == global.admin || caller == global.pauser || caller == global.governance) {
        return Err(AmmError::Unauthorized);
    }
    global.paused = true;
    Ok(())
}

/// Resumes the protocol; only the admin, pauser or governance may.
pub fn emergency_resume(global: &mut Global, caller: Key) -> (r: Result<(), AmmError>)
    ensures
        may_pause(*old(global), caller) ==> r is Ok && *final(global) == (Global { paused: false, ..*old(global) }),
        !may_pause(*old(global), caller) ==> r == Err::<(), AmmError>(AmmError::Unauthorized) && *final(global) == *old(global),
{
    if !(caller == global.admin || caller == global.pauser || caller == global.governance) {
        return Err(AmmError::Unauthorized);
    }
    global.paused = false;
    Ok(())
}

/// The protocol fee withdrawal, run inside an entered operation: only the
/// admin, fee manager or governance may take the protocol fee vault, and the
/// whole balance goes.
pub fn withdraw_protocol_fees(global: &Global, caller: Key, vault_balance: u64) -> (r: Result<u64, AmmError>)
    ensures
        r == (if caller == global.admin || caller == global.fee_manager || caller == global.governance {
            Ok(vault_balance)
        } else {
            Err(AmmError::Unauthorized)
        }),
{
    if caller == global.admin || caller == global.fee_manager || caller == global.governance {
        Ok(vault_balance)
    } else {
        Err(AmmError::Unauthorized)
    }
}

/// What `set_pool_params` does: after the role check and, when asked for, the
/// governance approval, a new fee must respect the cap; each given parameter
/// replaces the pool's.
pub open spec fn set_params_spec(pool: Pool, global: Global, caller: Key, new_fee_bps: Option<u16>, new_k: Option<u128>, max_price_deviation_bps: Option<u16>, use_governance_approval: bool, approval: Option<GovernanceApproval>, pool_key: Key, now: i64) -> Result<Pool, AmmError> {
    if !(caller == global.admin || caller == global.governance) {
        Err(AmmError::Unauthorized)
    } else {
        let nonce = if use_governance_approval {
            approval_check(approval, pool_key, now, pool.last_governance_nonce)
        } else {
            Ok(pool.last_governance_nonce)
        };
        match nonce {
            Err(e) => Err(e),
            Ok(n) => if new_fee_bps is Some && new_fee_bps->0 > global.max_fee_cap() {
                Err(AmmError::InvalidFee)
            } else {
                Ok(Pool {
                    fee_bps: match new_fee_bps { Some(f) => f, None => pool.fee_bps },
                    k: match new_k { Some(k) => k, None => pool.k },
                    max_price_deviation_bps: match max_price_deviation_bps { Some(m) => m, None => pool.max_price_deviation_bps },
                    last_governance_nonce: n,
                    ..pool
                })
            },
        }
    }
}

/// Updates a pool's fee, curve parameter and price-deviation bound; only the
/// admin or governance may. On failure the pool is unchanged.
pub fn set_pool_params(
    pool: &mut Pool,
    global: &Global,
    caller: Key,
    new_fee_bps: Option<u16>,
    new_k: Option<u128>,
    max_price_deviation_bps: Option<u16>,
    use_governance_approval: bool,
    approval: &Option<GovernanceApproval>,
    pool_key: Key,
    now: i64,
) -> (r: Result<(), AmmError>)
    ensures
        match set_params_spec(*old(pool), *global, caller, new_fee_bps, new_k, max_price_deviation_bps, use_governance_approval, *approval, pool_key, now) {
            Ok(p) => r is Ok && *final(pool) == p,
            Err(e) => r == Err::<(), AmmError>(e) && *final(pool) == *old(pool),
        },
        old(pool).well_formed(*global) ==> final(pool).well_formed(*global),
{
    if !(caller == global.admin || caller == global.governance) {
        return Err(AmmError::Unauthorized);
    }
    let mut next = *pool;
    if use_governance_approval {
        match validate_governance_approval(approval, pool_key, now, &mut next) {
            Ok(()) => {},
            Err(e) => {
                return Err(e);
            },
        }
    }
    match new_fee_bps {
        Some(f) => {
            if f > global.effective_max_fee_bps() {
                return Err(AmmError::InvalidFee);
            }
            next.fee_bps = f;
        },
        None => {},
    }
    match new_k {
        Some(k) => {
            next.k = k;
        },
        None => {},
    }
    match max_price_deviation_bps {
        Some(m) => {
            next.max_price_deviation_bps = m;
        },
        None => {},
    }
    *pool = next;
    Ok(())
}

/// A user's token account must hold the pool's mint for that asset.
pub fn validate_token_account_matches_mint(account_mint: Key, mint: Key) -> (r: Result<(), AmmError>)
    ensures
        r == (if account_mint == mint {
            Ok(())
        } else {
            Err(AmmError::InvalidVaultMint)
        }),
{
    if account_mint == mint {
        Ok(())
    } else {
        Err(AmmError::InvalidVaultMint)
    }
}

} // verus!
