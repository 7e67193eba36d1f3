use stackmint_amm::admin::{
    create_pool, emergency_pause, emergency_resume, init_global, register_stack, set_pool_params,
    validate_token_account_matches_mint, withdraw_protocol_fees, NewPoolAccounts, TokenAccountKeys,
};
use stackmint_amm::error::AmmError;
use stackmint_amm::governance::validate_governance_approval;
use stackmint_amm::lp::{bootstrap_lp, pro_rata, proportional_lp};
use stackmint_amm::math::{
    checked_mul_div, checked_pow10, compute_fees, denormalize_amount_u64, get_amount_out, integer_sqrt,
    normalize_amount_u128,
};
use stackmint_amm::pool::{
    claim_creator_fees, credited_amount, dust_to_sweep, emergency_withdraw, provide_liquidity, remove_liquidity,
    BalanceChange,
};
use stackmint_amm::state::{Global, GovernanceApproval, Key, Pool, StackInfo, SwapDirection};
use stackmint_amm::swap::{
    check_oracle_price, mint_stack_via_pool, redeem_stack_via_pool, route_fee, scale_up, swap_quote_to_stack,
    swap_stack_to_quote, view_mid_price, SwapPlan,
};

fn key(n: u128) -> Key {
    Key { hi: 0, lo: n }
}

fn admin() -> Key {
    key(1)
}

fn pauser() -> Key {
    key(2)
}

fn fee_manager() -> Key {
    key(3)
}

fn governance() -> Key {
    key(4)
}

fn creator() -> Key {
    key(5)
}

fn stranger() -> Key {
    key(99)
}

fn pool_key() -> Key {
    key(10)
}

fn global() -> Global {
    init_global(admin(), key(6), 5000, pauser(), fee_manager(), governance(), 2000, 0, 0).unwrap()
}

fn stack_info() -> StackInfo {
    register_stack(creator(), key(20), key(21), key(21), 254, 5000).unwrap()
}

fn accounts() -> NewPoolAccounts {
    let va = key(30);
    NewPoolAccounts {
        pool: pool_key(),
        stack_mint: key(20),
        quote_mint: key(22),
        lp_mint: key(23),
        stack_vault: TokenAccountKeys { address: key(31), owner: va, mint: key(20) },
        quote_vault: TokenAccountKeys { address: key(32), owner: va, mint: key(22) },
        protocol_fee_vault: TokenAccountKeys { address: key(33), owner: va, mint: key(22) },
        creator_fee_vault: TokenAccountKeys { address: key(34), owner: va, mint: key(22) },
        vault_authority: va,
        expected_vault_authority: va,
        oracle: key(35),
    }
}

fn new_pool() -> Pool {
    create_pool(&global(), &accounts(), 100, 0, false, 9, 255).unwrap()
}

fn deposit(before: u64, amount: u64) -> BalanceChange {
    BalanceChange { before, after: before + amount }
}

/// A pool with 1_000_000 of each asset at 9 decimals and 1_000_000 LP shares.
fn funded_pool() -> Pool {
    let g = global();
    let mut pool = new_pool();
    pool.enter(&g, false).unwrap();
    let lp = provide_liquidity(&mut pool, 9, 9, deposit(0, 1_000_000), deposit(0, 1_000_000)).unwrap();
    pool.leave();
    assert_eq!(lp, 1_000_000);
    pool
}

fn approval(nonce: u128) -> Option<GovernanceApproval> {
    Some(GovernanceApproval { target: pool_key(), approved: true, expiry_ts: 1_000, nonce })
}

// Decimal normalizer

#[test]
fn normalize_round_trip_six_to_nine() {
    let n = normalize_amount_u128(1_000_000, 6, 9).unwrap();
    assert_eq!(n, 1_000_000_000);
    assert_eq!(denormalize_amount_u64(n, 6, 9), Ok(1_000_000));
}

#[test]
fn normalize_downscale_drops_dust() {
    assert_eq!(normalize_amount_u128(999, 9, 6), Ok(0));
    assert_eq!(normalize_amount_u128(1_999, 9, 6), Ok(1));
}

#[test]
fn normalize_equal_precision_is_identity() {
    assert_eq!(normalize_amount_u128(12_345, 7, 7), Ok(12_345));
    assert_eq!(denormalize_amount_u64(12_345, 7, 7), Ok(12_345));
}

#[test]
fn normalize_overflow_and_extremes() {
    assert_eq!(normalize_amount_u128(u64::MAX, 0, 38), Err(AmmError::MathOverflow));
    assert_eq!(normalize_amount_u128(0, 0, 200), Ok(0));
    assert_eq!(normalize_amount_u128(u64::MAX, 255, 0), Ok(0));
    assert_eq!(normalize_amount_u128(5, 0, 18), Ok(5_000_000_000_000_000_000));
}

#[test]
fn denormalize_checks_native_width() {
    assert_eq!(denormalize_amount_u64(u64::MAX as u128 + 1, 9, 9), Err(AmmError::MathOverflow));
    assert_eq!(denormalize_amount_u64(u64::MAX as u128 * 10 + 9, 8, 9), Ok(u64::MAX));
    assert_eq!(denormalize_amount_u64(u64::MAX as u128, 10, 9), Err(AmmError::MathOverflow));
    assert_eq!(denormalize_amount_u64(2, 18, 0), Ok(2_000_000_000_000_000_000));
    assert_eq!(denormalize_amount_u64(20, 18, 0), Err(AmmError::MathOverflow));
    assert_eq!(denormalize_amount_u64(2, 9, 6), Ok(2_000));
    assert_eq!(denormalize_amount_u64(u128::MAX, 0, 200), Ok(0));
}

#[test]
fn pow10_limits() {
    assert_eq!(checked_pow10(0), Some(1));
    assert_eq!(checked_pow10(38), Some(100_000_000_000_000_000_000_000_000_000_000_000_000));
    assert_eq!(checked_pow10(39), None);
}

// Fee engine and pricing

#[test]
fn get_amount_out_prices_on_the_curve() {
    assert_eq!(get_amount_out(100, 1000, 1000), Ok(90));
    assert_eq!(get_amount_out(0, 1000, 1000), Ok(0));
}

#[test]
fn get_amount_out_errors() {
    assert_eq!(get_amount_out(100, 0, 1000), Err(AmmError::NoLiquidity));
    assert_eq!(get_amount_out(100, 1000, 0), Err(AmmError::NoLiquidity));
    assert_eq!(get_amount_out(u128::MAX, 1, 2), Err(AmmError::MathOverflow));
    assert_eq!(get_amount_out(1, u128::MAX, 1), Err(AmmError::MathOverflow));
}

#[test]
fn compute_fees_splits_the_gross_fee() {
    assert_eq!(compute_fees(10000, 100, 5000, 5000), Ok((100, 50, 50, 9900)));
    assert_eq!(compute_fees(999, 100, 5000, 5000), Ok((9, 4, 4, 990)));
}

#[test]
fn compute_fees_errors() {
    assert_eq!(compute_fees(u128::MAX, 2, 0, 0), Err(AmmError::MathOverflow));
    assert_eq!(compute_fees(100, 20_000, 0, 0), Err(AmmError::MathOverflow));
}

#[test]
fn checked_mul_div_cases() {
    assert_eq!(checked_mul_div(7, 6, 4), Ok(10));
    assert_eq!(checked_mul_div(7, 6, 0), Err(AmmError::MathOverflow));
    assert_eq!(checked_mul_div(u128::MAX, 2, 1), Err(AmmError::MathOverflow));
}

#[test]
fn integer_sqrt_floors() {
    assert_eq!(integer_sqrt(0), 0);
    assert_eq!(integer_sqrt(1), 1);
    assert_eq!(integer_sqrt(15), 3);
    assert_eq!(integer_sqrt(16), 4);
    assert_eq!(integer_sqrt(4_000_000), 2000);
    assert_eq!(integer_sqrt(u128::MAX), u64::MAX as u128);
}

// LP accounting

#[test]
fn bootstrap_lp_is_geometric_mean() {
    assert_eq!(bootstrap_lp(1000, 4000), Ok(2000));
    assert_eq!(bootstrap_lp(u128::MAX, 2), Err(AmmError::MathOverflow));
}

#[test]
fn proportional_lp_uses_stack_side() {
    assert_eq!(proportional_lp(500, 2000, 1000), Ok(1000));
    assert_eq!(proportional_lp(500, 2000, 0), Err(AmmError::NoLiquidity));
    assert_eq!(pro_rata(1500, 1000, 3000), Ok(500));
}

#[test]
fn bootstrap_deposit_mints_sqrt() {
    let g = global();
    let mut pool = new_pool();
    pool.enter(&g, false).unwrap();
    let lp = provide_liquidity(&mut pool, 9, 9, deposit(0, 1000), deposit(0, 4000));
    assert_eq!(lp, Ok(2000));
    assert_eq!(pool.total_lp_supply, 2000);
    pool.leave();
    assert!(!pool.locked);
}

#[test]
fn later_deposit_ignores_quote_ratio() {
    let g = global();
    let mut pool = new_pool();
    pool.enter(&g, false).unwrap();
    provide_liquidity(&mut pool, 9, 9, deposit(0, 1000), deposit(0, 4000)).unwrap();
    let lp = provide_liquidity(&mut pool, 9, 9, deposit(1000, 500), deposit(4000, 1));
    assert_eq!(lp, Ok(1000));
    assert_eq!(pool.total_lp_supply, 3000);
}

#[test]
fn deposit_counts_what_was_credited() {
    let g = global();
    let mut pool = new_pool();
    pool.enter(&g, false).unwrap();
    let stack = BalanceChange { before: 0, after: 900 };
    let quote = BalanceChange { before: 0, after: 3600 };
    assert_eq!(provide_liquidity(&mut pool, 9, 9, stack, quote), Ok(1800));
    assert_eq!(credited_amount(BalanceChange { before: 5, after: 3 }), Err(AmmError::MathOverflow));
}

#[test]
fn deposit_errors_leave_pool_unchanged() {
    let g = global();
    let mut pool = new_pool();
    pool.enter(&g, false).unwrap();
    let snapshot = pool;
    assert_eq!(provide_liquidity(&mut pool, 9, 9, deposit(0, 1), deposit(0, 0)), Err(AmmError::ZeroLpMint));
    assert_eq!(
        provide_liquidity(&mut pool, 9, 9, BalanceChange { before: 10, after: 5 }, deposit(0, 1)),
        Err(AmmError::MathOverflow)
    );
    assert_eq!(pool, snapshot);
    provide_liquidity(&mut pool, 9, 9, deposit(0, 1000), deposit(0, 4000)).unwrap();
    assert_eq!(provide_liquidity(&mut pool, 9, 9, deposit(0, 10), deposit(0, 10)), Err(AmmError::NoLiquidity));
}

#[test]
fn withdrawal_pays_pro_rata() {
    let g = global();
    let mut pool = new_pool();
    pool.enter(&g, false).unwrap();
    provide_liquidity(&mut pool, 9, 9, deposit(0, 1500), deposit(0, 6000)).unwrap();
    assert_eq!(pool.total_lp_supply, 3000);
    assert_eq!(remove_liquidity(&mut pool, 9, 9, 1500, 6000, 1000), Ok((500, 2000)));
    assert_eq!(pool.total_lp_supply, 2000);
}

#[test]
fn withdrawal_mixed_decimals() {
    let g = global();
    let mut pool = new_pool();
    pool.enter(&g, false).unwrap();
    // stack at 6 decimals, quote at 12 decimals, pool at 9
    provide_liquidity(&mut pool, 6, 12, deposit(0, 1_000), deposit(0, 4_000_000_000)).unwrap();
    assert_eq!(pool.total_lp_supply, 2_000_000);
    assert_eq!(remove_liquidity(&mut pool, 6, 12, 1_000, 4_000_000_000, 1_000_000), Ok((500, 2_000_000_000)));
}

#[test]
fn withdrawal_errors() {
    let g = global();
    let mut pool = new_pool();
    pool.enter(&g, false).unwrap();
    assert_eq!(remove_liquidity(&mut pool, 9, 9, 10, 10, 1), Err(AmmError::NoLiquidity));
    provide_liquidity(&mut pool, 9, 9, deposit(0, 100), deposit(0, 100)).unwrap();
    let snapshot = pool;
    assert_eq!(remove_liquidity(&mut pool, 9, 9, 100, 100, 101), Err(AmmError::MathOverflow));
    assert_eq!(pool, snapshot);
}

#[test]
fn lp_supply_tracks_minted_minus_burned() {
    let g = global();
    let mut pool = new_pool();
    pool.enter(&g, false).unwrap();
    let mut net: i128 = 0;
    let mut stack: u64 = 0;
    let mut quote: u64 = 0;
    for round in 1..6u64 {
        let m = provide_liquidity(&mut pool, 9, 9, deposit(stack, 1000 * round), deposit(quote, 4000 * round)).unwrap();
        stack += 1000 * round;
        quote += 4000 * round;
        net += m as i128;
        assert_eq!(pool.total_lp_supply as i128, net);
        let burn = m / 3;
        let (s, q) = remove_liquidity(&mut pool, 9, 9, stack, quote, burn).unwrap();
        stack -= s;
        quote -= q;
        net -= burn as i128;
        assert_eq!(pool.total_lp_supply as i128, net);
        assert!(net >= 0);
    }
    let all = pool.total_lp_supply as u64;
    remove_liquidity(&mut pool, 9, 9, stack, quote, all).unwrap();
    assert_eq!(pool.total_lp_supply, 0);
    assert_eq!(remove_liquidity(&mut pool, 9, 9, stack, quote, 1), Err(AmmError::NoLiquidity));
}

// Governance approvals

#[test]
fn approval_nonce_cannot_be_replayed() {
    let mut pool = new_pool();
    pool.last_governance_nonce = 4;
    let a = approval(5);
    assert_eq!(validate_governance_approval(&a, pool_key(), 100, &mut pool), Ok(()));
    assert_eq!(pool.last_governance_nonce, 5);
    assert_eq!(validate_governance_approval(&a, pool_key(), 100, &mut pool), Err(AmmError::GovernanceNotApproved));
    assert_eq!(pool.last_governance_nonce, 5);
}

#[test]
fn approval_refusals() {
    let mut pool = new_pool();
    let missing: Option<GovernanceApproval> = None;
    assert_eq!(validate_governance_approval(&missing, pool_key(), 0, &mut pool), Err(AmmError::GovernanceApprovalMissing));
    let unapproved = Some(GovernanceApproval { target: pool_key(), approved: false, expiry_ts: 1_000, nonce: 1 });
    assert_eq!(validate_governance_approval(&unapproved, pool_key(), 0, &mut pool), Err(AmmError::GovernanceNotApproved));
    assert_eq!(validate_governance_approval(&approval(1), pool_key(), 1_001, &mut pool), Err(AmmError::GovernanceApprovalExpired));
    assert_eq!(validate_governance_approval(&approval(1), key(77), 0, &mut pool), Err(AmmError::GovernanceApprovalTargetMismatch));
    assert_eq!(pool.last_governance_nonce, 0);
    assert_eq!(validate_governance_approval(&approval(1), pool_key(), 1_000, &mut pool), Ok(()));
}

// Pool state machine

#[test]
fn locked_pool_refuses_with_reentrancy() {
    let g = global();
    let mut pool = new_pool();
    pool.enter(&g, false).unwrap();
    assert!(pool.locked);
    let snapshot = pool;
    assert_eq!(pool.enter(&g, false), Err(AmmError::Reentrancy));
    assert_eq!(pool.enter(&g, true), Err(AmmError::Reentrancy));
    assert_eq!(pool.enter_with_approval(&g, &approval(1), pool_key(), 0), Err(AmmError::Reentrancy));
    assert_eq!(pool, snapshot);
    pool.leave();
    assert_eq!(pool.enter(&g, false), Ok(()));
}

#[test]
fn paused_protocol_refuses_but_emergency_passes() {
    let mut g = global();
    let mut pool = new_pool();
    assert_eq!(emergency_pause(&mut g, stranger()), Err(AmmError::Unauthorized));
    assert_eq!(emergency_pause(&mut g, pauser()), Ok(()));
    assert!(g.paused);
    assert_eq!(pool.enter(&g, false), Err(AmmError::ProtocolPaused));
    assert_eq!(pool.enter(&g, true), Ok(()));
    pool.leave();
    assert_eq!(emergency_resume(&mut g, governance()), Ok(()));
    assert!(!g.paused);
    pool.paused = true;
    assert_eq!(pool.enter(&g, false), Err(AmmError::ProtocolPaused));
}

#[test]
fn approval_entry_is_atomic() {
    let mut g = global();
    let mut pool = new_pool();
    emergency_pause(&mut g, admin()).unwrap();
    assert_eq!(pool.enter_with_approval(&g, &approval(3), pool_key(), 0), Err(AmmError::ProtocolPaused));
    assert_eq!(pool.last_governance_nonce, 0);
    emergency_resume(&mut g, admin()).unwrap();
    assert_eq!(pool.enter_with_approval(&g, &approval(3), pool_key(), 0), Ok(()));
    assert_eq!(pool.last_governance_nonce, 3);
    assert!(pool.locked);
}

#[test]
fn dust_sweep_uses_remaining_balance() {
    let g = global();
    assert_eq!(dust_to_sweep(&g, 10), 10);
    assert_eq!(dust_to_sweep(&g, 11), 0);
    assert_eq!(dust_to_sweep(&g, 0), 0);
    let g2 = init_global(admin(), key(6), 0, pauser(), fee_manager(), governance(), 0, 500, 0).unwrap();
    assert_eq!(dust_to_sweep(&g2, 500), 500);
    assert_eq!(dust_to_sweep(&g2, 501), 0);
}

#[test]
fn emergency_withdraw_pays_raw_shares() {
    let g = global();
    let mut pool = funded_pool();
    pool.paused = true;
    pool.enter(&g, true).unwrap();
    assert_eq!(emergency_withdraw(&mut pool, 1_000_000, 2_000_000, 250_000), Ok((250_000, 500_000)));
    assert_eq!(pool.total_lp_supply, 750_000);
    assert_eq!(emergency_withdraw(&mut pool, 1, 1, 750_001), Err(AmmError::MathOverflow));
    pool.total_lp_supply = 0;
    assert_eq!(emergency_withdraw(&mut pool, 1, 1, 1), Err(AmmError::NoLiquidity));
}

// Swaps

#[test]
fn swap_stack_to_quote_plan() {
    let g = global();
    let info = stack_info();
    let mut pool = funded_pool();
    pool.enter(&g, false).unwrap();
    let r = swap_stack_to_quote(&mut pool, &g, &info, 9, 9, deposit(1_000_000, 10_000), 1_000_000, 9_802, None, 77);
    assert_eq!(r, Ok(SwapPlan { amount_out: 9_802, protocol_fee_out: 49, creator_fee_out: 49 }));
    assert_eq!(pool.creator_claimable, 49);
    assert_eq!(pool.creator_last_claim_ts, 77);
}

#[test]
fn swap_quote_to_stack_plan() {
    let g = global();
    let info = stack_info();
    let mut pool = funded_pool();
    pool.enter(&g, false).unwrap();
    let r = swap_quote_to_stack(&mut pool, &g, &info, 9, 9, deposit(1_000_000, 10_000), 1_000_000, 0, None, 78);
    assert_eq!(r, Ok(SwapPlan { amount_out: 9_802, protocol_fee_out: 49, creator_fee_out: 49 }));
    assert_eq!(pool.creator_claimable, 48);
    assert_eq!(pool.creator_last_claim_ts, 78);
}

#[test]
fn swap_slippage_and_oracle() {
    let g = global();
    let info = stack_info();
    let mut pool = funded_pool();
    pool.enter(&g, false).unwrap();
    let snapshot = pool;
    let r = swap_stack_to_quote(&mut pool, &g, &info, 9, 9, deposit(1_000_000, 10_000), 1_000_000, 9_803, None, 1);
    assert_eq!(r, Err(AmmError::SlippageExceeded));
    let ok = swap_stack_to_quote(&mut pool, &g, &info, 9, 9, deposit(1_000_000, 10_000), 1_000_000, 0, Some(1_000_000_000), 1);
    assert!(ok.is_ok());
    pool = snapshot;
    pool.max_price_deviation_bps = 50;
    let far = swap_stack_to_quote(&mut pool, &g, &info, 9, 9, deposit(1_000_000, 10_000), 1_000_000, 0, Some(1_000_000_000), 1);
    assert_eq!(far, Err(AmmError::OraclePriceMismatch));
    let zero = swap_stack_to_quote(&mut pool, &g, &info, 9, 9, deposit(1_000_000, 0), 1_000_000, 0, Some(1_000_000_000), 1);
    assert_eq!(zero, Err(AmmError::SlippageExceeded));
    assert_eq!(pool.creator_claimable, 0);
}

#[test]
fn swap_on_empty_pool_has_no_liquidity() {
    let g = global();
    let info = stack_info();
    let mut pool = new_pool();
    pool.enter(&g, false).unwrap();
    let r = swap_quote_to_stack(&mut pool, &g, &info, 9, 9, deposit(0, 100), 0, 0, None, 1);
    assert_eq!(r, Err(AmmError::NoLiquidity));
}

#[test]
fn oracle_guard_cases() {
    assert_eq!(check_oracle_price(9_802, 9_900, 1_000_000_000, 9, 2000), Ok(()));
    assert_eq!(check_oracle_price(9_802, 9_900, 1_000_000_000, 9, 98), Ok(()));
    assert_eq!(check_oracle_price(9_802, 9_900, 1_000_000_000, 9, 97), Err(AmmError::OraclePriceMismatch));
    assert_eq!(check_oracle_price(9_802, 0, 1_000_000_000, 9, 2000), Err(AmmError::SlippageExceeded));
    assert_eq!(check_oracle_price(9_802, 9_900, 0, 9, 2000), Err(AmmError::MathOverflow));
    assert_eq!(scale_up(3, 2), Ok(300));
    assert_eq!(scale_up(3, 39), Err(AmmError::MathOverflow));
}

#[test]
fn fee_routing_by_direction() {
    assert_eq!(route_fee(SwapDirection::StackToQuote, 50, 50, 1_000_000, 1_000_000, 9, 9), Ok((49, 49, Some(49))));
    assert_eq!(route_fee(SwapDirection::QuoteToStack, 50, 50, 1_000_000, 1_000_000, 9, 9), Ok((49, 49, Some(48))));
    assert_eq!(route_fee(SwapDirection::StackToQuote, 0, 0, 1_000_000, 1_000_000, 9, 9), Ok((0, 0, None)));
    assert_eq!(route_fee(SwapDirection::QuoteToStack, 50, 50, 1_000_000, 1_000_000, 6, 9), Ok((0, 0, None)));
}

#[test]
fn mint_and_redeem_via_pool() {
    let g = global();
    let info = stack_info();
    let mut pool = funded_pool();
    pool.enter(&g, false).unwrap();
    let minted = mint_stack_via_pool(&mut pool, &g, &info, 9, 9, deposit(1_000_000, 10_000), 1_000_000, 9_802, 5);
    assert_eq!(minted, Ok(SwapPlan { amount_out: 9_802, protocol_fee_out: 49, creator_fee_out: 49 }));
    assert_eq!(pool.creator_claimable, 48);
    let redeemed = redeem_stack_via_pool(&mut pool, &g, &info, 9, 9, 10_000, 1_000_000, 1_000_000, 9_802, 6);
    assert_eq!(redeemed, Ok(SwapPlan { amount_out: 9_802, protocol_fee_out: 49, creator_fee_out: 49 }));
    assert_eq!(pool.creator_claimable, 97);
    assert_eq!(pool.creator_last_claim_ts, 6);
    let short = redeem_stack_via_pool(&mut pool, &g, &info, 9, 9, 10_000, 1_000_000, 1_000_000, 9_803, 7);
    assert_eq!(short, Err(AmmError::SlippageExceeded));
}

#[test]
fn swap_refuses_fee_above_cap() {
    let g = global();
    let info = stack_info();
    let mut pool = funded_pool();
    pool.fee_bps = 2001;
    pool.enter(&g, false).unwrap();
    let r = swap_stack_to_quote(&mut pool, &g, &info, 9, 9, deposit(1_000_000, 10_000), 1_000_000, 0, None, 1);
    assert_eq!(r, Err(AmmError::InvalidFee));
}

#[test]
fn mid_price_from_reserves() {
    let pool = new_pool();
    assert_eq!(view_mid_price(&pool, 2_000, 5_000), Ok(2_500_000_000));
    assert_eq!(view_mid_price(&pool, 0, 5_000), Err(AmmError::NoLiquidity));
    assert_eq!(view_mid_price(&pool, 5_000, 0), Err(AmmError::NoLiquidity));
}

// Creator claims

#[test]
fn claim_waits_for_the_lock() {
    let g = global();
    let info = stack_info();
    let mut pool = new_pool();
    let t: i64 = 1_700_000_000;
    pool.creator_claimable = 1_234;
    pool.creator_last_claim_ts = t;
    pool.enter(&g, false).unwrap();
    assert_eq!(claim_creator_fees(&mut pool, &g, &info, creator(), 9, t + 604_799), Err(AmmError::ClaimLocked));
    assert_eq!(pool.creator_claimable, 1_234);
    assert_eq!(claim_creator_fees(&mut pool, &g, &info, creator(), 9, t + 604_800), Ok(1_234));
    assert_eq!(pool.creator_claimable, 0);
}

#[test]
fn claim_refusals() {
    let g = init_global(admin(), key(6), 0, pauser(), fee_manager(), governance(), 0, 0, 100).unwrap();
    let info = stack_info();
    let mut pool = new_pool();
    pool.enter(&g, false).unwrap();
    assert_eq!(claim_creator_fees(&mut pool, &g, &info, creator(), 9, 1_000), Err(AmmError::NoFees));
    pool.creator_claimable = 5_000;
    assert_eq!(claim_creator_fees(&mut pool, &g, &info, stranger(), 9, 1_000), Err(AmmError::Unauthorized));
    assert_eq!(claim_creator_fees(&mut pool, &g, &info, creator(), 9, 99), Err(AmmError::ClaimLocked));
    assert_eq!(claim_creator_fees(&mut pool, &g, &info, creator(), 6, 100), Ok(5));
    pool.creator_claimable = 1;
    pool.creator_last_claim_ts = i64::MAX;
    assert_eq!(claim_creator_fees(&mut pool, &g, &info, creator(), 9, i64::MAX), Err(AmmError::MathOverflow));
}

// Configuration

#[test]
fn init_global_bounds() {
    assert_eq!(
        init_global(admin(), key(6), 10_001, pauser(), fee_manager(), governance(), 0, 0, 0),
        Err(AmmError::InvalidFee)
    );
    assert_eq!(
        init_global(admin(), key(6), 0, pauser(), fee_manager(), governance(), 10_001, 0, 0),
        Err(AmmError::InvalidFee)
    );
    let g = global();
    assert_eq!(g.version, 1);
    assert!(!g.paused);
    assert_eq!(g.effective_max_fee_bps(), 2000);
    assert_eq!(g.effective_dust_threshold(), 10);
    assert_eq!(g.effective_claim_lock_secs(), 604_800);
}

#[test]
fn register_stack_checks() {
    assert_eq!(register_stack(creator(), key(20), key(21), key(21), 1, 5001), Err(AmmError::InvalidFee));
    assert_eq!(register_stack(creator(), key(20), key(21), key(22), 1, 100), Err(AmmError::InvalidMintAuthority));
    let info = stack_info();
    assert_eq!(info.creator, creator());
    assert_eq!(info.creator_fee_bps, 5000);
    assert_eq!(info.rebalance_hook, None);
}

#[test]
fn create_pool_checks() {
    let g = global();
    let a = accounts();
    assert_eq!(create_pool(&g, &a, 100, 0, false, 19, 1), Err(AmmError::InvalidDecimals));
    assert_eq!(create_pool(&g, &a, 2001, 0, false, 9, 1), Err(AmmError::InvalidFee));
    let mut bad = a;
    bad.expected_vault_authority = key(77);
    assert_eq!(create_pool(&g, &bad, 100, 0, false, 9, 1), Err(AmmError::InvalidVaultOwner));
    let mut bad = a;
    bad.quote_vault.mint = key(20);
    assert_eq!(create_pool(&g, &bad, 100, 0, false, 9, 1), Err(AmmError::InvalidVaultMint));
    let mut bad = a;
    bad.creator_fee_vault.owner = key(77);
    assert_eq!(create_pool(&g, &bad, 100, 0, false, 9, 1), Err(AmmError::InvalidVaultOwner));
    let mut bad = a;
    bad.protocol_fee_vault.mint = key(20);
    assert_eq!(create_pool(&g, &bad, 100, 0, false, 9, 1), Err(AmmError::InvalidVaultMint));
    let pool = new_pool();
    assert_eq!(pool.total_lp_supply, 0);
    assert!(!pool.locked && !pool.paused);
    assert_eq!(pool.max_price_deviation_bps, 2000);
    assert_eq!(pool.protocol_fee_vault, key(33));
    assert_eq!(pool.treasury, key(6));
}

#[test]
fn set_pool_params_rules() {
    let g = global();
    let mut pool = new_pool();
    let none: Option<GovernanceApproval> = None;
    assert_eq!(
        set_pool_params(&mut pool, &g, fee_manager(), Some(50), None, None, false, &none, pool_key(), 0),
        Err(AmmError::Unauthorized)
    );
    assert_eq!(
        set_pool_params(&mut pool, &g, admin(), Some(2001), Some(7), None, false, &none, pool_key(), 0),
        Err(AmmError::InvalidFee)
    );
    assert_eq!(pool.k, 0);
    assert_eq!(
        set_pool_params(&mut pool, &g, governance(), Some(50), Some(7), Some(300), true, &approval(9), pool_key(), 0),
        Ok(())
    );
    assert_eq!((pool.fee_bps, pool.k, pool.max_price_deviation_bps, pool.last_governance_nonce), (50, 7, 300, 9));
    assert_eq!(
        set_pool_params(&mut pool, &g, admin(), Some(60), None, None, true, &approval(9), pool_key(), 0),
        Err(AmmError::GovernanceNotApproved)
    );
    assert_eq!(pool.fee_bps, 50);
}

#[test]
fn protocol_fee_withdrawal_roles() {
    let g = global();
    assert_eq!(withdraw_protocol_fees(&g, fee_manager(), 1_000), Ok(1_000));
    assert_eq!(withdraw_protocol_fees(&g, pauser(), 1_000), Err(AmmError::Unauthorized));
}

#[test]
fn token_account_mint_check() {
    assert_eq!(validate_token_account_matches_mint(key(1), key(1)), Ok(()));
    assert_eq!(validate_token_account_matches_mint(key(1), key(2)), Err(AmmError::InvalidVaultMint));
    assert_eq!(AmmError::ClaimLocked.message(), "Creator claim locked");
}
