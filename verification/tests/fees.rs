use easy_stake::error::StakingError;
use easy_stake::pubkey::Pubkey;
use easy_stake::state::fee::{Fee, MAX_BASIS_POINTS};
use easy_stake::state::liq_pool::{LiqPool, LAMPORTS_PER_SOL};

fn leg_key(n: u128) -> Pubkey {
    Pubkey { hi: n, lo: n }
}

fn pool_with_fees(min_bp: u32, max_bp: u32, target: u64) -> LiqPool {
    LiqPool {
        lp_mint: leg_key(1),
        lp_mint_authority_bump_seed: 255,
        sol_leg_bump_seed: 254,
        msol_leg_authority_bump_seed: 253,
        msol_leg: leg_key(2),
        lp_liquidity_target: target,
        lp_max_fee: Fee::from_basis_points(max_bp),
        lp_min_fee: Fee::from_basis_points(min_bp),
        treasury_cut: Fee::from_basis_points(2_500),
        lp_supply: 0,
        lent_from_sol_leg: 0,
        liquidity_sol_cap: u64::MAX,
    }
}

#[test]
fn fee_check_accepts_up_to_one_whole() {
    assert_eq!(Fee::from_basis_points(0).check(), Ok(()));
    assert_eq!(Fee::from_basis_points(MAX_BASIS_POINTS).check(), Ok(()));
    assert_eq!(
        Fee::from_basis_points(MAX_BASIS_POINTS + 1).check(),
        Err(StakingError::BasisPointCentsOverflow)
    );
}

#[test]
fn fee_apply_floors() {
    assert_eq!(Fee::from_basis_points(100).apply(10_000), 100);
    assert_eq!(Fee::from_basis_points(1).apply(50), 0);
    assert_eq!(Fee::from_basis_points(10_000).apply(77), 77);
    assert_eq!(Fee::from_basis_points(505).apply(10_000), 505);
}

#[test]
fn liq_pool_validate_orders_its_rules() {
    let good = pool_with_fees(10, 1_000, 50 * LAMPORTS_PER_SOL);
    assert_eq!(good.validate(), Ok(()));

    let mut p = pool_with_fees(10, 1_001, 50 * LAMPORTS_PER_SOL);
    assert_eq!(p.validate(), Err(StakingError::LpMaxFeeIsTooHigh));

    p = pool_with_fees(20, 10, 50 * LAMPORTS_PER_SOL);
    assert_eq!(p.validate(), Err(StakingError::LpFeesAreWrongWayRound));

    p = pool_with_fees(10, 1_000, 50 * LAMPORTS_PER_SOL - 1);
    assert_eq!(p.validate(), Err(StakingError::LiquidityTargetTooLow));

    p = pool_with_fees(10, 1_000, 50 * LAMPORTS_PER_SOL);
    p.treasury_cut = Fee::from_basis_points(7_501);
    assert_eq!(p.validate(), Err(StakingError::TreasuryCutIsTooHigh));

    p = pool_with_fees(10, 20_000, 50 * LAMPORTS_PER_SOL);
    assert_eq!(p.validate(), Err(StakingError::BasisPointCentsOverflow));
}

#[test]
fn linear_fee_scenario_on_the_curve() {
    // target 50 whole tokens, fees from 10bp up to 1000bp
    let p = pool_with_fees(10, 1_000, 50 * LAMPORTS_PER_SOL);
    assert_eq!(p.linear_fee(0).basis_points, 1_000);
    assert_eq!(p.linear_fee(50 * LAMPORTS_PER_SOL).basis_points, 10);
    assert_eq!(p.linear_fee(60 * LAMPORTS_PER_SOL).basis_points, 10);
    assert_eq!(p.linear_fee(25 * LAMPORTS_PER_SOL).basis_points, 505);
}

#[test]
fn linear_fee_is_monotone_non_increasing() {
    let p = pool_with_fees(10, 1_000, 50 * LAMPORTS_PER_SOL);
    let mut last = p.linear_fee(0).basis_points;
    for i in 0..60 {
        let bp = p.linear_fee(i * LAMPORTS_PER_SOL).basis_points;
        assert!(bp <= last, "fee rose from {} to {} at {}", last, bp, i);
        last = bp;
    }
}

#[test]
fn fee_delta_saturates() {
    let p = pool_with_fees(10, 1_000, 50 * LAMPORTS_PER_SOL);
    assert_eq!(p.delta(), 990);
    let q = pool_with_fees(20, 10, 50 * LAMPORTS_PER_SOL);
    assert_eq!(q.delta(), 0);
}

#[test]
fn liquidity_cap_is_enforced() {
    let mut p = pool_with_fees(10, 1_000, 50 * LAMPORTS_PER_SOL);
    p.liquidity_sol_cap = 1_000;
    assert_eq!(p.check_liquidity_cap(400, 600), Ok(()));
    assert_eq!(
        p.check_liquidity_cap(401, 600),
        Err(StakingError::LiquidityIsCapped)
    );
    assert_eq!(
        p.check_liquidity_cap(u64::MAX, 1),
        Err(StakingError::MathOverflow)
    );
}

#[test]
fn lp_supply_tracking() {
    let mut p = pool_with_fees(10, 1_000, 50 * LAMPORTS_PER_SOL);
    assert_eq!(p.on_lp_mint(500), Ok(()));
    assert_eq!(p.lp_supply, 500);
    assert_eq!(p.on_lp_burn(200), Ok(()));
    assert_eq!(p.lp_supply, 300);
    assert_eq!(p.on_lp_burn(301), Err(StakingError::MathOverflow));
    assert_eq!(p.lp_supply, 300);
    assert_eq!(p.on_lp_mint(u64::MAX), Err(StakingError::MathOverflow));
    assert_eq!(p.lp_supply, 300);
}
