use easy_stake::error::StakingError;
use easy_stake::pubkey::Pubkey;
use easy_stake::state::fee::Fee;
use easy_stake::state::liq_pool::LAMPORTS_PER_SOL;
use easy_stake::state::validator_system::VALIDATOR_RECORD_LEN;
use easy_stake::state::stake_system::STAKE_RECORD_LEN;
use easy_stake::state::{
    InitializeAccounts, InitializeBumps, InitializeData, LiqPoolInitializeData, StakePoolConfig,
    StakeReservePlan,
};

fn account(n: u128) -> Pubkey {
    Pubkey { hi: 3 * n, lo: n + 5 }
}

fn scenario_pool() -> StakePoolConfig {
    let data = InitializeData {
        admin_authority: account(1),
        validator_manager_authority: account(2),
        min_stake: LAMPORTS_PER_SOL / 100,
        rewards_fee: Fee::from_basis_points(500),
        liq_pool: LiqPoolInitializeData {
            lp_liquidity_target: 50 * LAMPORTS_PER_SOL,
            lp_max_fee: Fee::from_basis_points(1_000),
            lp_min_fee: Fee::from_basis_points(10),
            lp_treasury_cut: Fee::from_basis_points(2_500),
        },
        additional_stake_record_space: 0,
        additional_validator_record_space: 0,
        slots_for_stake_delta: 3_000,
        pause_authority: account(3),
    };
    let accounts = InitializeAccounts {
        msol_mint: account(10),
        operational_sol_account: account(11),
        treasury_msol_account: account(12),
        lp_mint: account(13),
        msol_leg: account(14),
        stake_list_account: account(15),
        validator_list_account: account(16),
    };
    let bumps = InitializeBumps {
        reserve_pda: 255,
        msol_mint_authority: 254,
        lp_mint_authority: 253,
        sol_leg_pda: 252,
        msol_leg_authority: 251,
        stake_deposit: 250,
        stake_withdraw: 249,
    };
    StakePoolConfig::new(data, accounts, bumps, 0).unwrap()
}

#[test]
fn first_depositor_gets_value_for_value() {
    let mut pool = scenario_pool();
    let v = 10 * LAMPORTS_PER_SOL;
    let plan = pool.deposit(v, 100 * LAMPORTS_PER_SOL, 0, 0).unwrap();
    assert_eq!(plan.msol_minted, v);
    assert_eq!(plan.sol_deposited, v);
    assert_eq!(plan.sol_swapped, 0);
    assert_eq!(plan.msol_swapped, 0);
    assert_eq!(pool.msol_supply, v);
    assert_eq!(pool.available_reserve_balance, v);
}

#[test]
fn second_depositor_pays_the_appreciated_price() {
    let mut pool = scenario_pool();
    let v = 10 * LAMPORTS_PER_SOL;
    pool.deposit(v, 100 * LAMPORTS_PER_SOL, 0, 0).unwrap();
    // rewards accrue: the pool now holds 2V of value behind V shares
    pool.available_reserve_balance += v;
    let plan = pool.deposit(v, 100 * LAMPORTS_PER_SOL, v, 0).unwrap();
    assert_eq!(plan.msol_minted, v / 2);
    assert_eq!(pool.msol_supply, v + v / 2);
}

#[test]
fn stake_reserve_delegates_the_scored_share() {
    let mut pool = scenario_pool();
    let validator_region = 8 + 4 * VALIDATOR_RECORD_LEN as usize;
    let stake_region = 8 + 4 * STAKE_RECORD_LEN as usize;
    pool.add_validator(validator_region, account(100), 30, 200)
        .unwrap();
    pool.add_validator(validator_region, account(101), 70, 201)
        .unwrap();
    pool.deposit(100 * LAMPORTS_PER_SOL, 200 * LAMPORTS_PER_SOL, 0, 0)
        .unwrap();

    // the whole surplus is 100 whole tokens; the 30-score validator's
    // target is exactly 30 of them
    let plan = pool
        .stake_reserve(
            0,
            account(100),
            account(500),
            100 * LAMPORTS_PER_SOL,
            7,
            9_000,
            10_000,
            stake_region,
        )
        .unwrap();
    assert_eq!(
        plan,
        StakeReservePlan::Delegate { amount: 30 * LAMPORTS_PER_SOL }
    );
    let v0 = pool.validator_system.get(0).unwrap();
    assert_eq!(v0.active_balance, 30 * LAMPORTS_PER_SOL);
    assert_eq!(v0.last_stake_delta_epoch, 7);
    assert_eq!(
        pool.validator_system.total_active_balance,
        30 * LAMPORTS_PER_SOL
    );
    assert_eq!(pool.available_reserve_balance, 70 * LAMPORTS_PER_SOL);
    let stake_record = pool.stake_system.get(0).unwrap();
    assert_eq!(stake_record.stake_account, account(500));
    assert_eq!(
        stake_record.last_update_delegated_lamports,
        30 * LAMPORTS_PER_SOL
    );
    assert_eq!(pool.stake_system.last_stake_delta_epoch, 7);

    // running the same validator again in the same epoch has no budget
    // for a repeat: skip without error, touch nothing
    let again = pool
        .stake_reserve(
            0,
            account(100),
            account(501),
            70 * LAMPORTS_PER_SOL,
            7,
            9_000,
            10_000,
            stake_region,
        )
        .unwrap();
    assert_eq!(again, StakeReservePlan::ReturnRent);
    assert_eq!(
        pool.validator_system.get(0).unwrap().active_balance,
        30 * LAMPORTS_PER_SOL
    );

    // a validator that carries stake cannot leave the registry
    assert_eq!(
        pool.remove_validator(0, account(100)).err(),
        Some(StakingError::RemovingValidatorWithBalance)
    );

    // the 70-score validator takes its share of what is left
    let second = pool
        .stake_reserve(
            1,
            account(101),
            account(502),
            70 * LAMPORTS_PER_SOL,
            7,
            9_000,
            10_000,
            stake_region,
        )
        .unwrap();
    assert_eq!(
        second,
        StakeReservePlan::Delegate { amount: 49 * LAMPORTS_PER_SOL }
    );
    assert_eq!(
        pool.validator_system.total_active_balance,
        79 * LAMPORTS_PER_SOL
    );
    assert_eq!(pool.available_reserve_balance, 21 * LAMPORTS_PER_SOL);
}

#[test]
fn stake_reserve_respects_window_and_surplus() {
    let mut pool = scenario_pool();
    let validator_region = 8 + 4 * VALIDATOR_RECORD_LEN as usize;
    let stake_region = 8 + 4 * STAKE_RECORD_LEN as usize;
    pool.add_validator(validator_region, account(100), 30, 200)
        .unwrap();
    pool.deposit(100 * LAMPORTS_PER_SOL, 200 * LAMPORTS_PER_SOL, 0, 0)
        .unwrap();

    // no surplus in the reserve: nothing to do at all
    let idle = pool
        .stake_reserve(0, account(100), account(500), 0, 7, 9_000, 10_000, stake_region)
        .unwrap();
    assert_eq!(idle, StakeReservePlan::NoDelta);

    // too early in the epoch for a delta run
    assert_eq!(
        pool.stake_reserve(
            0,
            account(100),
            account(500),
            100 * LAMPORTS_PER_SOL,
            7,
            1_000,
            10_000,
            stake_region,
        ),
        Err(StakingError::TooEarlyForStakeDelta)
    );

    // a movable amount below the minimum stake is skipped, not an error
    let dust = pool
        .stake_reserve(
            0,
            account(100),
            account(500),
            LAMPORTS_PER_SOL / 1_000,
            7,
            9_000,
            10_000,
            stake_region,
        )
        .unwrap();
    assert_eq!(dust, StakeReservePlan::ReturnRent);
    assert_eq!(pool.validator_system.total_active_balance, 0);
}

#[test]
fn stake_reserve_snaps_small_remainders_up() {
    let mut pool = scenario_pool();
    let validator_region = 8 + 4 * VALIDATOR_RECORD_LEN as usize;
    let stake_region = 8 + 4 * STAKE_RECORD_LEN as usize;
    pool.add_validator(validator_region, account(100), 999, 200)
        .unwrap();
    pool.add_validator(validator_region, account(101), 1, 201)
        .unwrap();
    pool.deposit(LAMPORTS_PER_SOL, 2 * LAMPORTS_PER_SOL, 0, 0)
        .unwrap();

    // the 999-score validator's target leaves a remainder below the
    // minimum stake, so the whole surplus moves at once
    let plan = pool
        .stake_reserve(
            0,
            account(100),
            account(500),
            LAMPORTS_PER_SOL,
            7,
            9_000,
            10_000,
            stake_region,
        )
        .unwrap();
    assert_eq!(plan, StakeReservePlan::Delegate { amount: LAMPORTS_PER_SOL });
    assert_eq!(pool.available_reserve_balance, 0);
}
