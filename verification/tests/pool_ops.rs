use easy_stake::error::StakingError;
use easy_stake::pubkey::Pubkey;
use easy_stake::state::fee::Fee;
use easy_stake::state::liq_pool::LAMPORTS_PER_SOL;
use easy_stake::state::{
    InitializeAccounts, InitializeBumps, InitializeData, LiqPoolInitializeData, StakePoolConfig,
    PRICE_DENOMINATOR,
};

fn key(n: u128) -> Pubkey {
    Pubkey { hi: n, lo: n + 17 }
}

fn init_data() -> InitializeData {
    InitializeData {
        admin_authority: key(1),
        validator_manager_authority: key(2),
        min_stake: LAMPORTS_PER_SOL / 100,
        rewards_fee: Fee::from_basis_points(500),
        liq_pool: LiqPoolInitializeData {
            lp_liquidity_target: 50 * LAMPORTS_PER_SOL,
            lp_max_fee: Fee::from_basis_points(1_000),
            lp_min_fee: Fee::from_basis_points(10),
            lp_treasury_cut: Fee::from_basis_points(2_500),
        },
        additional_stake_record_space: 0,
        additional_validator_record_space: 0,
        slots_for_stake_delta: 3_000,
        pause_authority: key(3),
    }
}

fn init_accounts() -> InitializeAccounts {
    InitializeAccounts {
        msol_mint: key(10),
        operational_sol_account: key(11),
        treasury_msol_account: key(12),
        lp_mint: key(13),
        msol_leg: key(14),
        stake_list_account: key(15),
        validator_list_account: key(16),
    }
}

fn init_bumps() -> InitializeBumps {
    InitializeBumps {
        reserve_pda: 255,
        msol_mint_authority: 254,
        lp_mint_authority: 253,
        sol_leg_pda: 252,
        msol_leg_authority: 251,
        stake_deposit: 250,
        stake_withdraw: 249,
    }
}

fn make_pool() -> StakePoolConfig {
    StakePoolConfig::new(init_data(), init_accounts(), init_bumps(), 0).unwrap()
}

#[test]
fn initialization_sets_the_documented_defaults() {
    let pool = make_pool();
    assert_eq!(pool.available_reserve_balance, 0);
    assert_eq!(pool.msol_supply, 0);
    assert_eq!(pool.msol_price, PRICE_DENOMINATOR);
    assert_eq!(pool.min_deposit, 1);
    assert_eq!(pool.min_withdraw, 1);
    assert_eq!(pool.staking_sol_cap, u64::MAX);
    assert!(!pool.paused);
    assert_eq!(pool.liq_pool.lp_supply, 0);
    assert_eq!(pool.liq_pool.liquidity_sol_cap, u64::MAX);
    assert_eq!(pool.validator_system.total_validator_score, 0);
    assert_eq!(pool.validator_system.total_active_balance, 0);
    assert_eq!(pool.stake_system.last_stake_delta_epoch, u64::MAX);
    assert_eq!(pool.stake_system.extra_stake_delta_runs, 0);
}

#[test]
fn initialization_rejects_bad_configuration() {
    let mut data = init_data();
    data.rewards_fee = Fee::from_basis_points(1_001);
    assert_eq!(
        StakePoolConfig::new(data, init_accounts(), init_bumps(), 0).err(),
        Some(StakingError::RewardsFeeIsTooHigh)
    );

    data = init_data();
    data.slots_for_stake_delta = 2_999;
    assert_eq!(
        StakePoolConfig::new(data, init_accounts(), init_bumps(), 0).err(),
        Some(StakingError::UpdateWindowIsTooLow)
    );

    data = init_data();
    data.min_stake = LAMPORTS_PER_SOL / 100 - 1;
    assert_eq!(
        StakePoolConfig::new(data, init_accounts(), init_bumps(), 0).err(),
        Some(StakingError::MinStakeIsTooLow)
    );

    data = init_data();
    data.liq_pool.lp_min_fee = Fee::from_basis_points(1_001);
    assert_eq!(
        StakePoolConfig::new(data, init_accounts(), init_bumps(), 0).err(),
        Some(StakingError::LpFeesAreWrongWayRound)
    );
}

#[test]
fn deposit_is_gated() {
    let mut pool = make_pool();
    pool.paused = true;
    assert_eq!(
        pool.deposit(100, 1_000, 0, 0),
        Err(StakingError::ProgramIsPaused)
    );
    pool.paused = false;
    pool.min_deposit = 100;
    assert_eq!(
        pool.deposit(99, 1_000, 0, 0),
        Err(StakingError::DepositAmountIsTooLow)
    );
    assert_eq!(
        pool.deposit(100, 99, 0, 0),
        Err(StakingError::NotEnoughUserFunds)
    );
    // observing more derivative tokens than the pool minted is an exploit
    assert_eq!(
        pool.deposit(100, 1_000, 5, 0),
        Err(StakingError::UnregisteredMsolMinted)
    );
    assert_eq!(pool.available_reserve_balance, 0);
    assert_eq!(pool.msol_supply, 0);
}

#[test]
fn deposit_swaps_against_the_derivative_leg_first() {
    let mut pool = make_pool();
    // one-to-one exchange rate: 100 staked, 100 derivative tokens out
    pool.available_reserve_balance = 100;
    pool.msol_supply = 100;

    let plan = pool.deposit(10, 1_000, 100, 4).unwrap();
    assert_eq!(plan.msol_swapped, 4);
    assert_eq!(plan.sol_swapped, 4);
    assert_eq!(plan.sol_deposited, 6);
    assert_eq!(plan.msol_minted, 6);
    assert_eq!(pool.available_reserve_balance, 106);
    assert_eq!(pool.msol_supply, 106);
}

#[test]
fn deposit_covered_fully_by_the_leg_mints_nothing() {
    let mut pool = make_pool();
    pool.available_reserve_balance = 100;
    pool.msol_supply = 100;

    let plan = pool.deposit(10, 1_000, 100, 50).unwrap();
    assert_eq!(plan.msol_swapped, 10);
    assert_eq!(plan.sol_swapped, 10);
    assert_eq!(plan.sol_deposited, 0);
    assert_eq!(plan.msol_minted, 0);
    assert_eq!(pool.available_reserve_balance, 100);
    assert_eq!(pool.msol_supply, 100);
}

#[test]
fn deposit_into_a_valueless_pool_uses_the_bootstrap_rate() {
    let mut pool = make_pool();
    // supply outstanding but nothing of value behind it: with no rate
    // defined, amounts pass through unchanged, and leg tokens convert
    // back to nothing
    pool.msol_supply = 100;

    let plan = pool.deposit(10, 1_000, 100, 4).unwrap();
    assert_eq!(plan.msol_swapped, 4);
    assert_eq!(plan.sol_swapped, 0);
    assert_eq!(plan.sol_deposited, 10);
    assert_eq!(plan.msol_minted, 6);
    assert_eq!(pool.available_reserve_balance, 10);
    assert_eq!(pool.msol_supply, 106);
}

#[test]
fn deposit_respects_the_staking_cap() {
    let mut pool = make_pool();
    pool.available_reserve_balance = 100;
    pool.msol_supply = 100;
    pool.staking_sol_cap = 105;
    assert_eq!(
        pool.deposit(10, 1_000, 100, 0),
        Err(StakingError::StakingIsCapped)
    );
    assert_eq!(pool.available_reserve_balance, 100);
    assert_eq!(pool.msol_supply, 100);
}

#[test]
fn unstake_charges_the_curve_fee() {
    let mut pool = make_pool();
    // two lamports of value behind every derivative token
    pool.available_reserve_balance = 20 * LAMPORTS_PER_SOL;
    pool.msol_supply = 10 * LAMPORTS_PER_SOL;

    let plan = pool.unstake(LAMPORTS_PER_SOL, 5 * LAMPORTS_PER_SOL).unwrap();
    // leg left with 3 whole tokens of 50 targeted: fee 941bp
    assert_eq!(plan.msol_fee, 94_100_000);
    assert_eq!(plan.sol_to_user, 1_811_800_000);
    assert_eq!(plan.treasury_msol_cut, 23_525_000);
    assert_eq!(plan.msol_to_liq_pool, 976_475_000);
    // an instant exit is a swap: tracked supply and reserve stay put
    assert_eq!(pool.msol_supply, 10 * LAMPORTS_PER_SOL);
    assert_eq!(pool.available_reserve_balance, 20 * LAMPORTS_PER_SOL);
}

#[test]
fn unstake_needs_liquidity_and_a_worthwhile_amount() {
    let mut pool = make_pool();
    pool.available_reserve_balance = 20 * LAMPORTS_PER_SOL;
    pool.msol_supply = 10 * LAMPORTS_PER_SOL;

    assert_eq!(
        pool.unstake(3 * LAMPORTS_PER_SOL, 5 * LAMPORTS_PER_SOL),
        Err(StakingError::InsufficientLiquidity)
    );

    pool.min_withdraw = 10 * LAMPORTS_PER_SOL;
    assert_eq!(
        pool.unstake(LAMPORTS_PER_SOL, 5 * LAMPORTS_PER_SOL),
        Err(StakingError::WithdrawAmountIsTooLow)
    );

    pool.paused = true;
    assert_eq!(
        pool.unstake(LAMPORTS_PER_SOL, 5 * LAMPORTS_PER_SOL),
        Err(StakingError::ProgramIsPaused)
    );
}

#[test]
fn liquidity_enters_at_pool_share_value() {
    let mut pool = make_pool();
    // first provider gets shares one to one
    assert_eq!(pool.add_liquidity(2_000, 10_000, 0, 0, 0), Ok(2_000));
    assert_eq!(pool.liq_pool.lp_supply, 2_000);
    // second provider pays the pool's full value per share
    assert_eq!(pool.add_liquidity(1_000, 10_000, 2_000, 2_000, 0), Ok(1_000));
    assert_eq!(pool.liq_pool.lp_supply, 3_000);
}

#[test]
fn liquidity_additions_are_gated() {
    let mut pool = make_pool();
    pool.liq_pool.lp_supply = 2_000;
    assert_eq!(
        pool.add_liquidity(1_000, 10_000, 2_001, 0, 0),
        Err(StakingError::UnregisteredLPMinted)
    );
    pool.liq_pool.liquidity_sol_cap = 1_500;
    assert_eq!(
        pool.add_liquidity(1_000, 10_000, 2_000, 600, 0),
        Err(StakingError::LiquidityIsCapped)
    );
    assert_eq!(
        pool.add_liquidity(1_000, 500, 2_000, 0, 0),
        Err(StakingError::NotEnoughUserFunds)
    );
    assert_eq!(pool.liq_pool.lp_supply, 2_000);
}

#[test]
fn removing_liquidity_pays_a_slice_of_both_legs() {
    let mut pool = make_pool();
    pool.liq_pool.lp_supply = 2_000;
    let plan = pool.remove_liquidity(1_000, 1_000, 4_000, 600, 2_000).unwrap();
    assert_eq!(plan.sol_out_amount, 2_000);
    assert_eq!(plan.msol_out_amount, 300);
    assert_eq!(pool.liq_pool.lp_supply, 1_000);
}

#[test]
fn removing_liquidity_below_the_minimum_is_refused() {
    let mut pool = make_pool();
    pool.liq_pool.lp_supply = 2_000;
    pool.min_withdraw = 10_000;
    assert_eq!(
        pool.remove_liquidity(1_000, 1_000, 4_000, 600, 2_000),
        Err(StakingError::WithdrawAmountIsTooLow)
    );
    assert_eq!(pool.liq_pool.lp_supply, 2_000);
}

#[test]
fn removing_liquidity_detects_unregistered_minting() {
    let mut pool = make_pool();
    pool.liq_pool.lp_supply = 2_000;
    assert_eq!(
        pool.remove_liquidity(1_000, 1_000, 4_000, 600, 3_000),
        Err(StakingError::UnauthorizedOrExploitedLPMinting)
    );
    assert_eq!(pool.liq_pool.lp_supply, 2_000);
}

#[test]
fn score_updates_move_the_total_once() {
    let mut pool = make_pool();
    let region = 8 + 4 * 53;
    pool.add_validator(region, key(100), 30, 200).unwrap();
    pool.add_validator(region, key(101), 70, 201).unwrap();
    assert_eq!(pool.set_validator_score(0, key(100), 50), Ok(30));
    assert_eq!(pool.validator_system.total_validator_score, 120);
    assert_eq!(pool.validator_system.get(0).unwrap().score, 50);
    assert_eq!(
        pool.set_validator_score(0, key(101), 50),
        Err(StakingError::WrongValidatorAccountOrIndex)
    );
}

#[test]
fn validators_leave_only_balanceless_and_named() {
    let mut pool = make_pool();
    let region = 8 + 4 * 53;
    pool.add_validator(region, key(100), 30, 200).unwrap();
    pool.add_validator(region, key(101), 70, 201).unwrap();
    assert_eq!(
        pool.remove_validator(0, key(101)).err(),
        Some(StakingError::WrongValidatorAccountOrIndex)
    );
    let removed = pool.remove_validator(0, key(100)).unwrap();
    assert_eq!(removed.validator_account, key(100));
    assert_eq!(pool.validator_system.total_validator_score, 70);
    assert_eq!(pool.validator_system.validator_list.count, 1);
}
