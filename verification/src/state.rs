//! The pool-wide configuration record.
//!
//! `StakePoolConfig` is the single aggregate the whole pool lives in: it
//! owns the validator registry, the stake ledger and the liquidity pool,
//! and carries the pool-wide totals — derivative supply, available
//! reserve, caps and minimums.  Its methods are the computation cores of
//! the pool's operations: they take the host-observed balances as plain
//! values, decide every amount to move, mutate the tracked state, and
//! hand back a plan for the host to execute.  Each operation either
//! returns `Ok` with the full mutation applied or an error with nothing
//! changed.

pub mod fee;
pub mod liq_pool;
pub mod list;
pub mod stake_system;
pub mod validator_system;

pub use fee::Fee;
pub use liq_pool::LiqPool;
pub use stake_system::StakeSystem;
pub use validator_system::ValidatorSystem;

use vstd::prelude::*;

use crate::calc::{
    shares_from_value, shares_from_value_spec, value_from_shares, value_from_shares_spec,
};
use crate::error::StakingError;
use crate::pubkey::Pubkey;
use liq_pool::LAMPORTS_PER_SOL;
use validator_system::ValidatorRecord;

verus! {

/// Denominator of the displayed derivative price.
pub const PRICE_DENOMINATOR: u64 = 0x1_0000_0000;

/// Highest configurable reward fee, in basis points.
pub const MAX_REWARD_FEE_BASIS_POINTS: u32 = 1_000;

/// Largest single withdrawal atom: a tenth of a whole native token.
pub const MAX_WITHDRAW_ATOM: u64 = LAMPORTS_PER_SOL / 10;

/// Floor for the configurable minimum stake: a hundredth of a whole
/// native token.
pub const MIN_STAKE_LOWER_LIMIT: u64 = LAMPORTS_PER_SOL / 100;

pub struct StakePoolConfig {
    /// Mint of the derivative receipt token.
    pub msol_mint: Pubkey,
    /// Authority allowed to change pool parameters.
    pub admin_authority: Pubkey,
    /// Account paying and receiving operational native asset.
    pub operational_sol_account: Pubkey,
    /// Treasury account collecting derivative-token fees.
    pub treasury_msol_account: Pubkey,
    /// Bump seed of the reserve account.
    pub reserve_bump_seed: u8,
    /// Bump seed of the derivative-mint authority.
    pub msol_mint_authority_bump_seed: u8,
    /// Rent-exempt minimum balance of a token account, in lamports.
    pub rent_exempt_for_token_acc: u64,
    /// Protocol cut of staking rewards.
    pub reward_fee: Fee,
    /// The stake allocation ledger.
    pub stake_system: StakeSystem,
    /// The validator registry.
    pub validator_system: ValidatorSystem,
    /// The instant-exit liquidity pool.
    pub liq_pool: LiqPool,
    /// Reserve lamports available for staking.
    pub available_reserve_balance: u64,
    /// Derivative tokens minted, as tracked internally.
    pub msol_supply: u64,
    /// Cached derivative price, for display only.
    pub msol_price: u64,
    /// Smallest accepted deposit, in lamports.
    pub min_deposit: u64,
    /// Smallest accepted withdrawal, in lamports.
    pub min_withdraw: u64,
    /// Hard cap on total staked value, in lamports.
    pub staking_sol_cap: u64,
    /// Authority allowed to pause the pool.
    pub pause_authority: Pubkey,
    /// While set, every mutating operation is refused.
    pub paused: bool,
    /// Last epoch in which stake was moved.
    pub last_stake_move_epoch: u64,
    /// Stake moved within the current epoch, in lamports.
    pub stake_moved: u64,
    /// Cap on stake moved per epoch, as a ratio of the total.
    pub max_stake_moved_per_epoch: Fee,
}

/// Configuration parameters of the liquidity pool at initialization.
#[derive(Clone, Copy, Debug, PartialEq, Eq, Structural)]
pub struct LiqPoolInitializeData {
    /// Native-leg balance the pool aims to keep, in lamports.
    pub lp_liquidity_target: u64,
    /// Exit fee when the native leg is empty.
    pub lp_max_fee: Fee,
    /// Exit fee at or above the liquidity target.
    pub lp_min_fee: Fee,
    /// Share of each exit fee diverted to the treasury.
    pub lp_treasury_cut: Fee,
}

/// Configuration parameters of the pool at initialization.
#[derive(Clone, Copy, Debug, PartialEq, Eq, Structural)]
pub struct InitializeData {
    /// Authority allowed to change pool parameters.
    pub admin_authority: Pubkey,
    /// Authority allowed to manage the validator registry.
    pub validator_manager_authority: Pubkey,
    /// Smallest delegation worth creating or topping up, in lamports.
    pub min_stake: u64,
    /// Protocol cut of staking rewards.
    pub rewards_fee: Fee,
    /// Liquidity-pool parameters.
    pub liq_pool: LiqPoolInitializeData,
    /// Extra bytes reserved per stake record.
    pub additional_stake_record_space: u32,
    /// Extra bytes reserved per validator record.
    pub additional_validator_record_space: u32,
    /// Width, in slots, of the end-of-epoch window for stake deltas.
    pub slots_for_stake_delta: u64,
    /// Authority allowed to pause the pool.
    pub pause_authority: Pubkey,
}

/// Addresses of the accounts a fresh pool is wired to.
#[derive(Clone, Copy, Debug, PartialEq, Eq, Structural)]
pub struct InitializeAccounts {
    /// Mint of the derivative receipt token.
    pub msol_mint: Pubkey,
    /// Account paying and receiving operational native asset.
    pub operational_sol_account: Pubkey,
    /// Treasury account collecting derivative-token fees.
    pub treasury_msol_account: Pubkey,
    /// Mint of the pool-share token.
    pub lp_mint: Pubkey,
    /// Account holding the derivative leg of the liquidity pool.
    pub msol_leg: Pubkey,
    /// Region backing the stake ledger.
    pub stake_list_account: Pubkey,
    /// Region backing the validator registry.
    pub validator_list_account: Pubkey,
}

/// Bump seeds of the pool's derived authorities, found by the host.
#[derive(Clone, Copy, Debug, PartialEq, Eq, Structural)]
pub struct InitializeBumps {
    pub reserve_pda: u8,
    pub msol_mint_authority: u8,
    pub lp_mint_authority: u8,
    pub sol_leg_pda: u8,
    pub msol_leg_authority: u8,
    pub stake_deposit: u8,
    pub stake_withdraw: u8,
}

/// Amounts a deposit moves, for the host to execute.  The deposited
/// native asset is first swapped against the liquidity pool's derivative
/// leg as far as that leg reaches; the remainder enters the reserve and
/// is paid out in freshly minted derivative tokens.
#[derive(Clone, Copy, Debug, PartialEq, Eq, Structural)]
pub struct DepositPlan {
    /// Native asset going to the liquidity pool's native leg.
    pub sol_swapped: u64,
    /// Derivative tokens leaving the liquidity pool's derivative leg.
    pub msol_swapped: u64,
    /// Native asset entering the reserve.
    pub sol_deposited: u64,
    /// Derivative tokens freshly minted for the depositor.
    pub msol_minted: u64,
}

/// Outcome of a deposit of `lamports`, decided against the pool state and
/// the host-observed balances: the derivative mint's outside supply and
/// the liquidity pool's derivative leg.
pub open spec fn deposit_result(
    pool: StakePoolConfig,
    lamports: u64,
    user_sol_balance: u64,
    msol_mint_supply: u64,
    msol_leg_balance: u64,
) -> Result<DepositPlan, StakingError> {
    let total = pool.total_staked_spec();
    let order = pool.msol_from_lamports_spec(lamports as int);
    if pool.paused {
        Err(StakingError::ProgramIsPaused)
    } else if lamports < pool.min_deposit {
        Err(StakingError::DepositAmountIsTooLow)
    } else if user_sol_balance < lamports {
        Err(StakingError::NotEnoughUserFunds)
    } else if msol_mint_supply > pool.msol_supply {
        Err(StakingError::UnregisteredMsolMinted)
    } else if order > u64::MAX {
        Err(StakingError::CalculationFailure)
    } else {
        let msol_swapped = vstd::math::min(order, msol_leg_balance as int);
        let sol_swapped = if msol_swapped > 0 {
            if order == msol_swapped {
                lamports as int
            } else {
                pool.sol_from_msol_spec(msol_swapped)
            }
        } else {
            0
        };
        let sol_deposited = lamports - sol_swapped;
        let msol_minted = order - msol_swapped;
        if sol_deposited > 0 && total + sol_deposited > u64::MAX {
            Err(StakingError::MathOverflow)
        } else if sol_deposited > 0 && total + sol_deposited > pool.staking_sol_cap {
            Err(StakingError::StakingIsCapped)
        } else if pool.msol_supply + msol_minted > u64::MAX {
            Err(StakingError::MathOverflow)
        } else {
            Ok(
                (DepositPlan {
                    sol_swapped: sol_swapped as u64,
                    msol_swapped: msol_swapped as u64,
                    sol_deposited: sol_deposited as u64,
                    msol_minted: msol_minted as u64,
                }),
            )
        }
    }
}

/// A deposit never lowers the pool's exchange rate: afterwards every
/// derivative token is backed by at least as much value as before,
/// stated by cross-multiplication so that no division is needed.  The
/// only state left out is the degenerate one where tokens' value exists
/// with no supply behind it (`msol_supply == 0` yet staked value
/// present): there the next depositor absorbs the orphaned value.
pub proof fn lemma_deposit_never_dilutes(
    pool: StakePoolConfig,
    lamports: u64,
    user_sol_balance: u64,
    msol_mint_supply: u64,
    msol_leg_balance: u64,
)
    requires
        pool.msol_supply > 0 || pool.total_staked_spec() == 0,
        deposit_result(pool, lamports, user_sol_balance, msol_mint_supply, msol_leg_balance)
            is Ok,
    ensures
        ({
            let plan = deposit_result(
                pool,
                lamports,
                user_sol_balance,
                msol_mint_supply,
                msol_leg_balance,
            )->Ok_0;
            (pool.total_staked_spec() + plan.sol_deposited) * (pool.msol_supply as int)
                >= pool.total_staked_spec() * (pool.msol_supply + plan.msol_minted)
        }),
{
    let t = pool.total_staked_spec();
    let s = pool.msol_supply as int;
    let plan = deposit_result(
        pool,
        lamports,
        user_sol_balance,
        msol_mint_supply,
        msol_leg_balance,
    )->Ok_0;
    let order = shares_from_value_spec(lamports as int, t, s);
    let swapped = vstd::math::min(order, msol_leg_balance as int);
    let sol_swapped: int = if swapped > 0 {
        if order == swapped {
            lamports as int
        } else {
            value_from_shares_spec(swapped, t, s)
        }
    } else {
        0
    };
    let d = lamports - sol_swapped;
    let m = order - swapped;
    crate::calc::lemma_buy_order_value_bound(lamports as int, t, s, swapped);
    if s > 0 && t > 0 {
        vstd::arithmetic::mul::lemma_mul_nonnegative(swapped, t);
        vstd::arithmetic::div_mod::lemma_div_pos_is_pos(swapped * t, s);
    }
    assert(plan.sol_deposited == d);
    assert(plan.msol_minted == m);
    if s == 0 {
        assert((t + d) * s == 0) by (nonlinear_arith)
            requires
                s == 0,
        ;
        assert(t * (s + m) == 0) by (nonlinear_arith)
            requires
                t == 0,
        ;
    } else if t == 0 {
        assert(t * (s + m) == 0) by (nonlinear_arith)
            requires
                t == 0,
        ;
        assert((0 + d) * s >= 0) by (nonlinear_arith)
            requires
                d >= 0 && s >= 0,
        ;
    } else {
        // t > 0, s > 0: the buy order floors lamports * s / t
        vstd::arithmetic::div_mod::lemma_fundamental_div_mod(lamports * s, t);
        vstd::arithmetic::div_mod::lemma_mod_bound(lamports * s, t);
        assert(t * order <= lamports * s);
        if swapped == order {
            assert((t + d) * s >= t * (s + m)) by (nonlinear_arith)
                requires
                    m == 0 && d >= 0 && s >= 0 && t >= 0,
            ;
        } else if swapped == 0 {
            assert((t + d) * s >= t * (s + m)) by (nonlinear_arith)
                requires
                    d == lamports as int && m == order && t * order <= (lamports as int) * s,
            ;
        } else {
            // a partial swap converts the leg tokens back at a floor
            vstd::arithmetic::div_mod::lemma_fundamental_div_mod(swapped * t, s);
            vstd::arithmetic::div_mod::lemma_mod_bound(swapped * t, s);
            assert(s * sol_swapped <= swapped * t);
            assert((t + d) * s >= t * (s + m)) by (nonlinear_arith)
                requires
                    d == lamports - sol_swapped && m == order - swapped && t * order <= (
                    lamports as int) * s && s * sol_swapped <= swapped * t,
            ;
        }
    }
}

/// Amounts an instant exit moves, for the host to execute.  The exiting
/// holder's derivative tokens go to the liquidity pool (minus the
/// treasury's cut of the fee); native asset leaves the pool's native leg.
#[derive(Clone, Copy, Debug, PartialEq, Eq, Structural)]
pub struct UnstakePlan {
    /// Native asset paid out of the liquidity pool's native leg.
    pub sol_to_user: u64,
    /// Derivative tokens kept as the exit fee.
    pub msol_fee: u64,
    /// Portion of the fee diverted to the treasury.
    pub treasury_msol_cut: u64,
    /// Derivative tokens entering the liquidity pool's derivative leg.
    pub msol_to_liq_pool: u64,
}

/// Outcome of an instant exit of `msol_amount` derivative tokens against
/// the pool state and the observed native-leg balance.  The exit fee is
/// charged on the state the pool would be left in; it is the maximum fee
/// when the exit would drain the whole leg.
pub open spec fn unstake_result(
    pool: StakePoolConfig,
    msol_amount: u64,
    liq_pool_sol_balance: u64,
) -> Result<UnstakePlan, StakingError> {
    let available = if liq_pool_sol_balance >= pool.rent_exempt_for_token_acc {
        liq_pool_sol_balance - pool.rent_exempt_for_token_acc
    } else {
        0
    };
    let user_remove = pool.sol_from_msol_spec(msol_amount as int);
    if pool.paused {
        Err(StakingError::ProgramIsPaused)
    } else if user_remove > u64::MAX {
        Err(StakingError::CalculationFailure)
    } else {
        let fee_bp = if user_remove >= available {
            pool.liq_pool.lp_max_fee.basis_points as int
        } else {
            liq_pool::linear_fee_spec(
                pool.liq_pool.lp_max_fee.basis_points as int,
                pool.liq_pool.lp_min_fee.basis_points as int,
                pool.liq_pool.lp_liquidity_target as int,
                available - user_remove,
            )
        };
        let msol_fee = fee::fee_apply_spec(fee_bp, msol_amount as int);
        let working = pool.sol_from_msol_spec(msol_amount - msol_fee);
        if working < pool.min_withdraw {
            Err(StakingError::WithdrawAmountIsTooLow)
        } else if working + pool.rent_exempt_for_token_acc > liq_pool_sol_balance {
            Err(StakingError::InsufficientLiquidity)
        } else {
            let cut = fee::fee_apply_spec(
                pool.liq_pool.treasury_cut.basis_points as int,
                msol_fee,
            );
            Ok(
                (UnstakePlan {
                    sol_to_user: working as u64,
                    msol_fee: msol_fee as u64,
                    treasury_msol_cut: cut as u64,
                    msol_to_liq_pool: (msol_amount - cut) as u64,
                }),
            )
        }
    }
}

/// Outcome of adding `lamports` of native liquidity: the pool shares
/// minted for the provider.  Shares are priced against the pool's whole
/// value — the spendable part of the native leg plus the native value of
/// the derivative leg — after the internal share supply is synchronized
/// down to the outside mint's supply.
pub open spec fn add_liquidity_result(
    pool: StakePoolConfig,
    lamports: u64,
    user_sol_balance: u64,
    lp_mint_supply: u64,
    sol_leg_balance: u64,
    msol_leg_amount: u64,
) -> Result<u64, StakingError> {
    if pool.paused {
        Err(StakingError::ProgramIsPaused)
    } else if lamports < pool.min_deposit {
        Err(StakingError::DepositAmountIsTooLow)
    } else if lamports > user_sol_balance {
        Err(StakingError::NotEnoughUserFunds)
    } else if sol_leg_balance + lamports > u64::MAX {
        Err(StakingError::MathOverflow)
    } else if sol_leg_balance + lamports > pool.liq_pool.liquidity_sol_cap {
        Err(StakingError::LiquidityIsCapped)
    } else if lp_mint_supply > pool.liq_pool.lp_supply {
        Err(StakingError::UnregisteredLPMinted)
    } else if sol_leg_balance < pool.rent_exempt_for_token_acc {
        Err(StakingError::MathOverflow)
    } else {
        let msol_leg_value = pool.sol_from_msol_spec(msol_leg_amount as int);
        if msol_leg_value > u64::MAX {
            Err(StakingError::CalculationFailure)
        } else {
            let total_liq_pool_value = (sol_leg_balance - pool.rent_exempt_for_token_acc)
                + msol_leg_value;
            if total_liq_pool_value > u64::MAX {
                Err(StakingError::MathOverflow)
            } else {
                let shares = shares_from_value_spec(
                    lamports as int,
                    total_liq_pool_value,
                    lp_mint_supply as int,
                );
                if shares > u64::MAX {
                    Err(StakingError::CalculationFailure)
                } else if lp_mint_supply + shares > u64::MAX {
                    Err(StakingError::MathOverflow)
                } else {
                    Ok(shares as u64)
                }
            }
        }
    }
}

/// Amounts leaving the liquidity pool when shares are burnt.
#[derive(Clone, Copy, Debug, PartialEq, Eq, Structural)]
pub struct RemoveLiquidityPlan {
    /// Native asset paid out of the native leg.
    pub sol_out_amount: u64,
    /// Derivative tokens paid out of the derivative leg.
    pub msol_out_amount: u64,
}

/// Outcome of burning `tokens` pool shares: the provider's proportional
/// slice of each leg, after the internal share supply is synchronized
/// down to the outside mint's supply.
pub open spec fn remove_liquidity_result(
    pool: StakePoolConfig,
    tokens: u64,
    burn_from_amount: u64,
    sol_leg_balance: u64,
    msol_leg_balance: u64,
    lp_mint_supply: u64,
) -> Result<RemoveLiquidityPlan, StakingError> {
    if pool.paused {
        Err(StakingError::ProgramIsPaused)
    } else if tokens > burn_from_amount {
        Err(StakingError::NotEnoughUserFunds)
    } else if lp_mint_supply > pool.liq_pool.lp_supply {
        Err(StakingError::UnauthorizedOrExploitedLPMinting)
    } else if sol_leg_balance < pool.rent_exempt_for_token_acc {
        Err(StakingError::MathOverflow)
    } else {
        let sol_out = crate::calc::proportional_spec(
            tokens as int,
            sol_leg_balance - pool.rent_exempt_for_token_acc,
            lp_mint_supply as int,
        );
        let msol_out = crate::calc::proportional_spec(
            tokens as int,
            msol_leg_balance as int,
            lp_mint_supply as int,
        );
        if sol_out > u64::MAX {
            Err(StakingError::CalculationFailure)
        } else if msol_out > u64::MAX {
            Err(StakingError::CalculationFailure)
        } else {
            let msol_out_value = pool.sol_from_msol_spec(msol_out);
            if msol_out_value > u64::MAX {
                Err(StakingError::CalculationFailure)
            } else if sol_out + msol_out_value > u64::MAX {
                Err(StakingError::MathOverflow)
            } else if sol_out + msol_out_value < pool.min_withdraw {
                Err(StakingError::WithdrawAmountIsTooLow)
            } else if tokens > lp_mint_supply {
                Err(StakingError::MathOverflow)
            } else {
                Ok(
                    (RemoveLiquidityPlan {
                        sol_out_amount: sol_out as u64,
                        msol_out_amount: msol_out as u64,
                    }),
                )
            }
        }
    }
}

/// Decision of one stake-reserve run, for the host to execute.
#[derive(Clone, Copy, Debug, PartialEq, Eq, Structural)]
pub enum StakeReservePlan {
    /// The reserve holds no surplus: nothing to do at all.
    NoDelta,
    /// This validator gets nothing this run (already rebalanced this
    /// epoch with no budget left, already at its target, or the movable
    /// amount is below the minimum).  The host reclaims the rent of the
    /// stake account it pre-created.  Deliberately not an error, so a
    /// batch of rebalance instructions is not aborted.
    ReturnRent,
    /// Delegate `amount` lamports from the reserve to the validator
    /// through the pre-created stake account.
    Delegate { amount: u64 },
}

/// Decision of a stake-reserve run for the validator at
/// `validator_index`, against the pool state and the host-observed epoch,
/// slot and reserve balance.  The movable surplus is distributed by
/// score; a move is snapped up to the whole surplus when the remainder
/// would fall below the minimum stake, and dropped when the move itself
/// would.
pub open spec fn stake_reserve_result(
    pool: StakePoolConfig,
    validator_index: u32,
    validator_vote: Pubkey,
    reserve_balance: u64,
    epoch: u64,
    slot: u64,
    last_slot_in_epoch: u64,
    stake_list_len: usize,
) -> Result<StakeReservePlan, StakingError> {
    let delta = if reserve_balance >= pool.rent_exempt_for_token_acc {
        reserve_balance - pool.rent_exempt_for_token_acc
    } else {
        0
    };
    let window_start = if last_slot_in_epoch >= pool.stake_system.slots_for_stake_delta {
        last_slot_in_epoch - pool.stake_system.slots_for_stake_delta
    } else {
        0
    };
    if pool.paused {
        Err(StakingError::ProgramIsPaused)
    } else if delta == 0 {
        Ok(StakeReservePlan::NoDelta)
    } else if validator_index >= pool.validator_system.validator_list.count {
        Err(StakingError::ListIndexOutOfBounds)
    } else {
        let validator = pool.validator_system.validator_list@[validator_index as int];
        if validator.validator_account != validator_vote {
            Err(StakingError::WrongValidatorAccountOrIndex)
        } else if validator.last_stake_delta_epoch == epoch
            && pool.stake_system.extra_stake_delta_runs == 0 {
            Ok(StakeReservePlan::ReturnRent)
        } else if slot < window_start {
            Err(StakingError::TooEarlyForStakeDelta)
        } else {
            let target = crate::calc::proportional_spec(
                delta,
                validator.score as int,
                pool.validator_system.total_validator_score as int,
            );
            if validator.active_balance >= target {
                Ok(StakeReservePlan::ReturnRent)
            } else {
                let wanted = vstd::math::min(target - validator.active_balance, delta);
                let amount = if delta - wanted < pool.stake_system.min_stake {
                    delta
                } else {
                    wanted
                };
                if amount < pool.stake_system.min_stake {
                    Ok(StakeReservePlan::ReturnRent)
                } else if amount > pool.available_reserve_balance {
                    Err(StakingError::MathOverflow)
                } else if stake_list_len < list::HEADER_BYTES {
                    Err(StakingError::AccountDataTooSmall)
                } else if stake_list_len - list::HEADER_BYTES > u32::MAX {
                    Err(StakingError::CalculationFailure)
                } else if pool.stake_system.stake_list.count >= list::capacity_spec(
                    pool.stake_system.stake_list.item_size as int,
                    stake_list_len as int,
                ) {
                    Err(StakingError::ListOverflow)
                } else {
                    Ok(StakeReservePlan::Delegate { amount: amount as u64 })
                }
            }
        }
    }
}

/// The repeat-run budget after a stake-reserve run that reached a
/// rent-return or delegation: one unit is spent iff the validator had
/// already been rebalanced this epoch.
pub open spec fn spent_extra_runs(pool: StakePoolConfig, validator_index: u32, epoch: u64) -> u32 {
    if pool.validator_system.validator_list@[validator_index as int].last_stake_delta_epoch
        == epoch && pool.stake_system.extra_stake_delta_runs > 0 {
        (pool.stake_system.extra_stake_delta_runs - 1) as u32
    } else {
        pool.stake_system.extra_stake_delta_runs
    }
}

impl StakePoolConfig {
    /// Every subsystem invariant holds and the pool's total value fits
    /// the machine word.
    pub open spec fn wf(&self) -> bool {
        &&& self.stake_system.wf()
        &&& self.validator_system.wf()
        &&& self.liq_pool.wf()
        &&& self.reward_fee.is_valid()
        &&& self.total_staked_spec() <= u64::MAX
    }

    /// Everything the pool controls: the spendable reserve plus all stake
    /// delegated to validators.  The exchange rate is recomputed from this
    /// on every conversion, never cached.
    pub open spec fn total_staked_spec(&self) -> int {
        self.available_reserve_balance + self.validator_system.total_active_balance
    }

    /// Derivative tokens owed for `stake_lamports` of native value at the
    /// current exchange rate.
    pub open spec fn msol_from_lamports_spec(&self, stake_lamports: int) -> int {
        shares_from_value_spec(stake_lamports, self.total_staked_spec(), self.msol_supply as int)
    }

    /// Native value owed for `msol_amount` derivative tokens at the
    /// current exchange rate.
    pub open spec fn sol_from_msol_spec(&self, msol_amount: int) -> int {
        value_from_shares_spec(msol_amount, self.total_staked_spec(), self.msol_supply as int)
    }

    pub fn total_staked_lamports(&self) -> (r: u64)
        requires
            self.total_staked_spec() <= u64::MAX,
        ensures
            r == self.total_staked_spec(),
    {
        self.available_reserve_balance + self.validator_system.total_active_balance
    }

    pub fn calc_msol_from_lamports(&self, stake_lamports: u64) -> (r: Result<u64, StakingError>)
        requires
            self.total_staked_spec() <= u64::MAX,
        ensures
            r is Ok <==> self.msol_from_lamports_spec(stake_lamports as int) <= u64::MAX,
            r matches Ok(v) ==> v == self.msol_from_lamports_spec(stake_lamports as int),
            r is Err ==> r == Err::<u64, StakingError>(StakingError::CalculationFailure),
    {
        shares_from_value(stake_lamports, self.total_staked_lamports(), self.msol_supply)
    }

    pub fn msol_to_sol(&self, msol_amount: u64) -> (r: Result<u64, StakingError>)
        requires
            self.total_staked_spec() <= u64::MAX,
        ensures
            r is Ok <==> self.sol_from_msol_spec(msol_amount as int) <= u64::MAX,
            r matches Ok(v) ==> v == self.sol_from_msol_spec(msol_amount as int),
            r is Err ==> r == Err::<u64, StakingError>(StakingError::CalculationFailure),
    {
        value_from_shares(msol_amount, self.total_staked_lamports(), self.msol_supply)
    }

    /// Refuse a deposit that would push the total staked value past the
    /// staking cap.
    pub fn check_staking_cap(&self, transfering_lamports: u64) -> (r: Result<(), StakingError>)
        requires
            self.total_staked_spec() <= u64::MAX,
        ensures
            r is Ok <==> self.total_staked_spec() + transfering_lamports <= u64::MAX
                && self.total_staked_spec() + transfering_lamports <= self.staking_sol_cap,
            self.total_staked_spec() + transfering_lamports > u64::MAX ==> r == Err::<
                (),
                StakingError,
            >(StakingError::MathOverflow),
            self.total_staked_spec() + transfering_lamports <= u64::MAX
                && self.total_staked_spec() + transfering_lamports > self.staking_sol_cap ==> r
                == Err::<(), StakingError>(StakingError::StakingIsCapped),
    {
        let total = self.total_staked_lamports();
        let result_amount = match total.checked_add(transfering_lamports) {
            Some(n) => n,
            None => {
                return Err(StakingError::MathOverflow);
            },
        };
        if result_amount > self.staking_sol_cap {
            return Err(StakingError::StakingIsCapped);
        }
        Ok(())
    }

    /// Account for native asset that entered the reserve.
    pub fn on_transfer_to_reserve(&mut self, amount: u64) -> (r: Result<(), StakingError>)
        ensures
            r is Ok <==> old(self).available_reserve_balance + amount <= u64::MAX,
            r is Ok ==> *final(self) == (StakePoolConfig {
                available_reserve_balance: (old(self).available_reserve_balance + amount) as u64,
                ..*old(self)
            }),
            r is Err ==> *final(self) == *old(self) && r == Err::<(), StakingError>(
                StakingError::MathOverflow,
            ),
    {
        match self.available_reserve_balance.checked_add(amount) {
            Some(n) => {
                self.available_reserve_balance = n;
                Ok(())
            },
            None => Err(StakingError::MathOverflow),
        }
    }

    /// Account for native asset that left the reserve towards a stake
    /// account.
    pub fn on_transfer_from_reserve(&mut self, amount: u64) -> (r: Result<(), StakingError>)
        ensures
            r is Ok <==> amount <= old(self).available_reserve_balance,
            r is Ok ==> *final(self) == (StakePoolConfig {
                available_reserve_balance: (old(self).available_reserve_balance - amount) as u64,
                ..*old(self)
            }),
            r is Err ==> *final(self) == *old(self) && r == Err::<(), StakingError>(
                StakingError::MathOverflow,
            ),
    {
        match self.available_reserve_balance.checked_sub(amount) {
            Some(n) => {
                self.available_reserve_balance = n;
                Ok(())
            },
            None => Err(StakingError::MathOverflow),
        }
    }

    /// Account for freshly minted derivative tokens.
    pub fn on_msol_mint(&mut self, amount: u64) -> (r: Result<(), StakingError>)
        ensures
            r is Ok <==> old(self).msol_supply + amount <= u64::MAX,
            r is Ok ==> *final(self) == (StakePoolConfig {
                msol_supply: (old(self).msol_supply + amount) as u64,
                ..*old(self)
            }),
            r is Err ==> *final(self) == *old(self) && r == Err::<(), StakingError>(
                StakingError::MathOverflow,
            ),
    {
        match self.msol_supply.checked_add(amount) {
            Some(n) => {
                self.msol_supply = n;
                Ok(())
            },
            None => Err(StakingError::MathOverflow),
        }
    }

    /// Set up a fresh pool from its configuration parameters, the
    /// addresses it is wired to and the bump seeds the host derived.
    /// Every configuration rule is checked before anything is built; the
    /// pool starts paused off, empty and uncapped.
    pub fn new(data: InitializeData, accounts: InitializeAccounts, bumps: InitializeBumps,
        rent_exempt_for_token_acc: u64) -> (r: Result<StakePoolConfig, StakingError>)
        ensures
            r is Ok <==> {
                &&& data.rewards_fee.basis_points <= MAX_REWARD_FEE_BASIS_POINTS
                &&& data.slots_for_stake_delta >= stake_system::MIN_UPDATE_WINDOW
                &&& data.min_stake >= MIN_STAKE_LOWER_LIMIT
                &&& stake_system::STAKE_RECORD_LEN + data.additional_stake_record_space
                    <= u32::MAX
                &&& validator_system::VALIDATOR_RECORD_LEN
                    + data.additional_validator_record_space <= u32::MAX
                &&& (LiqPool {
                    lp_mint: accounts.lp_mint,
                    lp_mint_authority_bump_seed: bumps.lp_mint_authority,
                    sol_leg_bump_seed: bumps.sol_leg_pda,
                    msol_leg_authority_bump_seed: bumps.msol_leg_authority,
                    msol_leg: accounts.msol_leg,
                    lp_liquidity_target: data.liq_pool.lp_liquidity_target,
                    lp_max_fee: data.liq_pool.lp_max_fee,
                    lp_min_fee: data.liq_pool.lp_min_fee,
                    treasury_cut: data.liq_pool.lp_treasury_cut,
                    lp_supply: 0,
                    lent_from_sol_leg: 0,
                    liquidity_sol_cap: u64::MAX,
                }).wf()
            },
            r matches Ok(v) ==> {
                &&& v.wf()
                &&& v.msol_mint == accounts.msol_mint
                &&& v.admin_authority == data.admin_authority
                &&& v.operational_sol_account == accounts.operational_sol_account
                &&& v.treasury_msol_account == accounts.treasury_msol_account
                &&& v.reserve_bump_seed == bumps.reserve_pda
                &&& v.msol_mint_authority_bump_seed == bumps.msol_mint_authority
                &&& v.rent_exempt_for_token_acc == rent_exempt_for_token_acc
                &&& v.reward_fee == data.rewards_fee
                &&& v.stake_system.stake_list@ == Seq::<stake_system::StakeRecord>::empty()
                &&& v.stake_system.stake_list.account == accounts.stake_list_account
                &&& v.stake_system.slots_for_stake_delta == data.slots_for_stake_delta
                &&& v.stake_system.min_stake == data.min_stake
                &&& v.stake_system.extra_stake_delta_runs == 0
                &&& v.stake_system.stake_deposit_bump_seed == bumps.stake_deposit
                &&& v.stake_system.stake_withdraw_bump_seed == bumps.stake_withdraw
                &&& v.validator_system.validator_list@ == Seq::<
                    validator_system::ValidatorRecord,
                >::empty()
                &&& v.validator_system.validator_list.account
                    == accounts.validator_list_account
                &&& v.validator_system.manager_authority == data.validator_manager_authority
                &&& v.validator_system.total_validator_score == 0
                &&& v.validator_system.total_active_balance == 0
                &&& v.liq_pool.lp_mint == accounts.lp_mint
                &&& v.liq_pool.msol_leg == accounts.msol_leg
                &&& v.liq_pool.lp_liquidity_target == data.liq_pool.lp_liquidity_target
                &&& v.liq_pool.lp_max_fee == data.liq_pool.lp_max_fee
                &&& v.liq_pool.lp_min_fee == data.liq_pool.lp_min_fee
                &&& v.liq_pool.treasury_cut == data.liq_pool.lp_treasury_cut
                &&& v.liq_pool.lp_supply == 0
                &&& v.liq_pool.liquidity_sol_cap == u64::MAX
                &&& v.available_reserve_balance == 0
                &&& v.msol_supply == 0
                &&& v.msol_price == PRICE_DENOMINATOR
                &&& v.min_deposit == 1
                &&& v.min_withdraw == 1
                &&& v.staking_sol_cap == u64::MAX
                &&& v.pause_authority == data.pause_authority
                &&& !v.paused
                &&& v.last_stake_move_epoch == 0
                &&& v.stake_moved == 0
                &&& v.max_stake_moved_per_epoch.basis_points == fee::MAX_BASIS_POINTS
            },
            r matches Err(e) ==> {
                if data.rewards_fee.basis_points > MAX_REWARD_FEE_BASIS_POINTS {
                    e == StakingError::RewardsFeeIsTooHigh
                } else if data.slots_for_stake_delta < stake_system::MIN_UPDATE_WINDOW {
                    e == StakingError::UpdateWindowIsTooLow
                } else if data.min_stake < MIN_STAKE_LOWER_LIMIT {
                    e == StakingError::MinStakeIsTooLow
                } else if stake_system::STAKE_RECORD_LEN + data.additional_stake_record_space
                    > u32::MAX || validator_system::VALIDATOR_RECORD_LEN
                    + data.additional_validator_record_space > u32::MAX {
                    e == StakingError::MathOverflow
                } else {
                    e == StakingError::BasisPointCentsOverflow || e
                        == StakingError::LpMaxFeeIsTooHigh || e
                        == StakingError::LpFeesAreWrongWayRound || e
                        == StakingError::LiquidityTargetTooLow || e
                        == StakingError::TreasuryCutIsTooHigh
                }
            },
    {
        if data.rewards_fee.basis_points > MAX_REWARD_FEE_BASIS_POINTS {
            return Err(StakingError::RewardsFeeIsTooHigh);
        }
        if data.slots_for_stake_delta < stake_system::MIN_UPDATE_WINDOW {
            return Err(StakingError::UpdateWindowIsTooLow);
        }
        if data.min_stake < MIN_STAKE_LOWER_LIMIT {
            return Err(StakingError::MinStakeIsTooLow);
        }
        let new_stake_system = match StakeSystem::new(
            accounts.stake_list_account,
            data.slots_for_stake_delta,
            data.min_stake,
            0,
            data.additional_stake_record_space,
            bumps.stake_deposit,
            bumps.stake_withdraw,
        ) {
            Ok(s) => s,
            Err(e) => {
                return Err(e);
            },
        };
        let new_validator_system = match ValidatorSystem::new(
            accounts.validator_list_account,
            data.validator_manager_authority,
            data.additional_validator_record_space,
        ) {
            Ok(s) => s,
            Err(e) => {
                return Err(e);
            },
        };
        let new_liq_pool = LiqPool {
            lp_mint: accounts.lp_mint,
            lp_mint_authority_bump_seed: bumps.lp_mint_authority,
            sol_leg_bump_seed: bumps.sol_leg_pda,
            msol_leg_authority_bump_seed: bumps.msol_leg_authority,
            msol_leg: accounts.msol_leg,
            lp_liquidity_target: data.liq_pool.lp_liquidity_target,
            lp_max_fee: data.liq_pool.lp_max_fee,
            lp_min_fee: data.liq_pool.lp_min_fee,
            treasury_cut: data.liq_pool.lp_treasury_cut,
            lp_supply: 0,
            lent_from_sol_leg: 0,
            liquidity_sol_cap: u64::MAX,
        };
        match new_liq_pool.validate() {
            Ok(()) => {},
            Err(e) => {
                return Err(e);
            },
        }
        Ok(
            StakePoolConfig {
                msol_mint: accounts.msol_mint,
                admin_authority: data.admin_authority,
                operational_sol_account: accounts.operational_sol_account,
                treasury_msol_account: accounts.treasury_msol_account,
                reserve_bump_seed: bumps.reserve_pda,
                msol_mint_authority_bump_seed: bumps.msol_mint_authority,
                rent_exempt_for_token_acc,
                reward_fee: data.rewards_fee,
                stake_system: new_stake_system,
                validator_system: new_validator_system,
                liq_pool: new_liq_pool,
                available_reserve_balance: 0,
                msol_supply: 0,
                msol_price: PRICE_DENOMINATOR,
                min_deposit: 1,
                min_withdraw: 1,
                staking_sol_cap: u64::MAX,
                pause_authority: data.pause_authority,
                paused: false,
                last_stake_move_epoch: 0,
                stake_moved: 0,
                max_stake_moved_per_epoch: Fee::from_basis_points(fee::MAX_BASIS_POINTS),
            },
        )
    }

    /// Accept a deposit of `lamports` native asset.  The deposit is
    /// swapped against the liquidity pool's derivative leg as far as that
    /// leg reaches (at the current exchange rate); the remainder enters
    /// the reserve, capped by the staking cap, and mints fresh derivative
    /// tokens.  The depositor always ends up with derivative tokens worth
    /// the full buy order.  On any error nothing changes.
    pub fn deposit(
        &mut self,
        lamports: u64,
        user_sol_balance: u64,
        msol_mint_supply: u64,
        msol_leg_balance: u64,
    ) -> (r: Result<DepositPlan, StakingError>)
        requires
            old(self).wf(),
        ensures
            final(self).wf(),
            r == deposit_result(
                *old(self),
                lamports,
                user_sol_balance,
                msol_mint_supply,
                msol_leg_balance,
            ),
            r matches Ok(plan) ==> *final(self) == (StakePoolConfig {
                available_reserve_balance: (old(self).available_reserve_balance
                    + plan.sol_deposited) as u64,
                msol_supply: (old(self).msol_supply + plan.msol_minted) as u64,
                ..*old(self)
            }),
            r is Err ==> *final(self) == *old(self),
    {
        if self.paused {
            return Err(StakingError::ProgramIsPaused);
        }
        if lamports < self.min_deposit {
            return Err(StakingError::DepositAmountIsTooLow);
        }
        if user_sol_balance < lamports {
            return Err(StakingError::NotEnoughUserFunds);
        }
        if msol_mint_supply > self.msol_supply {
            return Err(StakingError::UnregisteredMsolMinted);
        }
        let user_msol_buy_order = match self.calc_msol_from_lamports(lamports) {
            Ok(v) => v,
            Err(e) => {
                return Err(e);
            },
        };
        let msol_swapped: u64 = if user_msol_buy_order <= msol_leg_balance {
            user_msol_buy_order
        } else {
            msol_leg_balance
        };
        proof {
            crate::calc::lemma_buy_order_value_bound(
                lamports as int,
                old(self).total_staked_spec(),
                old(self).msol_supply as int,
                msol_swapped as int,
            );
        }
        let sol_swapped: u64 = if msol_swapped > 0 {
            if user_msol_buy_order == msol_swapped {
                lamports
            } else {
                match self.msol_to_sol(msol_swapped) {
                    Ok(v) => v,
                    // unreachable: a partial swap converts back to at most
                    // the deposit, which fits
                    Err(e) => {
                        return Err(e);
                    },
                }
            }
        } else {
            0
        };
        let sol_deposited: u64 = lamports - sol_swapped;
        if sol_deposited > 0 {
            match self.check_staking_cap(sol_deposited) {
                Ok(()) => {},
                Err(e) => {
                    return Err(e);
                },
            }
        }
        let msol_minted: u64 = user_msol_buy_order - msol_swapped;
        match self.on_msol_mint(msol_minted) {
            Ok(()) => {},
            Err(e) => {
                return Err(e);
            },
        }
        match self.on_transfer_to_reserve(sol_deposited) {
            Ok(()) => {},
            // unreachable: the staking cap check already bounded the sum
            Err(e) => {
                return Err(e);
            },
        }
        Ok(DepositPlan { sol_swapped, msol_swapped, sol_deposited, msol_minted })
    }

    /// Decide an instant exit: how much native asset the holder gets for
    /// `msol_amount` derivative tokens, the fee kept by the liquidity
    /// pool, and the treasury's cut.  The pool's tracked state does not
    /// change; the swap only moves balances between accounts the host
    /// controls.
    pub fn unstake(&self, msol_amount: u64, liq_pool_sol_balance: u64) -> (r: Result<
        UnstakePlan,
        StakingError,
    >)
        requires
            self.wf(),
        ensures
            r == unstake_result(*self, msol_amount, liq_pool_sol_balance),
    {
        if self.paused {
            return Err(StakingError::ProgramIsPaused);
        }
        let liq_pool_available_sol_balance: u64 = if liq_pool_sol_balance
            >= self.rent_exempt_for_token_acc {
            liq_pool_sol_balance - self.rent_exempt_for_token_acc
        } else {
            0
        };
        let user_remove_lamports = match self.msol_to_sol(msol_amount) {
            Ok(v) => v,
            Err(e) => {
                return Err(e);
            },
        };
        let liquid_unstake_fee: Fee = if user_remove_lamports >= liq_pool_available_sol_balance {
            self.liq_pool.lp_max_fee
        } else {
            self.liq_pool.linear_fee(liq_pool_available_sol_balance - user_remove_lamports)
        };
        let msol_fee = liquid_unstake_fee.apply(msol_amount);
        proof {
            crate::calc::lemma_proportional_monotone(
                msol_amount - msol_fee,
                msol_amount as int,
                self.total_staked_spec(),
                self.msol_supply as int,
            );
        }
        let working_lamports_value = match self.msol_to_sol(msol_amount - msol_fee) {
            Ok(v) => v,
            // unreachable: converting fewer tokens yields at most as much
            Err(e) => {
                return Err(e);
            },
        };
        if working_lamports_value < self.min_withdraw {
            return Err(StakingError::WithdrawAmountIsTooLow);
        }
        if (working_lamports_value as u128) + (self.rent_exempt_for_token_acc as u128) > (
        liq_pool_sol_balance as u128) {
            return Err(StakingError::InsufficientLiquidity);
        }
        let treasury_msol_cut = self.liq_pool.treasury_cut.apply(msol_fee);
        Ok(
            UnstakePlan {
                sol_to_user: working_lamports_value,
                msol_fee,
                treasury_msol_cut,
                msol_to_liq_pool: msol_amount - treasury_msol_cut,
            },
        )
    }

    /// Take `lamports` of native liquidity into the pool and mint shares
    /// for the provider.  The internal share supply is first checked
    /// against the outside mint — observing more shares than the pool
    /// minted is an integrity violation — and synchronized down to it.
    /// On any error nothing changes.
    pub fn add_liquidity(
        &mut self,
        lamports: u64,
        user_sol_balance: u64,
        lp_mint_supply: u64,
        sol_leg_balance: u64,
        msol_leg_amount: u64,
    ) -> (r: Result<u64, StakingError>)
        requires
            old(self).wf(),
        ensures
            final(self).wf(),
            r == add_liquidity_result(
                *old(self),
                lamports,
                user_sol_balance,
                lp_mint_supply,
                sol_leg_balance,
                msol_leg_amount,
            ),
            r matches Ok(shares) ==> *final(self) == (StakePoolConfig {
                liq_pool: (LiqPool {
                    lp_supply: (lp_mint_supply + shares) as u64,
                    ..old(self).liq_pool
                }),
                ..*old(self)
            }),
            r is Err ==> *final(self) == *old(self),
    {
        if self.paused {
            return Err(StakingError::ProgramIsPaused);
        }
        if lamports < self.min_deposit {
            return Err(StakingError::DepositAmountIsTooLow);
        }
        if lamports > user_sol_balance {
            return Err(StakingError::NotEnoughUserFunds);
        }
        match self.liq_pool.check_liquidity_cap(lamports, sol_leg_balance) {
            Ok(()) => {},
            Err(e) => {
                return Err(e);
            },
        }
        if lp_mint_supply > self.liq_pool.lp_supply {
            return Err(StakingError::UnregisteredLPMinted);
        }
        if sol_leg_balance < self.rent_exempt_for_token_acc {
            return Err(StakingError::MathOverflow);
        }
        let sol_leg_available_balance: u64 = sol_leg_balance - self.rent_exempt_for_token_acc;
        let msol_leg_value = match self.msol_to_sol(msol_leg_amount) {
            Ok(v) => v,
            Err(e) => {
                return Err(e);
            },
        };
        let total_liq_pool_value = match sol_leg_available_balance.checked_add(msol_leg_value) {
            Some(n) => n,
            None => {
                return Err(StakingError::MathOverflow);
            },
        };
        let shares_for_user = match shares_from_value(
            lamports,
            total_liq_pool_value,
            lp_mint_supply,
        ) {
            Ok(v) => v,
            Err(e) => {
                return Err(e);
            },
        };
        let new_supply = match lp_mint_supply.checked_add(shares_for_user) {
            Some(n) => n,
            None => {
                return Err(StakingError::MathOverflow);
            },
        };
        self.liq_pool.lp_supply = new_supply;
        Ok(shares_for_user)
    }

    /// Burn `tokens` pool shares and pay the provider a proportional
    /// slice of both legs.  The internal share supply is first checked
    /// against the outside mint — observing more shares than the pool
    /// minted is an integrity violation — and synchronized down to it.
    /// On any error nothing changes.
    pub fn remove_liquidity(
        &mut self,
        tokens: u64,
        burn_from_amount: u64,
        sol_leg_balance: u64,
        msol_leg_balance: u64,
        lp_mint_supply: u64,
    ) -> (r: Result<RemoveLiquidityPlan, StakingError>)
        requires
            old(self).wf(),
        ensures
            final(self).wf(),
            r == remove_liquidity_result(
                *old(self),
                tokens,
                burn_from_amount,
                sol_leg_balance,
                msol_leg_balance,
                lp_mint_supply,
            ),
            r is Ok ==> *final(self) == (StakePoolConfig {
                liq_pool: (LiqPool {
                    lp_supply: (lp_mint_supply - tokens) as u64,
                    ..old(self).liq_pool
                }),
                ..*old(self)
            }),
            r is Err ==> *final(self) == *old(self),
    {
        if self.paused {
            return Err(StakingError::ProgramIsPaused);
        }
        if tokens > burn_from_amount {
            return Err(StakingError::NotEnoughUserFunds);
        }
        if lp_mint_supply > self.liq_pool.lp_supply {
            return Err(StakingError::UnauthorizedOrExploitedLPMinting);
        }
        if sol_leg_balance < self.rent_exempt_for_token_acc {
            return Err(StakingError::MathOverflow);
        }
        let sol_out_amount = match crate::calc::proportional(
            tokens,
            sol_leg_balance - self.rent_exempt_for_token_acc,
            lp_mint_supply,
        ) {
            Ok(v) => v,
            Err(e) => {
                return Err(e);
            },
        };
        let msol_out_amount = match crate::calc::proportional(
            tokens,
            msol_leg_balance,
            lp_mint_supply,
        ) {
            Ok(v) => v,
            Err(e) => {
                return Err(e);
            },
        };
        let msol_out_value = match self.msol_to_sol(msol_out_amount) {
            Ok(v) => v,
            Err(e) => {
                return Err(e);
            },
        };
        let withdraw_value = match sol_out_amount.checked_add(msol_out_value) {
            Some(n) => n,
            None => {
                return Err(StakingError::MathOverflow);
            },
        };
        if withdraw_value < self.min_withdraw {
            return Err(StakingError::WithdrawAmountIsTooLow);
        }
        let new_supply = match lp_mint_supply.checked_sub(tokens) {
            Some(n) => n,
            None => {
                return Err(StakingError::MathOverflow);
            },
        };
        self.liq_pool.lp_supply = new_supply;
        Ok(RemoveLiquidityPlan { sol_out_amount, msol_out_amount })
    }

    /// Admit a validator to the registry with the given score.  The
    /// host enforces the manager's signature and the identity's
    /// uniqueness sentinel before calling.  On any error nothing changes.
    pub fn add_validator(
        &mut self,
        validator_list_len: usize,
        validator_account: Pubkey,
        score: u32,
        duplication_flag_bump_seed: u8,
    ) -> (r: Result<(), StakingError>)
        requires
            old(self).wf(),
        ensures
            final(self).wf(),
            r is Ok <==> {
                &&& !old(self).paused
                &&& list::HEADER_BYTES <= validator_list_len
                &&& validator_list_len - list::HEADER_BYTES <= u32::MAX
                &&& old(self).validator_system.validator_list.count < list::capacity_spec(
                    old(self).validator_system.validator_list.item_size as int,
                    validator_list_len as int,
                )
                &&& old(self).validator_system.total_validator_score + score <= u32::MAX
            },
            old(self).paused ==> r == Err::<(), StakingError>(StakingError::ProgramIsPaused),
            r is Ok ==> {
                &&& *final(self) == (StakePoolConfig {
                    validator_system: final(self).validator_system,
                    ..*old(self)
                })
                &&& final(self).validator_system.validator_list@ == old(
                    self,
                ).validator_system.validator_list@.push(
                    (ValidatorRecord {
                        validator_account,
                        active_balance: 0,
                        score,
                        last_stake_delta_epoch: u64::MAX,
                        duplication_flag_bump_seed,
                    }),
                )
                &&& final(self).validator_system.total_validator_score == old(
                    self,
                ).validator_system.total_validator_score + score
                &&& final(self).validator_system.total_active_balance == old(
                    self,
                ).validator_system.total_active_balance
                &&& final(self).validator_system.manager_authority == old(
                    self,
                ).validator_system.manager_authority
            },
            r is Err ==> *final(self) == *old(self),
    {
        if self.paused {
            return Err(StakingError::ProgramIsPaused);
        }
        self.validator_system.add(
            validator_list_len,
            validator_account,
            score,
            duplication_flag_bump_seed,
        )
    }

    /// Retire a validator from the registry.  The caller names both the
    /// index and the identity it expects there, and the record must carry
    /// no stake.  The removed record is returned for the host to release
    /// the identity's uniqueness sentinel.  On any error nothing changes.
    pub fn remove_validator(&mut self, index: u32, validator_vote: Pubkey) -> (r: Result<
        ValidatorRecord,
        StakingError,
    >)
        requires
            old(self).wf(),
        ensures
            final(self).wf(),
            old(self).paused ==> r == Err::<ValidatorRecord, StakingError>(
                StakingError::ProgramIsPaused,
            ),
            !old(self).paused && index >= old(self).validator_system.validator_list.count ==> r
                == Err::<ValidatorRecord, StakingError>(StakingError::ListIndexOutOfBounds),
            !old(self).paused && index < old(self).validator_system.validator_list.count
                && old(self).validator_system.validator_list@[
                index as int
            ].validator_account != validator_vote ==> r == Err::<ValidatorRecord, StakingError>(
                StakingError::WrongValidatorAccountOrIndex,
            ),
            !old(self).paused && index < old(self).validator_system.validator_list.count
                && old(self).validator_system.validator_list@[index as int].validator_account
                == validator_vote && old(self).validator_system.validator_list@[
                index as int
            ].active_balance != 0 ==> r == Err::<ValidatorRecord, StakingError>(
                StakingError::RemovingValidatorWithBalance,
            ),
            r is Ok <==> {
                &&& !old(self).paused
                &&& index < old(self).validator_system.validator_list.count
                &&& old(self).validator_system.validator_list@[index as int].validator_account
                    == validator_vote
                &&& old(self).validator_system.validator_list@[index as int].active_balance == 0
            },
            r matches Ok(record) ==> {
                &&& record == old(self).validator_system.validator_list@[index as int]
                &&& *final(self) == (StakePoolConfig {
                    validator_system: final(self).validator_system,
                    ..*old(self)
                })
                &&& final(self).validator_system.validator_list@ == old(
                    self,
                ).validator_system.validator_list@.update(
                    index as int,
                    old(self).validator_system.validator_list@.last(),
                ).drop_last()
                &&& final(self).validator_system.total_validator_score == old(
                    self,
                ).validator_system.total_validator_score - record.score
                &&& final(self).validator_system.total_active_balance == old(
                    self,
                ).validator_system.total_active_balance
                &&& final(self).validator_system.manager_authority == old(
                    self,
                ).validator_system.manager_authority
            },
            r is Err ==> *final(self) == *old(self),
    {
        if self.paused {
            return Err(StakingError::ProgramIsPaused);
        }
        let record = match self.validator_system.get_checked(index, validator_vote) {
            Ok(v) => v,
            Err(e) => {
                return Err(e);
            },
        };
        match self.validator_system.remove(index, record) {
            Ok(()) => Ok(record),
            Err(e) => Err(e),
        }
    }

    /// Change a validator's allocation score: the old score leaves the
    /// total, the new one enters it, never partially.  The old score is
    /// returned.  On any error nothing changes.
    pub fn set_validator_score(&mut self, index: u32, validator_vote: Pubkey, score: u32) -> (r:
        Result<u32, StakingError>)
        requires
            old(self).wf(),
        ensures
            final(self).wf(),
            old(self).paused ==> r == Err::<u32, StakingError>(StakingError::ProgramIsPaused),
            !old(self).paused && index >= old(self).validator_system.validator_list.count ==> r
                == Err::<u32, StakingError>(StakingError::ListIndexOutOfBounds),
            !old(self).paused && index < old(self).validator_system.validator_list.count
                && old(self).validator_system.validator_list@[
                index as int
            ].validator_account != validator_vote ==> r == Err::<u32, StakingError>(
                StakingError::WrongValidatorAccountOrIndex,
            ),
            !old(self).paused && index < old(self).validator_system.validator_list.count
                && old(self).validator_system.validator_list@[index as int].validator_account
                == validator_vote && old(self).validator_system.total_validator_score - old(
                self,
            ).validator_system.validator_list@[index as int].score + score > u32::MAX ==> r
                == Err::<u32, StakingError>(StakingError::MathOverflow),
            r is Ok <==> {
                &&& !old(self).paused
                &&& index < old(self).validator_system.validator_list.count
                &&& old(self).validator_system.validator_list@[index as int].validator_account
                    == validator_vote
                &&& old(self).validator_system.total_validator_score - old(
                    self,
                ).validator_system.validator_list@[index as int].score + score <= u32::MAX
            },
            r matches Ok(old_score) ==> {
                &&& old_score == old(self).validator_system.validator_list@[index as int].score
                &&& *final(self) == (StakePoolConfig {
                    validator_system: final(self).validator_system,
                    ..*old(self)
                })
                &&& final(self).validator_system.validator_list@ == old(
                    self,
                ).validator_system.validator_list@.update(
                    index as int,
                    (ValidatorRecord {
                        score,
                        ..old(self).validator_system.validator_list@[index as int]
                    }),
                )
                &&& final(self).validator_system.total_validator_score == old(
                    self,
                ).validator_system.total_validator_score - old_score + score
                &&& final(self).validator_system.total_active_balance == old(
                    self,
                ).validator_system.total_active_balance
                &&& final(self).validator_system.manager_authority == old(
                    self,
                ).validator_system.manager_authority
            },
            r is Err ==> *final(self) == *old(self),
    {
        if self.paused {
            return Err(StakingError::ProgramIsPaused);
        }
        let mut validator = match self.validator_system.get_checked(index, validator_vote) {
            Ok(v) => v,
            Err(e) => {
                return Err(e);
            },
        };
        proof {
            validator_system::lemma_sum_element_bound(
                self.validator_system.validator_list@,
                index as int,
            );
        }
        let reduced_total = self.validator_system.total_validator_score - validator.score;
        let new_total = match reduced_total.checked_add(score) {
            Some(n) => n,
            None => {
                return Err(StakingError::MathOverflow);
            },
        };
        let old_score = validator.score;
        validator.score = score;
        match self.validator_system.set(index, validator) {
            Ok(()) => {},
            // unreachable: the index was just fetched
            Err(e) => {
                return Err(e);
            },
        }
        proof {
            validator_system::lemma_sum_update(
                old(self).validator_system.validator_list@,
                index as int,
                validator,
            );
        }
        self.validator_system.total_validator_score = new_total;
        Ok(old_score)
    }

    /// Run one stake-reserve rebalance step for the validator at
    /// `validator_index`: decide how much of the reserve surplus to
    /// delegate to it, record the new delegation under `stake_account`,
    /// and stamp the epoch.  A validator already at its target, already
    /// rebalanced this epoch with no repeat budget left, or owed less
    /// than the minimum stake is skipped without error, so that sibling
    /// instructions in the same batch survive.  On any error nothing
    /// changes.
    pub fn stake_reserve(
        &mut self,
        validator_index: u32,
        validator_vote: Pubkey,
        stake_account: Pubkey,
        reserve_balance: u64,
        epoch: u64,
        slot: u64,
        last_slot_in_epoch: u64,
        stake_list_len: usize,
    ) -> (r: Result<StakeReservePlan, StakingError>)
        requires
            old(self).wf(),
        ensures
            final(self).wf(),
            r == stake_reserve_result(
                *old(self),
                validator_index,
                validator_vote,
                reserve_balance,
                epoch,
                slot,
                last_slot_in_epoch,
                stake_list_len,
            ),
            r == Ok::<StakeReservePlan, StakingError>(StakeReservePlan::NoDelta) ==> *final(self)
                == *old(self),
            r == Ok::<StakeReservePlan, StakingError>(StakeReservePlan::ReturnRent)
                ==> *final(self) == (StakePoolConfig {
                stake_system: (StakeSystem {
                    extra_stake_delta_runs: spent_extra_runs(*old(self), validator_index, epoch),
                    ..old(self).stake_system
                }),
                ..*old(self)
            }),
            r matches Ok(plan) ==> (plan matches StakeReservePlan::Delegate { amount } ==> {
                let old_rec = old(self).validator_system.validator_list@[validator_index as int];
                &&& *final(self) == (StakePoolConfig {
                    available_reserve_balance: (old(self).available_reserve_balance
                        - amount) as u64,
                    stake_system: final(self).stake_system,
                    validator_system: final(self).validator_system,
                    ..*old(self)
                })
                &&& final(self).stake_system == (StakeSystem {
                    stake_list: final(self).stake_system.stake_list,
                    last_stake_delta_epoch: epoch,
                    extra_stake_delta_runs: spent_extra_runs(*old(self), validator_index, epoch),
                    ..old(self).stake_system
                })
                &&& final(self).stake_system.stake_list@ == old(
                    self,
                ).stake_system.stake_list@.push(
                    (stake_system::StakeRecord {
                        stake_account,
                        last_update_delegated_lamports: amount,
                        last_update_epoch: epoch,
                        is_emergency_unstaking: 0,
                    }),
                )
                &&& final(self).validator_system == (ValidatorSystem {
                    validator_list: final(self).validator_system.validator_list,
                    total_active_balance: (old(self).validator_system.total_active_balance
                        + amount) as u64,
                    ..old(self).validator_system
                })
                &&& final(self).validator_system.validator_list@ == old(
                    self,
                ).validator_system.validator_list@.update(
                    validator_index as int,
                    (ValidatorRecord {
                        active_balance: (old_rec.active_balance + amount) as u64,
                        last_stake_delta_epoch: epoch,
                        ..old_rec
                    }),
                )
            }),
            r is Err ==> *final(self) == *old(self),
    {
        if self.paused {
            return Err(StakingError::ProgramIsPaused);
        }
        let total_pool_delta = self.stake_delta(reserve_balance);
        if total_pool_delta == 0 {
            return Ok(StakeReservePlan::NoDelta);
        }
        let mut validator = match self.validator_system.get_checked(
            validator_index,
            validator_vote,
        ) {
            Ok(v) => v,
            Err(e) => {
                return Err(e);
            },
        };
        let repeated_epoch = validator.last_stake_delta_epoch == epoch;
        if repeated_epoch && self.stake_system.extra_stake_delta_runs == 0 {
            return Ok(StakeReservePlan::ReturnRent);
        }
        let window_start: u64 = if last_slot_in_epoch >= self.stake_system.slots_for_stake_delta {
            last_slot_in_epoch - self.stake_system.slots_for_stake_delta
        } else {
            0
        };
        if slot < window_start {
            return Err(StakingError::TooEarlyForStakeDelta);
        }
        proof {
            validator_system::lemma_sum_element_bound(
                self.validator_system.validator_list@,
                validator_index as int,
            );
            if self.validator_system.total_validator_score > 0 {
                crate::calc::lemma_proportional_le_amount(
                    total_pool_delta as int,
                    validator.score as int,
                    self.validator_system.total_validator_score as int,
                );
            }
        }
        let validator_stake_target = match self.validator_system.validator_stake_target(
            &validator,
            total_pool_delta,
        ) {
            Ok(v) => v,
            // unreachable: a score-weighted share never exceeds the delta
            Err(e) => {
                return Err(e);
            },
        };
        if validator.active_balance >= validator_stake_target {
            if repeated_epoch {
                self.stake_system.extra_stake_delta_runs =
                    self.stake_system.extra_stake_delta_runs - 1;
            }
            return Ok(StakeReservePlan::ReturnRent);
        }
        let gap: u64 = validator_stake_target - validator.active_balance;
        let wanted: u64 = if gap <= total_pool_delta {
            gap
        } else {
            total_pool_delta
        };
        let amount: u64 = if total_pool_delta - wanted < self.stake_system.min_stake {
            total_pool_delta
        } else {
            wanted
        };
        if amount < self.stake_system.min_stake {
            if repeated_epoch {
                self.stake_system.extra_stake_delta_runs =
                    self.stake_system.extra_stake_delta_runs - 1;
            }
            return Ok(StakeReservePlan::ReturnRent);
        }
        let new_available = match self.available_reserve_balance.checked_sub(amount) {
            Some(n) => n,
            None => {
                return Err(StakingError::MathOverflow);
            },
        };
        match self.stake_system.add(stake_list_len, stake_account, amount, epoch, 0) {
            Ok(()) => {},
            Err(e) => {
                return Err(e);
            },
        }
        self.available_reserve_balance = new_available;
        validator.active_balance = validator.active_balance + amount;
        validator.last_stake_delta_epoch = epoch;
        proof {
            validator_system::lemma_sum_update(
                self.validator_system.validator_list@,
                validator_index as int,
                validator,
            );
        }
        match self.validator_system.set(validator_index, validator) {
            Ok(()) => {},
            // unreachable: the index was just fetched
            Err(e) => {
                return Err(e);
            },
        }
        self.validator_system.total_active_balance = self.validator_system.total_active_balance
            + amount;
        self.stake_system.last_stake_delta_epoch = epoch;
        if repeated_epoch {
            self.stake_system.extra_stake_delta_runs = self.stake_system.extra_stake_delta_runs
                - 1;
        }
        Ok(StakeReservePlan::Delegate { amount })
    }

    /// Reserve surplus available to delegate this epoch: the observed
    /// reserve balance minus the rent-exempt floor.
    pub fn stake_delta(&self, reserve_balance: u64) -> (r: u64)
        ensures
            r == if reserve_balance >= self.rent_exempt_for_token_acc {
                reserve_balance - self.rent_exempt_for_token_acc
            } else {
                0
            },
    {
        if reserve_balance >= self.rent_exempt_for_token_acc {
            reserve_balance - self.rent_exempt_for_token_acc
        } else {
            0
        }
    }
}

} // verus!
