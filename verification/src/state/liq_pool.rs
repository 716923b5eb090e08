//! The instant-exit liquidity pool.
//!
//! The pool holds two legs — native asset and derivative token — and mints
//! its own share token against them.  Holders of the derivative token can
//! exit instantly for a fee that rises linearly as the native leg drains:
//! at or above the liquidity target the fee is the configured minimum, at
//! an empty leg it is the configured maximum.  The pool tracks its share
//! supply internally and must never observe more shares in the wild than
//! it minted itself.

use vstd::prelude::*;

use crate::calc::{proportional, proportional_spec};
use crate::error::StakingError;
use crate::pubkey::Pubkey;
use super::fee::Fee;

verus! {

/// Lamports in one whole native token.
pub const LAMPORTS_PER_SOL: u64 = 1_000_000_000;

/// Highest exit fee a pool may be configured with, in basis points.
pub const MAX_FEE_BASIS_POINTS: u32 = 1_000;

/// Smallest allowed liquidity target: 50 whole native tokens.
pub const MIN_LIQUIDITY_TARGET: u64 = 50 * LAMPORTS_PER_SOL;

/// Highest treasury cut a pool may be configured with, in basis points.
pub const MAX_TREASURY_CUT_BASIS_POINTS: u32 = 7_500;

pub struct LiqPool {
    /// Mint of the pool-share token.
    pub lp_mint: Pubkey,
    /// Bump seed of the share-mint authority.
    pub lp_mint_authority_bump_seed: u8,
    /// Bump seed of the native-asset leg.
    pub sol_leg_bump_seed: u8,
    /// Bump seed of the derivative-leg authority.
    pub msol_leg_authority_bump_seed: u8,
    /// Account holding the derivative leg.
    pub msol_leg: Pubkey,
    /// Native-leg balance the pool aims to keep, in lamports.
    pub lp_liquidity_target: u64,
    /// Exit fee when the native leg is empty.
    pub lp_max_fee: Fee,
    /// Exit fee at or above the liquidity target.
    pub lp_min_fee: Fee,
    /// Share of each exit fee diverted to the treasury.
    pub treasury_cut: Fee,
    /// Pool-share tokens minted, as tracked internally.
    pub lp_supply: u64,
    /// Native asset currently lent out of the leg.
    pub lent_from_sol_leg: u64,
    /// Hard cap on the native leg, in lamports.
    pub liquidity_sol_cap: u64,
}

/// The fee, in basis points, for an exit that leaves `lamports` in the
/// native leg: the minimum at or above the target, rising linearly to the
/// maximum as the leg empties.
pub open spec fn linear_fee_spec(max_bp: int, min_bp: int, target: int, lamports: int) -> int {
    if lamports >= target {
        min_bp
    } else {
        max_bp - proportional_spec(max_bp - min_bp, lamports, target)
    }
}

/// The linear fee stays between its configured minimum and maximum.
pub proof fn lemma_linear_fee_bounds(max_bp: int, min_bp: int, target: int, lamports: int)
    requires
        0 <= min_bp <= max_bp,
        0 < target,
        0 <= lamports,
    ensures
        min_bp <= linear_fee_spec(max_bp, min_bp, target, lamports) <= max_bp,
{
    if lamports < target {
        crate::calc::lemma_proportional_le_amount(max_bp - min_bp, lamports, target);
    }
}

/// At or above the liquidity target the fee is the minimum; with the
/// native leg empty it is the maximum.
pub proof fn lemma_linear_fee_endpoints(max_bp: int, min_bp: int, target: int)
    requires
        0 <= min_bp <= max_bp,
        0 < target,
    ensures
        forall|lamports: int|
            lamports >= target ==> #[trigger] linear_fee_spec(max_bp, min_bp, target, lamports)
                == min_bp,
        linear_fee_spec(max_bp, min_bp, target, 0) == max_bp,
{
    let d = max_bp - min_bp;
    assert(d * 0 == 0) by (nonlinear_arith);
    vstd::arithmetic::div_mod::lemma_div_of0(target);
}

/// The linear fee never rises when the native leg gets fuller.
pub proof fn lemma_linear_fee_monotone(max_bp: int, min_bp: int, target: int, l1: int, l2: int)
    requires
        0 <= min_bp <= max_bp,
        0 < target,
        0 <= l1 <= l2,
    ensures
        linear_fee_spec(max_bp, min_bp, target, l2) <= linear_fee_spec(
            max_bp,
            min_bp,
            target,
            l1,
        ),
{
    let d = max_bp - min_bp;
    lemma_linear_fee_bounds(max_bp, min_bp, target, l1);
    lemma_linear_fee_bounds(max_bp, min_bp, target, l2);
    if l2 < target {
        crate::calc::lemma_proportional_monotone(l1, l2, d, target);
        assert(l1 * d == d * l1) by (nonlinear_arith);
        assert(l2 * d == d * l2) by (nonlinear_arith);
    }
}

impl LiqPool {
    /// A well-configured pool: all three fees validated, the maximum exit
    /// fee within the protocol cap and not below the minimum, the
    /// liquidity target at least the protocol floor, and the treasury cut
    /// within its cap.
    pub open spec fn wf(&self) -> bool {
        &&& self.lp_min_fee.is_valid()
        &&& self.lp_max_fee.is_valid()
        &&& self.treasury_cut.is_valid()
        &&& self.lp_max_fee.basis_points <= MAX_FEE_BASIS_POINTS
        &&& self.lp_min_fee.basis_points <= self.lp_max_fee.basis_points
        &&& self.lp_liquidity_target >= MIN_LIQUIDITY_TARGET
        &&& self.treasury_cut.basis_points <= MAX_TREASURY_CUT_BASIS_POINTS
    }

    /// Check every configuration rule, reporting the first one broken.
    pub fn validate(&self) -> (r: Result<(), StakingError>)
        ensures
            r is Ok <==> self.wf(),
            r matches Err(e) ==> {
                if !self.lp_min_fee.is_valid() || !self.lp_max_fee.is_valid()
                    || !self.treasury_cut.is_valid() {
                    e == StakingError::BasisPointCentsOverflow
                } else if self.lp_max_fee.basis_points > MAX_FEE_BASIS_POINTS {
                    e == StakingError::LpMaxFeeIsTooHigh
                } else if self.lp_min_fee.basis_points > self.lp_max_fee.basis_points {
                    e == StakingError::LpFeesAreWrongWayRound
                } else if self.lp_liquidity_target < MIN_LIQUIDITY_TARGET {
                    e == StakingError::LiquidityTargetTooLow
                } else {
                    e == StakingError::TreasuryCutIsTooHigh
                }
            },
    {
        match self.lp_min_fee.check() {
            Ok(()) => {},
            Err(e) => {
                return Err(e);
            },
        }
        match self.lp_max_fee.check() {
            Ok(()) => {},
            Err(e) => {
                return Err(e);
            },
        }
        match self.treasury_cut.check() {
            Ok(()) => {},
            Err(e) => {
                return Err(e);
            },
        }
        if self.lp_max_fee.basis_points > MAX_FEE_BASIS_POINTS {
            return Err(StakingError::LpMaxFeeIsTooHigh);
        }
        if self.lp_min_fee.basis_points > self.lp_max_fee.basis_points {
            return Err(StakingError::LpFeesAreWrongWayRound);
        }
        if self.lp_liquidity_target < MIN_LIQUIDITY_TARGET {
            return Err(StakingError::LiquidityTargetTooLow);
        }
        if self.treasury_cut.basis_points > MAX_TREASURY_CUT_BASIS_POINTS {
            return Err(StakingError::TreasuryCutIsTooHigh);
        }
        Ok(())
    }

    /// Spread between the maximum and minimum exit fee, in basis points.
    pub fn delta(&self) -> (r: u32)
        ensures
            r == if self.lp_max_fee.basis_points >= self.lp_min_fee.basis_points {
                self.lp_max_fee.basis_points - self.lp_min_fee.basis_points
            } else {
                0
            },
    {
        if self.lp_max_fee.basis_points >= self.lp_min_fee.basis_points {
            self.lp_max_fee.basis_points - self.lp_min_fee.basis_points
        } else {
            0
        }
    }

    /// The exit fee for a native leg holding `lamports`.
    pub fn linear_fee(&self, lamports: u64) -> (r: Fee)
        requires
            self.wf(),
        ensures
            r.basis_points == linear_fee_spec(
                self.lp_max_fee.basis_points as int,
                self.lp_min_fee.basis_points as int,
                self.lp_liquidity_target as int,
                lamports as int,
            ),
            self.lp_min_fee.basis_points <= r.basis_points
                <= self.lp_max_fee.basis_points,
    {
        proof {
            lemma_linear_fee_bounds(
                self.lp_max_fee.basis_points as int,
                self.lp_min_fee.basis_points as int,
                self.lp_liquidity_target as int,
                lamports as int,
            );
        }
        if lamports >= self.lp_liquidity_target {
            self.lp_min_fee
        } else {
            let spread = self.delta();
            proof {
                crate::calc::lemma_proportional_le_amount(
                    spread as int,
                    lamports as int,
                    self.lp_liquidity_target as int,
                );
            }
            let slice = match proportional(spread as u64, lamports, self.lp_liquidity_target) {
                Ok(v) => v,
                // unreachable: the quotient is bounded by the fee spread
                Err(_) => 0,
            };
            Fee { basis_points: self.lp_max_fee.basis_points - slice as u32 }
        }
    }

    /// Refuse native deposits that would push the leg past its cap.
    pub fn check_liquidity_cap(&self, transfering_lamports: u64, sol_leg_balance: u64) -> (r:
        Result<(), StakingError>)
        ensures
            r is Ok <==> sol_leg_balance + transfering_lamports <= u64::MAX && sol_leg_balance
                + transfering_lamports <= self.liquidity_sol_cap,
            sol_leg_balance + transfering_lamports > u64::MAX ==> r == Err::<(), StakingError>(
                StakingError::MathOverflow,
            ),
            sol_leg_balance + transfering_lamports <= u64::MAX && sol_leg_balance
                + transfering_lamports > self.liquidity_sol_cap ==> r == Err::<(), StakingError>(
                StakingError::LiquidityIsCapped,
            ),
    {
        let result_amount = match sol_leg_balance.checked_add(transfering_lamports) {
            Some(n) => n,
            None => {
                return Err(StakingError::MathOverflow);
            },
        };
        if result_amount > self.liquidity_sol_cap {
            return Err(StakingError::LiquidityIsCapped);
        }
        Ok(())
    }

    /// Account for freshly minted pool shares.
    pub fn on_lp_mint(&mut self, amount: u64) -> (r: Result<(), StakingError>)
        ensures
            r is Ok <==> old(self).lp_supply + amount <= u64::MAX,
            r is Ok ==> *final(self) == (LiqPool {
                lp_supply: (old(self).lp_supply + amount) as u64,
                ..*old(self)
            }),
            r is Err ==> *final(self) == *old(self) && r == Err::<(), StakingError>(
                StakingError::MathOverflow,
            ),
    {
        match self.lp_supply.checked_add(amount) {
            Some(n) => {
                self.lp_supply = n;
                Ok(())
            },
            None => Err(StakingError::MathOverflow),
        }
    }

    /// Account for burnt pool shares.
    pub fn on_lp_burn(&mut self, amount: u64) -> (r: Result<(), StakingError>)
        ensures
            r is Ok <==> amount <= old(self).lp_supply,
            r is Ok ==> *final(self) == (LiqPool {
                lp_supply: (old(self).lp_supply - amount) as u64,
                ..*old(self)
            }),
            r is Err ==> *final(self) == *old(self) && r == Err::<(), StakingError>(
                StakingError::MathOverflow,
            ),
    {
        match self.lp_supply.checked_sub(amount) {
            Some(n) => {
                self.lp_supply = n;
                Ok(())
            },
            None => Err(StakingError::MathOverflow),
        }
    }
}

} // verus!
