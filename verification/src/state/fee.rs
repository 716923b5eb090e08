//! Basis-point fee ratios.
//!
//! A `Fee` is a ratio in hundredths of a percent; ten thousand basis points
//! are the whole.  A validated fee never exceeds `MAX_BASIS_POINTS`, and
//! applying a validated fee to an amount can only shrink the amount.

use vstd::prelude::*;

use crate::error::StakingError;

verus! {

/// One whole, in basis points.
pub const MAX_BASIS_POINTS: u32 = 10_000;

#[derive(Clone, Copy, Debug, PartialEq, Eq, Structural)]
pub struct Fee {
    pub basis_points: u32,
}

/// The portion of `lamports` that a fee of `basis_points` takes, floored.
pub open spec fn fee_apply_spec(basis_points: int, lamports: int) -> int {
    crate::calc::proportional_spec(lamports, basis_points, MAX_BASIS_POINTS as int)
}

impl Fee {
    /// A validated fee stays within one whole.
    pub open spec fn is_valid(&self) -> bool {
        self.basis_points <= MAX_BASIS_POINTS
    }

    pub fn from_basis_points(basis_points: u32) -> (r: Fee)
        ensures
            r.basis_points == basis_points,
    {
        Fee { basis_points }
    }

    pub fn check(&self) -> (r: Result<(), StakingError>)
        ensures
            r is Ok <==> self.is_valid(),
            r is Err ==> r == Err::<(), StakingError>(StakingError::BasisPointCentsOverflow),
    {
        if self.basis_points > MAX_BASIS_POINTS {
            Err(StakingError::BasisPointCentsOverflow)
        } else {
            Ok(())
        }
    }

    /// Take this fee out of `lamports`; a valid fee never returns more than
    /// `lamports`.
    pub fn apply(&self, lamports: u64) -> (r: u64)
        requires
            self.is_valid(),
        ensures
            r == fee_apply_spec(self.basis_points as int, lamports as int),
            r <= lamports,
    {
        proof {
            lemma_fee_apply_bounded(self.basis_points as int, lamports as int);
        }
        ((lamports as u128) * (self.basis_points as u128) / (MAX_BASIS_POINTS as u128)) as u64
    }
}

/// A fee of at most one whole takes at most the whole amount.
pub proof fn lemma_fee_apply_bounded(basis_points: int, lamports: int)
    requires
        0 <= basis_points <= MAX_BASIS_POINTS,
        0 <= lamports,
    ensures
        0 <= fee_apply_spec(basis_points, lamports) <= lamports,
{
    crate::calc::lemma_proportional_le_amount(lamports, basis_points, MAX_BASIS_POINTS as int);
}

} // verus!
