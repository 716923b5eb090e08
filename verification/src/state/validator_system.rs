//! The validator registry.
//!
//! Each delegated validator is one record: its vote identity, the stake
//! currently delegated to it, its allocation score, and the epoch of its
//! last rebalance.  The registry keeps two running totals — the sum of all
//! scores and the sum of all delegated balances — and the well-formedness
//! invariant ties both totals to the records at all times.  Stake is
//! allocated to a validator in proportion to its share of the total score.

use vstd::prelude::*;

use crate::calc::{proportional, proportional_spec};
use crate::error::StakingError;
use crate::pubkey::Pubkey;
use super::list::{capacity_spec, List};

verus! {

/// Serialized byte width of one validator record.
pub const VALIDATOR_RECORD_LEN: u32 = 53;

#[derive(Clone, Copy, Debug, PartialEq, Eq, Structural)]
pub struct ValidatorRecord {
    /// Vote identity of the validator.
    pub validator_account: Pubkey,
    /// Stake currently delegated to this validator, in lamports.
    pub active_balance: u64,
    /// Allocation score; stake targets are proportional to it.
    pub score: u32,
    /// Epoch of the last stake-delta run that touched this validator.
    pub last_stake_delta_epoch: u64,
    /// Bump seed of the validator's one-time uniqueness sentinel.
    pub duplication_flag_bump_seed: u8,
}

impl ValidatorRecord {
    /// A freshly admitted validator: no balance yet, never rebalanced.
    pub fn new(validator_account: Pubkey, score: u32, duplication_flag_bump_seed: u8) -> (r:
        ValidatorRecord)
        ensures
            r.validator_account == validator_account,
            r.active_balance == 0,
            r.score == score,
            r.last_stake_delta_epoch == u64::MAX,
            r.duplication_flag_bump_seed == duplication_flag_bump_seed,
    {
        ValidatorRecord {
            validator_account,
            active_balance: 0,
            score,
            last_stake_delta_epoch: u64::MAX,
            duplication_flag_bump_seed,
        }
    }
}

/// Sum of the scores of a sequence of records.
pub open spec fn sum_scores(s: Seq<ValidatorRecord>) -> int
    decreases s.len(),
{
    if s.len() == 0 {
        0
    } else {
        sum_scores(s.drop_last()) + s.last().score
    }
}

/// Sum of the delegated balances of a sequence of records.
pub open spec fn sum_balances(s: Seq<ValidatorRecord>) -> int
    decreases s.len(),
{
    if s.len() == 0 {
        0
    } else {
        sum_balances(s.drop_last()) + s.last().active_balance
    }
}

pub proof fn lemma_sums_nonneg(s: Seq<ValidatorRecord>)
    ensures
        sum_scores(s) >= 0,
        sum_balances(s) >= 0,
    decreases s.len(),
{
    if s.len() > 0 {
        lemma_sums_nonneg(s.drop_last());
    }
}

/// Appending a record adds its score and balance to the sums.
pub proof fn lemma_sum_push(s: Seq<ValidatorRecord>, x: ValidatorRecord)
    ensures
        sum_scores(s.push(x)) == sum_scores(s) + x.score,
        sum_balances(s.push(x)) == sum_balances(s) + x.active_balance,
{
    assert(s.push(x).drop_last() =~= s);
    assert(s.push(x).last() == x);
}

/// Overwriting one record moves the sums by the difference of the old and
/// new record.
pub proof fn lemma_sum_update(s: Seq<ValidatorRecord>, i: int, x: ValidatorRecord)
    requires
        0 <= i < s.len(),
    ensures
        sum_scores(s.update(i, x)) == sum_scores(s) - s[i].score + x.score,
        sum_balances(s.update(i, x)) == sum_balances(s) - s[i].active_balance
            + x.active_balance,
    decreases s.len(),
{
    let t = s.update(i, x);
    if i == s.len() - 1 {
        assert(t.drop_last() =~= s.drop_last());
        assert(t.last() == x);
    } else {
        assert(t.drop_last() =~= s.drop_last().update(i, x));
        assert(t.last() == s.last());
        lemma_sum_update(s.drop_last(), i, x);
        assert(s.drop_last()[i] == s[i]);
    }
}

/// Swap-removing the record at `i` takes exactly its score and balance out
/// of the sums.
pub proof fn lemma_sum_swap_remove(s: Seq<ValidatorRecord>, i: int)
    requires
        0 <= i < s.len(),
    ensures
        sum_scores(s.update(i, s.last()).drop_last()) == sum_scores(s) - s[i].score,
        sum_balances(s.update(i, s.last()).drop_last()) == sum_balances(s)
            - s[i].active_balance,
{
    let u = s.update(i, s.last());
    lemma_sum_update(s, i, s.last());
    assert(u.last() == s.last());
    assert(sum_scores(u) == sum_scores(u.drop_last()) + u.last().score);
    assert(sum_balances(u) == sum_balances(u.drop_last()) + u.last().active_balance);
}

/// No record's score or balance exceeds the respective sum.
pub proof fn lemma_sum_element_bound(s: Seq<ValidatorRecord>, i: int)
    requires
        0 <= i < s.len(),
    ensures
        s[i].score <= sum_scores(s),
        s[i].active_balance <= sum_balances(s),
    decreases s.len(),
{
    lemma_sums_nonneg(s.drop_last());
    if i < s.len() - 1 {
        lemma_sum_element_bound(s.drop_last(), i);
        assert(s.drop_last()[i] == s[i]);
    }
}

pub struct ValidatorSystem {
    /// The records, in a growable list backed by its own region.
    pub validator_list: List<ValidatorRecord>,
    /// Authority allowed to manage the registry.
    pub manager_authority: Pubkey,
    /// Sum of all records' scores.
    pub total_validator_score: u32,
    /// Sum of all records' delegated balances, in lamports.
    pub total_active_balance: u64,
}

impl ValidatorSystem {
    /// The registry's running totals agree with its records.
    pub open spec fn wf(&self) -> bool {
        &&& self.validator_list.wf()
        &&& self.total_validator_score == sum_scores(self.validator_list@)
        &&& self.total_active_balance == sum_balances(self.validator_list@)
    }

    pub fn new(
        validator_list_account: Pubkey,
        manager_authority: Pubkey,
        additional_record_space: u32,
    ) -> (r: Result<ValidatorSystem, StakingError>)
        ensures
            r is Ok <==> VALIDATOR_RECORD_LEN + additional_record_space <= u32::MAX,
            r matches Ok(v) ==> v.wf() && v.validator_list@ == Seq::<ValidatorRecord>::empty()
                && v.validator_list.item_size == VALIDATOR_RECORD_LEN + additional_record_space
                && v.validator_list.account == validator_list_account && v.manager_authority
                == manager_authority && v.total_validator_score == 0 && v.total_active_balance
                == 0,
            r is Err ==> r == Err::<ValidatorSystem, StakingError>(StakingError::MathOverflow),
    {
        let item_size = match VALIDATOR_RECORD_LEN.checked_add(additional_record_space) {
            Some(n) => n,
            None => {
                return Err(StakingError::MathOverflow);
            },
        };
        Ok(
            ValidatorSystem {
                validator_list: List::new(item_size, validator_list_account),
                manager_authority,
                total_validator_score: 0,
                total_active_balance: 0,
            },
        )
    }

    /// Admit a validator: append a zero-balance record and add its score to
    /// the total.  The identity's uniqueness sentinel is created by the
    /// host before this is called.
    pub fn add(
        &mut self,
        validator_list_len: usize,
        validator_account: Pubkey,
        score: u32,
        duplication_flag_bump_seed: u8,
    ) -> (r: Result<(), StakingError>)
        requires
            old(self).wf(),
        ensures
            final(self).wf(),
            final(self).manager_authority == old(self).manager_authority,
            final(self).validator_list.item_size == old(self).validator_list.item_size,
            final(self).validator_list.account == old(self).validator_list.account,
            r is Ok <==> super::list::HEADER_BYTES <= validator_list_len && validator_list_len
                - super::list::HEADER_BYTES <= u32::MAX && old(self).validator_list.count
                < capacity_spec(
                old(self).validator_list.item_size as int,
                validator_list_len as int,
            ) && old(self).total_validator_score + score <= u32::MAX,
            r is Ok ==> {
                let rec = (ValidatorRecord {
                    validator_account,
                    active_balance: 0,
                    score,
                    last_stake_delta_epoch: u64::MAX,
                    duplication_flag_bump_seed,
                });
                &&& final(self).validator_list@ == old(self).validator_list@.push(rec)
                &&& final(self).total_validator_score == old(self).total_validator_score + score
                &&& final(self).total_active_balance == old(self).total_active_balance
            },
            r is Err ==> *final(self) == *old(self),
            r matches Err(e) ==> (e == StakingError::AccountDataTooSmall || e
                == StakingError::CalculationFailure || e == StakingError::ListOverflow || e
                == StakingError::MathOverflow),
    {
        let new_total = match self.total_validator_score.checked_add(score) {
            Some(n) => n,
            None => {
                return Err(StakingError::MathOverflow);
            },
        };
        let record = ValidatorRecord::new(validator_account, score, duplication_flag_bump_seed);
        match self.validator_list.push(validator_list_len, record) {
            Ok(()) => {},
            Err(e) => {
                return Err(e);
            },
        }
        proof {
            lemma_sum_push(old(self).validator_list@, record);
        }
        self.total_validator_score = new_total;
        Ok(())
    }

    pub fn get(&self, index: u32) -> (r: Result<ValidatorRecord, StakingError>)
        requires
            self.validator_list.wf(),
        ensures
            index < self.validator_list.count ==> r == Ok::<ValidatorRecord, StakingError>(
                self.validator_list@[index as int],
            ),
            index >= self.validator_list.count ==> r == Err::<ValidatorRecord, StakingError>(
                StakingError::ListIndexOutOfBounds,
            ),
    {
        self.validator_list.get(index)
    }

    /// Fetch the record at `index` and fail unless it is the validator the
    /// caller meant: a defence against stale indices.
    pub fn get_checked(&self, index: u32, received_pubkey: Pubkey) -> (r: Result<
        ValidatorRecord,
        StakingError,
    >)
        requires
            self.validator_list.wf(),
        ensures
            r is Ok <==> index < self.validator_list.count && self.validator_list@[
                index as int
            ].validator_account == received_pubkey,
            r matches Ok(v) ==> v == self.validator_list@[index as int],
            index >= self.validator_list.count ==> r == Err::<ValidatorRecord, StakingError>(
                StakingError::ListIndexOutOfBounds,
            ),
            index < self.validator_list.count && self.validator_list@[
                index as int
            ].validator_account != received_pubkey ==> r == Err::<ValidatorRecord, StakingError>(
                StakingError::WrongValidatorAccountOrIndex,
            ),
    {
        let record = match self.get(index) {
            Ok(v) => v,
            Err(e) => {
                return Err(e);
            },
        };
        if record.validator_account != received_pubkey {
            return Err(StakingError::WrongValidatorAccountOrIndex);
        }
        Ok(record)
    }

    /// Overwrite the record at `index` without touching the running
    /// totals; callers adjust them in the same step.
    pub fn set(&mut self, index: u32, record: ValidatorRecord) -> (r: Result<(), StakingError>)
        requires
            old(self).validator_list.wf(),
        ensures
            final(self).validator_list.wf(),
            final(self).manager_authority == old(self).manager_authority,
            final(self).total_validator_score == old(self).total_validator_score,
            final(self).total_active_balance == old(self).total_active_balance,
            final(self).validator_list.item_size == old(self).validator_list.item_size,
            final(self).validator_list.account == old(self).validator_list.account,
            final(self).validator_list.count == old(self).validator_list.count,
            r is Ok <==> index < old(self).validator_list.count,
            r is Ok ==> final(self).validator_list@ == old(self).validator_list@.update(
                index as int,
                record,
            ),
            r is Err ==> *final(self) == *old(self) && r == Err::<(), StakingError>(
                StakingError::ListIndexOutOfBounds,
            ),
    {
        self.validator_list.set(index, record)
    }

    /// Retire the record at `index`.  The caller passes the record it
    /// fetched for this index; a validator still carrying stake cannot be
    /// removed.  Its score leaves the total; the list swap-removes.
    pub fn remove(&mut self, index: u32, record: ValidatorRecord) -> (r: Result<
        (),
        StakingError,
    >)
        requires
            old(self).wf(),
            index < old(self).validator_list.count ==> record == old(self).validator_list@[
                index as int
            ],
        ensures
            final(self).wf(),
            final(self).manager_authority == old(self).manager_authority,
            final(self).validator_list.item_size == old(self).validator_list.item_size,
            final(self).validator_list.account == old(self).validator_list.account,
            r is Ok <==> record.active_balance == 0 && index < old(self).validator_list.count,
            record.active_balance != 0 ==> r == Err::<(), StakingError>(
                StakingError::RemovingValidatorWithBalance,
            ),
            record.active_balance == 0 && index >= old(self).validator_list.count ==> r == Err::<
                (),
                StakingError,
            >(StakingError::ListIndexOutOfBounds),
            r is Ok ==> {
                &&& final(self).validator_list@ == old(self).validator_list@.update(
                    index as int,
                    old(self).validator_list@.last(),
                ).drop_last()
                &&& final(self).total_validator_score == old(self).total_validator_score
                    - record.score
                &&& final(self).total_active_balance == old(self).total_active_balance
            },
            r is Err ==> *final(self) == *old(self),
    {
        if record.active_balance != 0 {
            return Err(StakingError::RemovingValidatorWithBalance);
        }
        if index >= self.validator_list.count {
            return Err(StakingError::ListIndexOutOfBounds);
        }
        proof {
            lemma_sum_element_bound(self.validator_list@, index as int);
            lemma_sum_swap_remove(self.validator_list@, index as int);
        }
        self.total_validator_score = self.total_validator_score - record.score;
        match self.validator_list.remove(index) {
            Ok(()) => Ok(()),
            Err(e) => Err(e),
        }
    }

    /// The stake this validator should hold after distributing
    /// `total_stake_target` over the registry: its score-weighted share.
    pub fn validator_stake_target(&self, record: &ValidatorRecord, total_stake_target: u64) -> (r:
        Result<u64, StakingError>)
        ensures
            r is Ok <==> proportional_spec(
                total_stake_target as int,
                record.score as int,
                self.total_validator_score as int,
            ) <= u64::MAX,
            r matches Ok(v) ==> v == proportional_spec(
                total_stake_target as int,
                record.score as int,
                self.total_validator_score as int,
            ),
            r is Err ==> r == Err::<u64, StakingError>(StakingError::CalculationFailure),
    {
        proportional(total_stake_target, record.score as u64, self.total_validator_score as u64)
    }

    /// A registry region may only be regrown to a capacity that still
    /// holds the live records.
    pub fn check_realloc_capacity(&self, capacity: u32) -> (r: Result<(), StakingError>)
        ensures
            r is Ok <==> capacity >= self.validator_list.count,
            r is Err ==> r == Err::<(), StakingError>(
                StakingError::ShrinkingListWithDeletingContents,
            ),
    {
        if capacity < self.validator_list.count {
            Err(StakingError::ShrinkingListWithDeletingContents)
        } else {
            Ok(())
        }
    }
}

} // verus!
