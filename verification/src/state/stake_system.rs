//! The stake allocation ledger.
//!
//! Every active delegation is one record: the stake account that carries
//! it, the delegated amount as last observed, the epoch of that
//! observation, and an emergency-unstake flag.  The ledger also keeps the
//! per-epoch rebalance bookkeeping: the tail window of slots in which a
//! stake delta may run, the last epoch a delta ran, the minimum delegation
//! worth moving, and a bounded budget of extra runs per epoch.

use vstd::prelude::*;

use crate::error::StakingError;
use crate::pubkey::Pubkey;
use super::list::{capacity_spec, List};

verus! {

/// Serialized byte width of one stake record.
pub const STAKE_RECORD_LEN: u32 = 49;

/// Smallest allowed tail window, in slots, for stake-delta runs.
pub const MIN_UPDATE_WINDOW: u64 = 3_000;

#[derive(Clone, Copy, Debug, PartialEq, Eq, Structural)]
pub struct StakeRecord {
    /// The stake account holding this delegation.
    pub stake_account: Pubkey,
    /// Delegated lamports as of the last update.
    pub last_update_delegated_lamports: u64,
    /// Epoch of the last update.
    pub last_update_epoch: u64,
    /// Non-zero while an emergency unstake is cooling down.
    pub is_emergency_unstaking: u8,
}

impl StakeRecord {
    pub fn new(
        stake_account: Pubkey,
        delegated_lamports: u64,
        epoch: u64,
        is_emergency_unstaking: u8,
    ) -> (r: StakeRecord)
        ensures
            r.stake_account == stake_account,
            r.last_update_delegated_lamports == delegated_lamports,
            r.last_update_epoch == epoch,
            r.is_emergency_unstaking == is_emergency_unstaking,
    {
        StakeRecord {
            stake_account,
            last_update_delegated_lamports: delegated_lamports,
            last_update_epoch: epoch,
            is_emergency_unstaking,
        }
    }
}

pub struct StakeSystem {
    /// The delegation records, in a growable list backed by its own region.
    pub stake_list: List<StakeRecord>,
    /// Bump seed of the stake-deposit authority.
    pub stake_deposit_bump_seed: u8,
    /// Bump seed of the stake-withdraw authority.
    pub stake_withdraw_bump_seed: u8,
    /// Width, in slots, of the end-of-epoch window in which deltas run.
    pub slots_for_stake_delta: u64,
    /// Last epoch in which a stake delta ran.
    pub last_stake_delta_epoch: u64,
    /// Smallest delegation worth creating or topping up.
    pub min_stake: u64,
    /// Remaining budget of repeat delta runs within one epoch.
    pub extra_stake_delta_runs: u32,
}

impl StakeSystem {
    pub open spec fn wf(&self) -> bool {
        self.stake_list.wf()
    }

    pub fn new(
        stake_list_account: Pubkey,
        slots_for_stake_delta: u64,
        min_stake: u64,
        extra_stake_delta_runs: u32,
        additional_stake_record_space: u32,
        stake_deposit_bump_seed: u8,
        stake_withdraw_bump_seed: u8,
    ) -> (r: Result<StakeSystem, StakingError>)
        ensures
            r is Ok <==> STAKE_RECORD_LEN + additional_stake_record_space <= u32::MAX,
            r matches Ok(v) ==> {
                &&& v.wf()
                &&& v.stake_list@ == Seq::<StakeRecord>::empty()
                &&& v.stake_list.item_size == STAKE_RECORD_LEN + additional_stake_record_space
                &&& v.stake_list.account == stake_list_account
                &&& v.slots_for_stake_delta == slots_for_stake_delta
                &&& v.last_stake_delta_epoch == u64::MAX
                &&& v.min_stake == min_stake
                &&& v.extra_stake_delta_runs == extra_stake_delta_runs
                &&& v.stake_deposit_bump_seed == stake_deposit_bump_seed
                &&& v.stake_withdraw_bump_seed == stake_withdraw_bump_seed
            },
            r is Err ==> r == Err::<StakeSystem, StakingError>(StakingError::MathOverflow),
    {
        let item_size = match STAKE_RECORD_LEN.checked_add(additional_stake_record_space) {
            Some(n) => n,
            None => {
                return Err(StakingError::MathOverflow);
            },
        };
        Ok(
            StakeSystem {
                stake_list: List::new(item_size, stake_list_account),
                stake_deposit_bump_seed,
                stake_withdraw_bump_seed,
                slots_for_stake_delta,
                last_stake_delta_epoch: u64::MAX,
                min_stake,
                extra_stake_delta_runs,
            },
        )
    }

    /// Record a freshly delegated stake account.
    pub fn add(
        &mut self,
        stake_list_len: usize,
        stake_account: Pubkey,
        delegated_lamports: u64,
        epoch: u64,
        is_emergency_unstaking: u8,
    ) -> (r: Result<(), StakingError>)
        requires
            old(self).wf(),
        ensures
            final(self).wf(),
            r is Ok <==> super::list::HEADER_BYTES <= stake_list_len && stake_list_len
                - super::list::HEADER_BYTES <= u32::MAX && old(self).stake_list.count
                < capacity_spec(old(self).stake_list.item_size as int, stake_list_len as int),
            r is Ok ==> {
                let rec = (StakeRecord {
                    stake_account,
                    last_update_delegated_lamports: delegated_lamports,
                    last_update_epoch: epoch,
                    is_emergency_unstaking,
                });
                &&& final(self).stake_list@ == old(self).stake_list@.push(rec)
                &&& final(self).stake_list.count == old(self).stake_list.count + 1
                &&& *final(self) == (StakeSystem {
                    stake_list: final(self).stake_list,
                    ..*old(self)
                })
            },
            r is Err ==> *final(self) == *old(self),
            stake_list_len < super::list::HEADER_BYTES ==> r == Err::<(), StakingError>(
                StakingError::AccountDataTooSmall,
            ),
            super::list::HEADER_BYTES <= stake_list_len && stake_list_len
                - super::list::HEADER_BYTES > u32::MAX ==> r == Err::<(), StakingError>(
                StakingError::CalculationFailure,
            ),
            super::list::HEADER_BYTES <= stake_list_len && stake_list_len
                - super::list::HEADER_BYTES <= u32::MAX && old(self).stake_list.count
                >= capacity_spec(
                old(self).stake_list.item_size as int,
                stake_list_len as int,
            ) ==> r == Err::<(), StakingError>(StakingError::ListOverflow),
    {
        let record = StakeRecord::new(stake_account, delegated_lamports, epoch, is_emergency_unstaking);
        self.stake_list.push(stake_list_len, record)
    }

    pub fn get(&self, index: u32) -> (r: Result<StakeRecord, StakingError>)
        requires
            self.wf(),
        ensures
            index < self.stake_list.count ==> r == Ok::<StakeRecord, StakingError>(
                self.stake_list@[index as int],
            ),
            index >= self.stake_list.count ==> r == Err::<StakeRecord, StakingError>(
                StakingError::ListIndexOutOfBounds,
            ),
    {
        self.stake_list.get(index)
    }

    /// Fetch the record at `index` and fail unless it is the stake account
    /// the caller meant: a defence against stale indices.
    pub fn get_checked(&self, index: u32, received_pubkey: Pubkey) -> (r: Result<
        StakeRecord,
        StakingError,
    >)
        requires
            self.wf(),
        ensures
            r is Ok <==> index < self.stake_list.count && self.stake_list@[
                index as int
            ].stake_account == received_pubkey,
            r matches Ok(v) ==> v == self.stake_list@[index as int],
            index >= self.stake_list.count ==> r == Err::<StakeRecord, StakingError>(
                StakingError::ListIndexOutOfBounds,
            ),
            index < self.stake_list.count && self.stake_list@[index as int].stake_account
                != received_pubkey ==> r == Err::<StakeRecord, StakingError>(
                StakingError::WrongStakeAccountOrIndex,
            ),
    {
        let record = match self.get(index) {
            Ok(v) => v,
            Err(e) => {
                return Err(e);
            },
        };
        if record.stake_account != received_pubkey {
            return Err(StakingError::WrongStakeAccountOrIndex);
        }
        Ok(record)
    }
}

} // verus!
