//! Growable record lists.
//!
//! Validator and stake bookkeeping live in flat lists of fixed-width
//! records stored inside one growable backing region.  The region starts
//! with an 8-byte type tag, so a region of `account_len` bytes holds at
//! most `(account_len - 8) / item_size` records; the capacity is derived
//! from the live region length on every call, never stored, so growing the
//! region grows the list without a migration.  Removal swaps the last
//! record into the vacated slot: record order is not preserved, and
//! callers identify records by key, not by position.
//!
//! The list here is the typed model of that region: a sequence of records
//! plus the header fields, with the exact capacity formula.  Reading and
//! writing the raw bytes of the region is the host side's job.

use vstd::prelude::*;

use crate::error::StakingError;
use crate::pubkey::Pubkey;

verus! {

/// Byte length of the type tag that precedes the records.
pub const HEADER_BYTES: usize = 8;

pub struct List<I> {
    /// Address of the backing region.
    pub account: Pubkey,
    /// Serialized byte width of one record.
    pub item_size: u32,
    /// Number of live records.
    pub count: u32,
    /// The live records, in slot order.
    pub items: Vec<I>,
}

/// Records that fit in a region of `account_len` bytes: the region minus
/// the tag, divided by the record width.  A zero width means the header is
/// unconstrained and capacity is unbounded (saturated to `u32::MAX`).
pub open spec fn capacity_spec(item_size: int, account_len: int) -> int {
    if item_size == 0 {
        u32::MAX as int
    } else {
        (account_len - HEADER_BYTES) / item_size
    }
}

impl<I> View for List<I> {
    type V = Seq<I>;

    closed spec fn view(&self) -> Seq<I> {
        self.items@
    }
}

impl<I: Copy> List<I> {
    /// The header's record count matches the records actually held.
    pub open spec fn wf(&self) -> bool {
        self.count == self@.len()
    }

    pub fn new(item_size: u32, account: Pubkey) -> (r: List<I>)
        ensures
            r.wf(),
            r@ == Seq::<I>::empty(),
            r.item_size == item_size,
            r.count == 0,
            r.account == account,
    {
        List { account, item_size, count: 0, items: Vec::new() }
    }

    pub fn capacity(&self, account_len: usize) -> (r: Result<u32, StakingError>)
        ensures
            r is Ok <==> HEADER_BYTES <= account_len && account_len - HEADER_BYTES
                <= u32::MAX,
            r matches Ok(c) ==> c == capacity_spec(self.item_size as int, account_len as int),
            account_len < HEADER_BYTES ==> r == Err::<u32, StakingError>(
                StakingError::AccountDataTooSmall,
            ),
            HEADER_BYTES <= account_len && account_len - HEADER_BYTES > u32::MAX ==> r
                == Err::<u32, StakingError>(StakingError::CalculationFailure),
    {
        if account_len < HEADER_BYTES {
            return Err(StakingError::AccountDataTooSmall);
        }
        let avail: usize = account_len - HEADER_BYTES;
        if avail > u32::MAX as usize {
            return Err(StakingError::CalculationFailure);
        }
        if self.item_size == 0 {
            Ok(u32::MAX)
        } else {
            Ok(avail as u32 / self.item_size)
        }
    }

    /// Append a record, failing with `ListOverflow` when the region is
    /// already full.  On failure nothing changes.
    pub fn push(&mut self, account_len: usize, item: I) -> (r: Result<(), StakingError>)
        requires
            old(self).wf(),
        ensures
            final(self).wf(),
            final(self).item_size == old(self).item_size,
            final(self).account == old(self).account,
            r is Ok <==> HEADER_BYTES <= account_len && account_len - HEADER_BYTES <= u32::MAX
                && old(self).count < capacity_spec(
                old(self).item_size as int,
                account_len as int,
            ),
            r is Ok ==> final(self)@ == old(self)@.push(item) && final(self).count == old(
                self,
            ).count + 1,
            r is Err ==> *final(self) == *old(self),
            account_len < HEADER_BYTES ==> r == Err::<(), StakingError>(
                StakingError::AccountDataTooSmall,
            ),
            HEADER_BYTES <= account_len && account_len - HEADER_BYTES > u32::MAX ==> r == Err::<
                (),
                StakingError,
            >(StakingError::CalculationFailure),
            HEADER_BYTES <= account_len && account_len - HEADER_BYTES <= u32::MAX && old(
                self,
            ).count >= capacity_spec(old(self).item_size as int, account_len as int) ==> r
                == Err::<(), StakingError>(StakingError::ListOverflow),
    {
        let capacity = match self.capacity(account_len) {
            Ok(c) => c,
            Err(e) => {
                return Err(e);
            },
        };
        if self.count >= capacity {
            return Err(StakingError::ListOverflow);
        }
        self.items.push(item);
        self.count = self.count + 1;
        Ok(())
    }

    /// Read the record at `index`, failing with `ListIndexOutOfBounds`
    /// past the live records.
    pub fn get(&self, index: u32) -> (r: Result<I, StakingError>)
        requires
            self.wf(),
        ensures
            index < self.count ==> r == Ok::<I, StakingError>(self@[index as int]),
            index >= self.count ==> r == Err::<I, StakingError>(
                StakingError::ListIndexOutOfBounds,
            ),
    {
        if index >= self.count {
            return Err(StakingError::ListIndexOutOfBounds);
        }
        Ok(self.items[index as usize])
    }

    /// Overwrite the record at `index`, failing with
    /// `ListIndexOutOfBounds` past the live records.  On failure nothing
    /// changes.
    pub fn set(&mut self, index: u32, item: I) -> (r: Result<(), StakingError>)
        requires
            old(self).wf(),
        ensures
            final(self).wf(),
            final(self).item_size == old(self).item_size,
            final(self).account == old(self).account,
            final(self).count == old(self).count,
            index < old(self).count ==> r is Ok && final(self)@ == old(self)@.update(
                index as int,
                item,
            ),
            index >= old(self).count ==> r == Err::<(), StakingError>(
                StakingError::ListIndexOutOfBounds,
            ) && *final(self) == *old(self),
    {
        if index >= self.count {
            return Err(StakingError::ListIndexOutOfBounds);
        }
        self.items.remove(index as usize);
        self.items.insert(index as usize, item);
        proof {
            assert(self.items@ =~= old(self).items@.update(index as int, item));
        }
        Ok(())
    }

    /// Remove the record at `index` by moving the last live record into
    /// its slot.  Order is not preserved; the count drops by one.  On
    /// failure nothing changes.
    pub fn remove(&mut self, index: u32) -> (r: Result<(), StakingError>)
        requires
            old(self).wf(),
        ensures
            final(self).wf(),
            final(self).item_size == old(self).item_size,
            final(self).account == old(self).account,
            index < old(self).count ==> r is Ok && final(self).count == old(self).count - 1 &&
                final(self)@ == old(self)@.update(
                index as int,
                old(self)@.last(),
            ).drop_last(),
            index >= old(self).count ==> r == Err::<(), StakingError>(
                StakingError::ListIndexOutOfBounds,
            ) && *final(self) == *old(self),
    {
        if index >= self.count {
            return Err(StakingError::ListIndexOutOfBounds);
        }
        self.count = self.count - 1;
        if index == self.count {
            self.items.pop();
            proof {
                assert(self.items@ =~= old(self).items@.update(
                    index as int,
                    old(self).items@.last(),
                ).drop_last());
            }
            return Ok(());
        }
        self.items.swap_remove(index as usize);
        Ok(())
    }
}

} // verus!
