//! Account addresses as plain values.
//!
//! The host chain identifies every account by a 256-bit address.  The
//! accounting core only ever stores addresses and compares them for
//! equality; deriving them (hashing seeds) is the host side's job.  The
//! address is held as two 128-bit halves so that equality is a plain
//! field-by-field comparison.

use vstd::prelude::*;

verus! {

/// A 256-bit account address, split into a high and a low half.
#[derive(Clone, Copy, Debug, PartialEq, Eq, Structural)]
pub struct Pubkey {
    pub hi: u128,
    pub lo: u128,
}

impl Pubkey {
    /// The all-zero address, used as a placeholder in reserved fields.
    pub fn zeroed() -> (r: Pubkey)
        ensures
            r.hi == 0 && r.lo == 0,
    {
        Pubkey { hi: 0, lo: 0 }
    }
}

} // verus!
