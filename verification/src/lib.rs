//! Accounting core of a liquid-staking pool.
//!
//! The library converts deposits of the native chain asset into a derivative
//! receipt token, tracks the pool-wide exchange rate between the two,
//! distributes pooled capital across scored validators, and runs a two-asset
//! liquidity pool with a dynamically priced exit fee.  All arithmetic is
//! fixed-width with strict overflow rejection, and every state mutation is
//! specified and verified.  The surrounding transaction plumbing (account
//! loading, signature checks, cross-program value transfers) lives outside
//! this crate and talks to it through plain values.

pub mod calc;
pub mod checks;
pub mod error;
pub mod pubkey;
pub mod state;
