//! Settlement engine for two financial primitives over a shared value ledger:
//! a two-party wagering escrow ("duel") and a binary-outcome automated market
//! maker ("pool") priced by a constant-product curve with virtual liquidity.
//!
//! The engine is pure state-transition logic: every operation validates its
//! inputs, computes amounts, and commits the new state, returning a structured
//! event describing the value movements the host must perform. The host
//! supplies the external collaborators (the ledger transfer primitive, the
//! monotonic clock, and caller identity) and performs the transfers named by
//! the returned events.

use vstd::prelude::*;

pub mod duel;
pub mod errors;
pub mod events;
pub mod math;
pub mod pool;
pub mod positions;

verus! {

/// Identity of a balance holder: a participant, an authority, or a
/// fee collector. The engine only ever compares addresses for equality;
/// the host decides what an address denotes.
#[derive(Clone, Copy, PartialEq, Eq, Structural, Debug)]
pub struct Address {
    pub value: u64,
}

} // verus!
