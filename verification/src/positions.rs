//! The position ledger's unit of storage: one user's outstanding YES/NO
//! share balances in one pool.
//!
//! Positions are virtual claims, not transfer-backed balances: they are
//! created lazily by the first buy, increased only by buys, decreased only by
//! sells, and zeroed by a claim. The host stores one record per
//! `(user, pool)` pair; the engine receives the caller's record by mutable
//! reference and never lets a balance go below zero.

use vstd::prelude::*;

use crate::Address;

verus! {

/// One user's YES/NO share balances in one pool. A record whose `pool_id` is
/// zero is blank: it has never been written by a buy, and the first buy
/// claims it by filling in `user` and `pool_id`.
#[derive(Clone, Copy, PartialEq, Eq, Structural, Debug)]
pub struct UserPosition {
    pub user: Address,
    pub pool_id: u64,
    pub yes_tokens: u64,
    pub no_tokens: u64,
}

impl UserPosition {
    /// A blank record, as the host materialises one for a `(user, pool)`
    /// pair that has never traded.
    pub fn blank() -> (r: UserPosition)
        ensures
            r == (UserPosition {
                user: Address { value: 0 },
                pool_id: 0,
                yes_tokens: 0,
                no_tokens: 0,
            }),
    {
        UserPosition { user: Address { value: 0 }, pool_id: 0, yes_tokens: 0, no_tokens: 0 }
    }

    /// Whether this record may stand for `user`'s position in pool
    /// `pool_id`: either it is blank, or it already belongs to that pair.
    pub open spec fn belongs_to(self, user: Address, pool_id: u64) -> bool {
        self.pool_id == 0 || (self.user == user && self.pool_id == pool_id)
    }
}

} // verus!
