//! Structured records of every successful state transition.
//!
//! Each operation returns exactly one of these on success. They exist for
//! external observers (indexers, the host's transfer loop) and are never
//! consumed by the engine itself; their amount fields name precisely the
//! transfers the host owes once the operation commits.

use vstd::prelude::*;

use crate::pool::Outcome;
use crate::pool::PoolStatus;
use crate::Address;

verus! {

/// A duel was created and player 1's stake of `amount` is owed to the vault.
#[derive(Clone, Copy, PartialEq, Eq, Structural, Debug)]
pub struct DuelCreated {
    pub duel_id: u64,
    pub player_1: Address,
    pub amount: u64,
    pub prediction: u8,
}

/// Player 2 joined and owes a matching stake to the vault.
#[derive(Clone, Copy, PartialEq, Eq, Structural, Debug)]
pub struct DuelJoined {
    pub duel_id: u64,
    pub player_2: Address,
    pub prediction: u8,
}

/// The duel went live at `entry_price`.
#[derive(Clone, Copy, PartialEq, Eq, Structural, Debug)]
pub struct DuelStarted {
    pub duel_id: u64,
    pub entry_price: u64,
    pub started_at: i64,
}

/// The duel settled: the vault owes `fee` to the fee collector and `payout`
/// to `winner`, in that order.
#[derive(Clone, Copy, PartialEq, Eq, Structural, Debug)]
pub struct DuelResolved {
    pub duel_id: u64,
    pub winner: Address,
    pub exit_price: u64,
    pub payout: u64,
    pub fee: u64,
}

/// The duel was cancelled before an opponent joined; the vault owes
/// `refund_amount` back to player 1.
#[derive(Clone, Copy, PartialEq, Eq, Structural, Debug)]
pub struct DuelCancelled {
    pub duel_id: u64,
    pub refund_amount: u64,
}

/// A pool was created; `authority` owes `initial_liquidity` to the pool vault.
#[derive(Clone, PartialEq, Eq, Debug)]
pub struct PoolCreated {
    pub pool_id: u64,
    pub authority: Address,
    pub question: String,
    pub resolution_time: i64,
    pub initial_liquidity: u64,
}

/// A buy: `user` owes `amount_paid` to the pool vault and was credited
/// `tokens_received` position shares on `outcome`; `fee` was skimmed from the
/// gross share output.
#[derive(Clone, Copy, PartialEq, Eq, Structural, Debug)]
pub struct OutcomePurchased {
    pub pool_id: u64,
    pub user: Address,
    pub outcome: Outcome,
    pub amount_paid: u64,
    pub tokens_received: u64,
    pub fee: u64,
}

/// A sell: `user` gave up `tokens_sold` shares on `outcome` and the pool
/// vault owes them `sol_received`; `fee` was skimmed from the gross value.
#[derive(Clone, Copy, PartialEq, Eq, Structural, Debug)]
pub struct OutcomeSold {
    pub pool_id: u64,
    pub user: Address,
    pub outcome: Outcome,
    pub tokens_sold: u64,
    pub sol_received: u64,
    pub fee: u64,
}

/// The pool's outcome was recorded.
#[derive(Clone, Copy, PartialEq, Eq, Structural, Debug)]
pub struct PoolResolved {
    pub pool_id: u64,
    pub outcome: Outcome,
}

/// A claim: the pool vault owes `amount` to `user`, whose position was
/// zeroed.
#[derive(Clone, Copy, PartialEq, Eq, Structural, Debug)]
pub struct WinningsClaimed {
    pub pool_id: u64,
    pub user: Address,
    pub amount: u64,
}

/// The authority overrode the pool's status.
#[derive(Clone, Copy, PartialEq, Eq, Structural, Debug)]
pub struct PoolStatusUpdated {
    pub pool_id: u64,
    pub new_status: PoolStatus,
}

} // verus!
