//! The duel escrow state machine: a two-party, fixed-stake, single-outcome
//! wager settled against a recorded price movement.
//!
//! Lifecycle: `WaitingForPlayer2 -> Countdown -> Active -> Resolved`, with
//! `WaitingForPlayer2 -> Cancelled` as the only other exit. `Resolved` and
//! `Cancelled` are terminal: every operation rejects them and leaves the
//! state unchanged. Each operation either commits the transition it names
//! and returns its event, or returns an error with no state change, so a
//! failure never leaves the escrow half-settled.

use vstd::prelude::*;

use crate::errors::PredictionMarketError;
use crate::events::{DuelCancelled, DuelCreated, DuelJoined, DuelResolved, DuelStarted};
use crate::math::{fee_amount, fee_spec, lemma_fee_le_amount, CANCEL_COOLDOWN, DUEL_FEE_BPS};
use crate::Address;

verus! {

/// Lifecycle state of a duel.
#[derive(Clone, Copy, PartialEq, Eq, Structural, Debug)]
pub enum DuelStatus {
    WaitingForPlayer2,
    Countdown,
    Active,
    Resolved,
    Cancelled,
}

/// One two-party wager. `amount` is the stake each player locks; predictions
/// encode the direction each player bet on (0 = price falls or stays, 1 =
/// price rises).
#[derive(Clone, Copy, PartialEq, Eq, Structural, Debug)]
pub struct Duel {
    pub duel_id: u64,
    pub player_1: Address,
    pub player_2: Option<Address>,
    pub amount: u64,
    pub player_1_prediction: u8,
    pub player_2_prediction: Option<u8>,
    pub entry_price: u64,
    pub exit_price: u64,
    pub winner: Option<Address>,
    pub status: DuelStatus,
    pub created_at: i64,
    pub started_at: Option<i64>,
    pub resolved_at: Option<i64>,
}

/// The resolution rule: player 1 wins exactly when their prediction matches
/// the direction of the price move, with an unchanged price counted as "not
/// up"; otherwise player 2 wins. This is the documented tie policy: on
/// `exit_price == entry_price` the player who predicted "down" wins.
pub open spec fn winner_is_player_1(player_1_prediction: u8, entry_price: u64, exit_price: u64) -> bool {
    if exit_price > entry_price {
        player_1_prediction == 1
    } else {
        player_1_prediction == 0
    }
}

/// The fee skimmed from a resolved duel's pot of `2 * amount`.
pub open spec fn duel_fee_spec(amount: int) -> int {
    fee_spec(2 * amount, DUEL_FEE_BPS as int)
}

/// The winner's payout: the pot minus the fee.
pub open spec fn duel_payout_spec(amount: int) -> int {
    2 * amount - duel_fee_spec(amount)
}

/// Which error, if any, `join_duel` reports, in the order the checks run.
pub open spec fn join_check(d: Duel, predicted_outcome: u8) -> Result<(), PredictionMarketError> {
    if predicted_outcome > 1 {
        Err(PredictionMarketError::InvalidOutcome)
    } else if d.status != DuelStatus::WaitingForPlayer2 {
        Err(PredictionMarketError::InvalidDuelStatus)
    } else if d.player_2 is Some {
        Err(PredictionMarketError::DuelAlreadyJoined)
    } else {
        Ok(())
    }
}

/// Which error, if any, `start_duel` reports.
pub open spec fn start_check(d: Duel, entry_price: u64) -> Result<(), PredictionMarketError> {
    if entry_price == 0 {
        Err(PredictionMarketError::InvalidPrice)
    } else if d.status != DuelStatus::Countdown {
        Err(PredictionMarketError::InvalidDuelStatus)
    } else {
        Ok(())
    }
}

/// Which error, if any, `resolve_duel` reports. The two overflow guards keep
/// the pot and the scaled fee product within 64 bits.
pub open spec fn resolve_check(d: Duel, exit_price: u64) -> Result<(), PredictionMarketError> {
    if exit_price == 0 {
        Err(PredictionMarketError::InvalidPrice)
    } else if d.status != DuelStatus::Active {
        Err(PredictionMarketError::InvalidDuelStatus)
    } else if 2 * d.amount > u64::MAX || 2 * d.amount * DUEL_FEE_BPS > u64::MAX {
        Err(PredictionMarketError::MathOverflow)
    } else {
        Ok(())
    }
}

/// Which error, if any, `cancel_duel` reports for `caller` at time `now`.
pub open spec fn cancel_check(d: Duel, caller: Address, now: i64) -> Result<(), PredictionMarketError> {
    if d.status != DuelStatus::WaitingForPlayer2 {
        Err(PredictionMarketError::InvalidDuelStatus)
    } else if caller != d.player_1 {
        Err(PredictionMarketError::Unauthorized)
    } else if now - d.created_at < CANCEL_COOLDOWN {
        Err(PredictionMarketError::CancelTooEarly)
    } else {
        Ok(())
    }
}

impl Duel {
    /// Well-formedness, established at creation and preserved by every
    /// operation: the stake is positive, predictions are direction bits,
    /// player 2 and their prediction are set together, the winner is set
    /// exactly in `Resolved`, and the fields recorded by each transition are
    /// present exactly from that transition on.
    pub open spec fn wf(self) -> bool {
        &&& self.amount > 0
        &&& self.player_1_prediction <= 1
        &&& 0 <= self.created_at
        &&& (self.player_2 is Some <==> self.player_2_prediction is Some)
        &&& (self.player_2_prediction matches Some(p) ==> p <= 1)
        &&& (self.winner is Some <==> self.status == DuelStatus::Resolved)
        &&& (self.status == DuelStatus::WaitingForPlayer2 ==> self.player_2 is None)
        &&& (self.status == DuelStatus::Cancelled ==> self.player_2 is None)
        &&& (self.status == DuelStatus::Countdown ==> self.player_2 is Some)
        &&& (self.status == DuelStatus::Active || self.status == DuelStatus::Resolved ==> {
            &&& self.player_2 is Some
            &&& self.entry_price > 0
            &&& self.started_at is Some
        })
        &&& (self.status == DuelStatus::Resolved ==> self.exit_price > 0 && self.resolved_at is Some)
    }

    /// Create a duel: player 1 locks `amount` on prediction
    /// `predicted_outcome`. The host owes the stake transfer named by the
    /// returned event before making the duel visible.
    pub fn initialize_duel(
        duel_id: u64,
        player_1: Address,
        amount: u64,
        predicted_outcome: u8,
        now: i64,
    ) -> (r: Result<(Duel, DuelCreated), PredictionMarketError>)
        requires
            0 <= now,
        ensures
            match r {
                Ok((d, ev)) => {
                    &&& amount > 0
                    &&& predicted_outcome <= 1
                    &&& d == (Duel {
                        duel_id,
                        player_1,
                        player_2: None,
                        amount,
                        player_1_prediction: predicted_outcome,
                        player_2_prediction: None,
                        entry_price: 0,
                        exit_price: 0,
                        winner: None,
                        status: DuelStatus::WaitingForPlayer2,
                        created_at: now,
                        started_at: None,
                        resolved_at: None,
                    })
                    &&& d.wf()
                    &&& ev == (DuelCreated { duel_id, player_1, amount, prediction: predicted_outcome })
                },
                Err(e) => {
                    if amount == 0 {
                        e == PredictionMarketError::InvalidAmount
                    } else {
                        predicted_outcome > 1 && e == PredictionMarketError::InvalidOutcome
                    }
                },
            },
    {
        if amount == 0 {
            return Err(PredictionMarketError::InvalidAmount);
        }
        if predicted_outcome > 1 {
            return Err(PredictionMarketError::InvalidOutcome);
        }
        let duel = Duel {
            duel_id,
            player_1,
            player_2: None,
            amount,
            player_1_prediction: predicted_outcome,
            player_2_prediction: None,
            entry_price: 0,
            exit_price: 0,
            winner: None,
            status: DuelStatus::WaitingForPlayer2,
            created_at: now,
            started_at: None,
            resolved_at: None,
        };
        let event = DuelCreated { duel_id, player_1, amount, prediction: predicted_outcome };
        Ok((duel, event))
    }

    /// Player 2 joins with a matching stake. The host owes the stake
    /// transfer named by the returned event.
    pub fn join_duel(&mut self, player_2: Address, predicted_outcome: u8) -> (r: Result<
        DuelJoined,
        PredictionMarketError,
    >)
        requires
            old(self).wf(),
        ensures
            final(self).wf(),
            match r {
                Ok(ev) => {
                    &&& join_check(*old(self), predicted_outcome) is Ok
                    &&& *final(self) == (Duel {
                        player_2: Some(player_2),
                        player_2_prediction: Some(predicted_outcome),
                        status: DuelStatus::Countdown,
                        ..*old(self)
                    })
                    &&& ev == (DuelJoined {
                        duel_id: old(self).duel_id,
                        player_2,
                        prediction: predicted_outcome,
                    })
                },
                Err(e) => {
                    &&& join_check(*old(self), predicted_outcome) == Err::<(), _>(e)
                    &&& *final(self) == *old(self)
                },
            },
    {
        if predicted_outcome > 1 {
            return Err(PredictionMarketError::InvalidOutcome);
        }
        if self.status != DuelStatus::WaitingForPlayer2 {
            return Err(PredictionMarketError::InvalidDuelStatus);
        }
        if self.player_2.is_some() {
            return Err(PredictionMarketError::DuelAlreadyJoined);
        }
        self.player_2 = Some(player_2);
        self.player_2_prediction = Some(predicted_outcome);
        self.status = DuelStatus::Countdown;
        Ok(DuelJoined { duel_id: self.duel_id, player_2, prediction: predicted_outcome })
    }

    /// The resolver starts the duel, recording the entry price and the start
    /// time.
    pub fn start_duel(&mut self, entry_price: u64, now: i64) -> (r: Result<
        DuelStarted,
        PredictionMarketError,
    >)
        requires
            old(self).wf(),
        ensures
            final(self).wf(),
            match r {
                Ok(ev) => {
                    &&& start_check(*old(self), entry_price) is Ok
                    &&& *final(self) == (Duel {
                        entry_price,
                        status: DuelStatus::Active,
                        started_at: Some(now),
                        ..*old(self)
                    })
                    &&& ev == (DuelStarted { duel_id: old(self).duel_id, entry_price, started_at: now })
                },
                Err(e) => {
                    &&& start_check(*old(self), entry_price) == Err::<(), _>(e)
                    &&& *final(self) == *old(self)
                },
            },
    {
        if entry_price == 0 {
            return Err(PredictionMarketError::InvalidPrice);
        }
        if self.status != DuelStatus::Countdown {
            return Err(PredictionMarketError::InvalidDuelStatus);
        }
        self.entry_price = entry_price;
        self.status = DuelStatus::Active;
        self.started_at = Some(now);
        Ok(DuelStarted { duel_id: self.duel_id, entry_price, started_at: now })
    }

    /// The resolver settles the duel at `exit_price`. The pot is both
    /// stakes; the fee is skimmed from the pot and the rest paid to the
    /// winner, so payout plus fee is exactly the pot. The host owes the fee
    /// transfer and then the payout transfer named by the returned event,
    /// in that order.
    pub fn resolve_duel(&mut self, exit_price: u64, now: i64) -> (r: Result<
        DuelResolved,
        PredictionMarketError,
    >)
        requires
            old(self).wf(),
        ensures
            final(self).wf(),
            match r {
                Ok(ev) => {
                    &&& resolve_check(*old(self), exit_price) is Ok
                    &&& ev.winner == (if winner_is_player_1(
                        old(self).player_1_prediction,
                        old(self).entry_price,
                        exit_price,
                    ) {
                        old(self).player_1
                    } else {
                        old(self).player_2->0
                    })
                    &&& ev.fee == duel_fee_spec(old(self).amount as int)
                    &&& ev.payout == duel_payout_spec(old(self).amount as int)
                    &&& ev.payout + ev.fee == 2 * old(self).amount
                    &&& ev.duel_id == old(self).duel_id
                    &&& ev.exit_price == exit_price
                    &&& *final(self) == (Duel {
                        exit_price,
                        winner: Some(ev.winner),
                        status: DuelStatus::Resolved,
                        resolved_at: Some(now),
                        ..*old(self)
                    })
                },
                Err(e) => {
                    &&& resolve_check(*old(self), exit_price) == Err::<(), _>(e)
                    &&& *final(self) == *old(self)
                },
            },
    {
        if exit_price == 0 {
            return Err(PredictionMarketError::InvalidPrice);
        }
        if self.status != DuelStatus::Active {
            return Err(PredictionMarketError::InvalidDuelStatus);
        }
        let total_pool = match self.amount.checked_mul(2) {
            Some(p) => p,
            None => {
                return Err(PredictionMarketError::MathOverflow);
            },
        };
        let fee = match fee_amount(total_pool, DUEL_FEE_BPS) {
            Ok(f) => f,
            Err(e) => {
                return Err(e);
            },
        };
        proof {
            lemma_fee_le_amount(total_pool as int, DUEL_FEE_BPS as int);
        }
        let payout = total_pool - fee;
        let price_went_up = exit_price > self.entry_price;
        let player_1_correct = (self.player_1_prediction == 1 && price_went_up) || (
        self.player_1_prediction == 0 && !price_went_up);
        let winner = if player_1_correct {
            self.player_1
        } else {
            match self.player_2 {
                Some(p2) => p2,
                None => vstd::pervasive::unreached(),
            }
        };
        self.exit_price = exit_price;
        self.winner = Some(winner);
        self.status = DuelStatus::Resolved;
        self.resolved_at = Some(now);
        Ok(DuelResolved { duel_id: self.duel_id, winner, exit_price, payout, fee })
    }

    /// Player 1 cancels an unmatched duel once the cooldown has elapsed and
    /// is owed their stake back. `now` comes from the monotonic clock, so it
    /// is never before `created_at`.
    pub fn cancel_duel(&mut self, caller: Address, now: i64) -> (r: Result<
        DuelCancelled,
        PredictionMarketError,
    >)
        requires
            old(self).wf(),
            now >= old(self).created_at,
        ensures
            final(self).wf(),
            match r {
                Ok(ev) => {
                    &&& cancel_check(*old(self), caller, now) is Ok
                    &&& *final(self) == (Duel { status: DuelStatus::Cancelled, ..*old(self) })
                    &&& ev == (DuelCancelled {
                        duel_id: old(self).duel_id,
                        refund_amount: old(self).amount,
                    })
                },
                Err(e) => {
                    &&& cancel_check(*old(self), caller, now) == Err::<(), _>(e)
                    &&& *final(self) == *old(self)
                },
            },
    {
        if self.status != DuelStatus::WaitingForPlayer2 {
            return Err(PredictionMarketError::InvalidDuelStatus);
        }
        if caller.value != self.player_1.value {
            return Err(PredictionMarketError::Unauthorized);
        }
        if now - self.created_at < CANCEL_COOLDOWN {
            return Err(PredictionMarketError::CancelTooEarly);
        }
        self.status = DuelStatus::Cancelled;
        Ok(DuelCancelled { duel_id: self.duel_id, refund_amount: self.amount })
    }
}

/// Settlement is exclusive: no duel state admits both a successful
/// resolution and a successful cancellation, since resolving needs `Active`
/// and cancelling needs `WaitingForPlayer2`.
pub proof fn lemma_settlement_exclusive(d: Duel, exit_price: u64, caller: Address, now: i64)
    ensures
        !(resolve_check(d, exit_price) is Ok && cancel_check(d, caller, now) is Ok),
{
}

/// `Resolved` and `Cancelled` are terminal: every mutating operation is
/// rejected there, so at most one settlement (one resolution or one
/// cancellation) ever succeeds over a duel's whole life, and its total
/// outflow stays the pot of that single settlement.
pub proof fn lemma_terminal_states(d: Duel, p: u8, price: u64, caller: Address, now: i64)
    requires
        d.status == DuelStatus::Resolved || d.status == DuelStatus::Cancelled,
    ensures
        join_check(d, p) is Err,
        start_check(d, price) is Err,
        resolve_check(d, price) is Err,
        cancel_check(d, caller, now) is Err,
{
}

/// A duel's total outflow never exceeds its locked value: resolution pays
/// out exactly the pot (payout plus fee equals `2 * amount`), and a
/// cancellation refunds exactly the single stake that was locked, which is
/// at most the pot.
pub proof fn lemma_outflow_bounded(amount: u64)
    requires
        amount > 0,
        2 * amount <= u64::MAX,
    ensures
        duel_payout_spec(amount as int) + duel_fee_spec(amount as int) == 2 * amount,
        0 <= duel_fee_spec(amount as int) <= 2 * amount,
        amount <= 2 * amount,
{
    lemma_fee_le_amount(2 * amount as int, DUEL_FEE_BPS as int);
}

} // verus!
