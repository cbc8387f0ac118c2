//! The binary-outcome AMM pool: YES/NO shares priced by a constant-product
//! curve over combined real and virtual liquidity.
//!
//! Each side of the curve is the sum of a real, transfer-backed reserve and a
//! fixed virtual base that stabilises prices while deposits are small. The
//! reserve updates are deliberately asymmetric: a buy adds the paid amount to
//! the input side's real reserve and leaves the output side untouched
//! (outcome shares are virtual claims in the position ledger, not a drawable
//! pooled asset), while a sell removes the pre-fee value from the opposite
//! side's real reserve and leaves the sold side untouched. Every operation
//! either commits in full and returns its event, or returns an error with no
//! state change.

use vstd::prelude::*;

use crate::errors::PredictionMarketError;
use crate::events::{OutcomePurchased, OutcomeSold, PoolCreated, PoolResolved, PoolStatusUpdated, WinningsClaimed};
use crate::math::{
    constant_product_output, curve_gross_spec, fee_amount, fee_spec, lemma_fee_le_amount,
    BASE_LIQUIDITY_PER_SIDE, MAX_FEE_BPS,
};
use crate::positions::UserPosition;
use vstd::string::StrSliceExecFns;

use crate::Address;

verus! {

/// Lifecycle state of a pool.
#[derive(Clone, Copy, PartialEq, Eq, Structural, Debug)]
pub enum PoolStatus {
    Active,
    Resolved,
}

/// The two sides of a binary market.
#[derive(Clone, Copy, PartialEq, Eq, Structural, Debug)]
pub enum Outcome {
    Yes,
    No,
}

/// One binary market. `yes_reserve`/`no_reserve` are real, transfer-backed
/// value; `base_yes_liquidity`/`base_no_liquidity` are virtual and enter
/// only the pricing curve.
#[derive(Clone, Debug)]
pub struct Pool {
    pub pool_id: u64,
    pub authority: Address,
    pub question: String,
    pub resolution_time: i64,
    pub yes_reserve: u64,
    pub no_reserve: u64,
    pub base_yes_liquidity: u64,
    pub base_no_liquidity: u64,
    pub fee_bps: u64,
    pub outcome: Option<Outcome>,
    pub status: PoolStatus,
}

/// The real reserve a buyer of `o` pays into: the opposite side.
pub open spec fn input_reserve_spec(p: Pool, o: Outcome) -> u64 {
    match o {
        Outcome::Yes => p.no_reserve,
        Outcome::No => p.yes_reserve,
    }
}

/// The real reserve on the side being bought.
pub open spec fn output_reserve_spec(p: Pool, o: Outcome) -> u64 {
    match o {
        Outcome::Yes => p.yes_reserve,
        Outcome::No => p.no_reserve,
    }
}

/// The virtual liquidity on the side a buyer of `o` pays into.
pub open spec fn base_input_spec(p: Pool, o: Outcome) -> u64 {
    match o {
        Outcome::Yes => p.base_no_liquidity,
        Outcome::No => p.base_yes_liquidity,
    }
}

/// The virtual liquidity on the side being bought.
pub open spec fn base_output_spec(p: Pool, o: Outcome) -> u64 {
    match o {
        Outcome::Yes => p.base_yes_liquidity,
        Outcome::No => p.base_no_liquidity,
    }
}

/// Combined (real plus virtual) liquidity a buyer of `o` pays into.
pub open spec fn total_input_spec(p: Pool, o: Outcome) -> int {
    input_reserve_spec(p, o) + base_input_spec(p, o)
}

/// Combined (real plus virtual) liquidity on the side being bought.
pub open spec fn total_output_spec(p: Pool, o: Outcome) -> int {
    output_reserve_spec(p, o) + base_output_spec(p, o)
}

/// A position's balance on one side.
pub open spec fn position_side_spec(pos: UserPosition, o: Outcome) -> u64 {
    match o {
        Outcome::Yes => pos.yes_tokens,
        Outcome::No => pos.no_tokens,
    }
}

/// Gross share output of a buy of `o` for `amount`, before the fee.
pub open spec fn buy_gross_spec(p: Pool, o: Outcome, amount: u64) -> int {
    curve_gross_spec(total_input_spec(p, o), total_output_spec(p, o), amount as int)
}

/// Fee skimmed from a buy's gross share output.
pub open spec fn buy_fee_spec(p: Pool, o: Outcome, amount: u64) -> int {
    fee_spec(buy_gross_spec(p, o, amount), p.fee_bps as int)
}

/// Shares credited to the buyer: gross output minus the fee.
pub open spec fn buy_tokens_out_spec(p: Pool, o: Outcome, amount: u64) -> int {
    buy_gross_spec(p, o, amount) - buy_fee_spec(p, o, amount)
}

/// Gross value output of a sell of `tokens_amount` shares of `o`, before the
/// fee: the same curve run with the sold side as the input side.
pub open spec fn sell_gross_spec(p: Pool, o: Outcome, tokens_amount: u64) -> int {
    curve_gross_spec(total_output_spec(p, o), total_input_spec(p, o), tokens_amount as int)
}

/// Fee skimmed from a sell's gross value output.
pub open spec fn sell_fee_spec(p: Pool, o: Outcome, tokens_amount: u64) -> int {
    fee_spec(sell_gross_spec(p, o, tokens_amount), p.fee_bps as int)
}

/// Value paid to the seller: gross output minus the fee.
pub open spec fn sell_value_out_spec(p: Pool, o: Outcome, tokens_amount: u64) -> int {
    sell_gross_spec(p, o, tokens_amount) - sell_fee_spec(p, o, tokens_amount)
}

/// The position record a buy works on: a blank record is claimed for
/// `(user, pool)` first.
pub open spec fn materialized_position(pos: UserPosition, user: Address, pool_id: u64) -> UserPosition {
    if pos.pool_id == 0 {
        UserPosition { user, pool_id, yes_tokens: 0, no_tokens: 0 }
    } else {
        pos
    }
}

/// Which error, if any, `create_pool` reports, in the order the checks run.
pub open spec fn create_check(
    question: Seq<char>,
    resolution_time: i64,
    initial_liquidity: u64,
    fee_bps: u64,
    now: i64,
) -> Result<(), PredictionMarketError> {
    if initial_liquidity == 0 {
        Err(PredictionMarketError::InvalidAmount)
    } else if question.len() > 200 {
        Err(PredictionMarketError::QuestionTooLong)
    } else if resolution_time <= now {
        Err(PredictionMarketError::InvalidResolutionTime)
    } else if fee_bps > MAX_FEE_BPS {
        Err(PredictionMarketError::InvalidFeePercentage)
    } else {
        Ok(())
    }
}

/// Which error, if any, `buy_outcome` reports, in the order the checks run.
/// The three `MathOverflow` branches are the invariant product exceeding 128
/// bits, the gross output exceeding 64 bits, and the scaled fee product
/// exceeding 64 bits; the last two guard the reserve and the position
/// credit.
pub open spec fn buy_check(
    p: Pool,
    pos: UserPosition,
    user: Address,
    o: Outcome,
    amount: u64,
    min_tokens_out: u64,
    now: i64,
) -> Result<(), PredictionMarketError> {
    let ti = total_input_spec(p, o);
    let to = total_output_spec(p, o);
    let gross = buy_gross_spec(p, o, amount);
    if amount == 0 {
        Err(PredictionMarketError::InvalidAmount)
    } else if p.status != PoolStatus::Active {
        Err(PredictionMarketError::PoolNotActive)
    } else if now >= p.resolution_time {
        Err(PredictionMarketError::PoolExpired)
    } else if ti * to > u128::MAX {
        Err(PredictionMarketError::MathOverflow)
    } else if gross > u64::MAX {
        Err(PredictionMarketError::MathOverflow)
    } else if gross * p.fee_bps > u64::MAX {
        Err(PredictionMarketError::MathOverflow)
    } else if buy_tokens_out_spec(p, o, amount) < min_tokens_out {
        Err(PredictionMarketError::SlippageExceeded)
    } else if input_reserve_spec(p, o) + amount > u64::MAX {
        Err(PredictionMarketError::MathOverflow)
    } else if position_side_spec(materialized_position(pos, user, p.pool_id), o)
        + buy_tokens_out_spec(p, o, amount) > u64::MAX {
        Err(PredictionMarketError::MathOverflow)
    } else {
        Ok(())
    }
}

/// Which error, if any, `sell_outcome` reports, in the order the checks run.
pub open spec fn sell_check(
    p: Pool,
    pos: UserPosition,
    o: Outcome,
    tokens_amount: u64,
    min_value_out: u64,
    now: i64,
) -> Result<(), PredictionMarketError> {
    let ti = total_output_spec(p, o);
    let to = total_input_spec(p, o);
    let gross = sell_gross_spec(p, o, tokens_amount);
    if tokens_amount == 0 {
        Err(PredictionMarketError::InvalidAmount)
    } else if p.status != PoolStatus::Active {
        Err(PredictionMarketError::PoolNotActive)
    } else if now >= p.resolution_time {
        Err(PredictionMarketError::PoolExpired)
    } else if position_side_spec(pos, o) < tokens_amount {
        Err(PredictionMarketError::InsufficientTokens)
    } else if ti * to > u128::MAX {
        Err(PredictionMarketError::MathOverflow)
    } else if gross > u64::MAX {
        Err(PredictionMarketError::MathOverflow)
    } else if gross * p.fee_bps > u64::MAX {
        Err(PredictionMarketError::MathOverflow)
    } else if sell_value_out_spec(p, o, tokens_amount) < min_value_out {
        Err(PredictionMarketError::SlippageExceeded)
    } else if gross > input_reserve_spec(p, o) {
        Err(PredictionMarketError::InsufficientLiquidity)
    } else {
        Ok(())
    }
}

/// Which error, if any, `claim_winnings` reports. A pool whose status was
/// overridden to `Resolved` without a recorded outcome has no winning side,
/// so claims on it are rejected as not resolved.
pub open spec fn claim_check(p: Pool, pos: UserPosition) -> Result<(), PredictionMarketError> {
    if p.status != PoolStatus::Resolved {
        Err(PredictionMarketError::PoolNotResolved)
    } else if p.outcome is None {
        Err(PredictionMarketError::PoolNotResolved)
    } else if position_side_spec(pos, p.outcome->0) == 0 {
        Err(PredictionMarketError::NoWinnings)
    } else {
        Ok(())
    }
}

/// What a successful claim pays: the caller's whole balance on the winning
/// side.
pub open spec fn claim_amount_spec(p: Pool, pos: UserPosition) -> u64 {
    position_side_spec(pos, p.outcome->0)
}

impl Pool {
    /// Well-formedness, established at creation and preserved by every
    /// operation: the question fits and the fee rate is within the cap.
    pub open spec fn wf(self) -> bool {
        &&& self.question@.len() <= 200
        &&& self.fee_bps <= MAX_FEE_BPS
    }

    /// Create a pool. The initial liquidity is split evenly between the two
    /// real reserves, the virtual base is a fixed policy constant on each
    /// side, and the host owes the authority's deposit transfer named by the
    /// returned event.
    pub fn create_pool(
        pool_id: u64,
        authority: Address,
        question: String,
        resolution_time: i64,
        initial_liquidity: u64,
        fee_bps: u64,
        now: i64,
    ) -> (r: Result<(Pool, PoolCreated), PredictionMarketError>)
        ensures
            match r {
                Ok((p, ev)) => {
                    &&& create_check(question@, resolution_time, initial_liquidity, fee_bps, now) is Ok
                    &&& p.pool_id == pool_id
                    &&& p.authority == authority
                    &&& p.question == question
                    &&& p.resolution_time == resolution_time
                    &&& p.yes_reserve == initial_liquidity / 2
                    &&& p.no_reserve == initial_liquidity / 2
                    &&& p.base_yes_liquidity == BASE_LIQUIDITY_PER_SIDE
                    &&& p.base_no_liquidity == BASE_LIQUIDITY_PER_SIDE
                    &&& p.fee_bps == fee_bps
                    &&& p.outcome is None
                    &&& p.status == PoolStatus::Active
                    &&& p.wf()
                    &&& ev == (PoolCreated {
                        pool_id,
                        authority,
                        question: p.question,
                        resolution_time,
                        initial_liquidity,
                    })
                },
                Err(e) => create_check(
                    question@,
                    resolution_time,
                    initial_liquidity,
                    fee_bps,
                    now,
                ) == Err::<(), _>(e),
            },
    {
        if initial_liquidity == 0 {
            return Err(PredictionMarketError::InvalidAmount);
        }
        if question.as_str().unicode_len() > 200 {
            return Err(PredictionMarketError::QuestionTooLong);
        }
        if resolution_time <= now {
            return Err(PredictionMarketError::InvalidResolutionTime);
        }
        if fee_bps > MAX_FEE_BPS {
            return Err(PredictionMarketError::InvalidFeePercentage);
        }
        let pool = Pool {
            pool_id,
            authority,
            question: question.clone(),
            resolution_time,
            yes_reserve: initial_liquidity / 2,
            no_reserve: initial_liquidity / 2,
            base_yes_liquidity: BASE_LIQUIDITY_PER_SIDE,
            base_no_liquidity: BASE_LIQUIDITY_PER_SIDE,
            fee_bps,
            outcome: None,
            status: PoolStatus::Active,
        };
        let event = PoolCreated { pool_id, authority, question, resolution_time, initial_liquidity };
        Ok((pool, event))
    }

    /// Buy `amount` worth of `o` shares. The paid amount joins the input
    /// side's real reserve; the buyer is credited the curve's output minus
    /// the fee, but never more than the output side's combined total. The
    /// host owes the buyer's payment transfer named by the returned event.
    pub fn buy_outcome(
        &mut self,
        position: &mut UserPosition,
        user: Address,
        outcome: Outcome,
        amount: u64,
        min_tokens_out: u64,
        now: i64,
    ) -> (r: Result<OutcomePurchased, PredictionMarketError>)
        requires
            old(self).wf(),
            old(position).belongs_to(user, old(self).pool_id),
        ensures
            final(self).wf(),
            final(position).belongs_to(user, final(self).pool_id),
            match r {
                Ok(ev) => {
                    &&& buy_check(*old(self), *old(position), user, outcome, amount, min_tokens_out, now) is Ok
                    &&& ev == (OutcomePurchased {
                        pool_id: old(self).pool_id,
                        user,
                        outcome,
                        amount_paid: amount,
                        tokens_received: buy_tokens_out_spec(*old(self), outcome, amount) as u64,
                        fee: buy_fee_spec(*old(self), outcome, amount) as u64,
                    })
                    &&& ev.tokens_received >= min_tokens_out
                    &&& ev.tokens_received <= total_output_spec(*old(self), outcome)
                    &&& (outcome == Outcome::Yes ==> *final(self) == (Pool {
                        no_reserve: (old(self).no_reserve + amount) as u64,
                        ..*old(self)
                    }))
                    &&& (outcome == Outcome::No ==> *final(self) == (Pool {
                        yes_reserve: (old(self).yes_reserve + amount) as u64,
                        ..*old(self)
                    }))
                    &&& final(self).yes_reserve + final(self).no_reserve == old(self).yes_reserve
                        + old(self).no_reserve + amount
                    &&& ({
                        let base = materialized_position(*old(position), user, old(self).pool_id);
                        &&& (outcome == Outcome::Yes ==> *final(position) == (UserPosition {
                            yes_tokens: (base.yes_tokens + ev.tokens_received) as u64,
                            ..base
                        }))
                        &&& (outcome == Outcome::No ==> *final(position) == (UserPosition {
                            no_tokens: (base.no_tokens + ev.tokens_received) as u64,
                            ..base
                        }))
                    })
                },
                Err(e) => {
                    &&& buy_check(*old(self), *old(position), user, outcome, amount, min_tokens_out, now)
                        == Err::<(), _>(e)
                    &&& *final(self) == *old(self)
                    &&& *final(position) == *old(position)
                },
            },
    {
        if amount == 0 {
            return Err(PredictionMarketError::InvalidAmount);
        }
        if self.status != PoolStatus::Active {
            return Err(PredictionMarketError::PoolNotActive);
        }
        if now >= self.resolution_time {
            return Err(PredictionMarketError::PoolExpired);
        }
        let (input_reserve, output_reserve, base_input, base_output) = match outcome {
            Outcome::Yes => (self.no_reserve, self.yes_reserve, self.base_no_liquidity, self.base_yes_liquidity),
            Outcome::No => (self.yes_reserve, self.no_reserve, self.base_yes_liquidity, self.base_no_liquidity),
        };
        let gross = match constant_product_output(input_reserve, base_input, output_reserve, base_output, amount) {
            Ok(g) => g,
            Err(e) => {
                return Err(e);
            },
        };
        let fee = match fee_amount(gross, self.fee_bps) {
            Ok(f) => f,
            Err(e) => {
                return Err(e);
            },
        };
        proof {
            lemma_fee_le_amount(gross as int, self.fee_bps as int);
        }
        let tokens_out = gross - fee;
        if tokens_out < min_tokens_out {
            return Err(PredictionMarketError::SlippageExceeded);
        }
        let new_input_reserve = match input_reserve.checked_add(amount) {
            Some(v) => v,
            None => {
                return Err(PredictionMarketError::MathOverflow);
            },
        };
        let current_side: u64 = if position.pool_id == 0 {
            0
        } else {
            match outcome {
                Outcome::Yes => position.yes_tokens,
                Outcome::No => position.no_tokens,
            }
        };
        let new_side = match current_side.checked_add(tokens_out) {
            Some(v) => v,
            None => {
                return Err(PredictionMarketError::MathOverflow);
            },
        };
        match outcome {
            Outcome::Yes => {
                self.no_reserve = new_input_reserve;
            },
            Outcome::No => {
                self.yes_reserve = new_input_reserve;
            },
        }
        if position.pool_id == 0 {
            position.user = user;
            position.pool_id = self.pool_id;
            position.yes_tokens = 0;
            position.no_tokens = 0;
        }
        match outcome {
            Outcome::Yes => {
                position.yes_tokens = new_side;
            },
            Outcome::No => {
                position.no_tokens = new_side;
            },
        }
        Ok(OutcomePurchased {
            pool_id: self.pool_id,
            user,
            outcome,
            amount_paid: amount,
            tokens_received: tokens_out,
            fee,
        })
    }

    /// Sell `tokens_amount` shares of `o` back to the pool. The pre-fee
    /// value leaves the opposite side's real reserve; the seller is owed the
    /// value minus the fee, as named by the returned event.
    pub fn sell_outcome(
        &mut self,
        position: &mut UserPosition,
        user: Address,
        outcome: Outcome,
        tokens_amount: u64,
        min_sol_out: u64,
        now: i64,
    ) -> (r: Result<OutcomeSold, PredictionMarketError>)
        requires
            old(self).wf(),
            old(position).belongs_to(user, old(self).pool_id),
        ensures
            final(self).wf(),
            final(position).belongs_to(user, final(self).pool_id),
            match r {
                Ok(ev) => {
                    &&& sell_check(*old(self), *old(position), outcome, tokens_amount, min_sol_out, now) is Ok
                    &&& ev == (OutcomeSold {
                        pool_id: old(self).pool_id,
                        user,
                        outcome,
                        tokens_sold: tokens_amount,
                        sol_received: sell_value_out_spec(*old(self), outcome, tokens_amount) as u64,
                        fee: sell_fee_spec(*old(self), outcome, tokens_amount) as u64,
                    })
                    &&& ev.sol_received >= min_sol_out
                    &&& (outcome == Outcome::Yes ==> *final(self) == (Pool {
                        no_reserve: (old(self).no_reserve - sell_gross_spec(*old(self), outcome, tokens_amount)) as u64,
                        ..*old(self)
                    }))
                    &&& (outcome == Outcome::No ==> *final(self) == (Pool {
                        yes_reserve: (old(self).yes_reserve - sell_gross_spec(*old(self), outcome, tokens_amount)) as u64,
                        ..*old(self)
                    }))
                    &&& final(self).yes_reserve + final(self).no_reserve == old(self).yes_reserve
                        + old(self).no_reserve - sell_gross_spec(*old(self), outcome, tokens_amount)
                    &&& (outcome == Outcome::Yes ==> *final(position) == (UserPosition {
                        yes_tokens: (old(position).yes_tokens - tokens_amount) as u64,
                        ..*old(position)
                    }))
                    &&& (outcome == Outcome::No ==> *final(position) == (UserPosition {
                        no_tokens: (old(position).no_tokens - tokens_amount) as u64,
                        ..*old(position)
                    }))
                },
                Err(e) => {
                    &&& sell_check(*old(self), *old(position), outcome, tokens_amount, min_sol_out, now)
                        == Err::<(), _>(e)
                    &&& *final(self) == *old(self)
                    &&& *final(position) == *old(position)
                },
            },
    {
        if tokens_amount == 0 {
            return Err(PredictionMarketError::InvalidAmount);
        }
        if self.status != PoolStatus::Active {
            return Err(PredictionMarketError::PoolNotActive);
        }
        if now >= self.resolution_time {
            return Err(PredictionMarketError::PoolExpired);
        }
        let user_tokens = match outcome {
            Outcome::Yes => position.yes_tokens,
            Outcome::No => position.no_tokens,
        };
        if user_tokens < tokens_amount {
            return Err(PredictionMarketError::InsufficientTokens);
        }
        let (output_reserve, input_reserve, base_output, base_input) = match outcome {
            Outcome::Yes => (self.no_reserve, self.yes_reserve, self.base_no_liquidity, self.base_yes_liquidity),
            Outcome::No => (self.yes_reserve, self.no_reserve, self.base_yes_liquidity, self.base_no_liquidity),
        };
        let gross = match constant_product_output(input_reserve, base_input, output_reserve, base_output, tokens_amount) {
            Ok(g) => g,
            Err(e) => {
                return Err(e);
            },
        };
        let fee = match fee_amount(gross, self.fee_bps) {
            Ok(f) => f,
            Err(e) => {
                return Err(e);
            },
        };
        proof {
            lemma_fee_le_amount(gross as int, self.fee_bps as int);
        }
        let sol_out = gross - fee;
        if sol_out < min_sol_out {
            return Err(PredictionMarketError::SlippageExceeded);
        }
        if gross > output_reserve {
            return Err(PredictionMarketError::InsufficientLiquidity);
        }
        match outcome {
            Outcome::Yes => {
                self.no_reserve = output_reserve - gross;
                position.yes_tokens = user_tokens - tokens_amount;
            },
            Outcome::No => {
                self.yes_reserve = output_reserve - gross;
                position.no_tokens = user_tokens - tokens_amount;
            },
        }
        Ok(OutcomeSold {
            pool_id: self.pool_id,
            user,
            outcome,
            tokens_sold: tokens_amount,
            sol_received: sol_out,
            fee,
        })
    }

    /// Record the outcome once the resolution time has passed.
    pub fn resolve_pool(&mut self, outcome: Outcome, now: i64) -> (r: Result<
        PoolResolved,
        PredictionMarketError,
    >)
        requires
            old(self).wf(),
        ensures
            final(self).wf(),
            match r {
                Ok(ev) => {
                    &&& old(self).status == PoolStatus::Active
                    &&& now >= old(self).resolution_time
                    &&& *final(self) == (Pool {
                        outcome: Some(outcome),
                        status: PoolStatus::Resolved,
                        ..*old(self)
                    })
                    &&& ev == (PoolResolved { pool_id: old(self).pool_id, outcome })
                },
                Err(e) => {
                    &&& *final(self) == *old(self)
                    &&& (if old(self).status != PoolStatus::Active {
                        e == PredictionMarketError::PoolNotActive
                    } else {
                        now < old(self).resolution_time && e == PredictionMarketError::PoolNotExpired
                    })
                },
            },
    {
        if self.status != PoolStatus::Active {
            return Err(PredictionMarketError::PoolNotActive);
        }
        if now < self.resolution_time {
            return Err(PredictionMarketError::PoolNotExpired);
        }
        self.outcome = Some(outcome);
        self.status = PoolStatus::Resolved;
        Ok(PoolResolved { pool_id: self.pool_id, outcome })
    }

    /// Authority-only administrative override of the status (early close).
    pub fn update_pool_status(&mut self, caller: Address, new_status: PoolStatus) -> (r: Result<
        PoolStatusUpdated,
        PredictionMarketError,
    >)
        requires
            old(self).wf(),
        ensures
            final(self).wf(),
            match r {
                Ok(ev) => {
                    &&& caller == old(self).authority
                    &&& *final(self) == (Pool { status: new_status, ..*old(self) })
                    &&& ev == (PoolStatusUpdated { pool_id: old(self).pool_id, new_status })
                },
                Err(e) => {
                    &&& caller != old(self).authority
                    &&& e == PredictionMarketError::Unauthorized
                    &&& *final(self) == *old(self)
                },
            },
    {
        if caller.value != self.authority.value {
            return Err(PredictionMarketError::Unauthorized);
        }
        self.status = new_status;
        Ok(PoolStatusUpdated { pool_id: self.pool_id, new_status })
    }

    /// Pay out the caller's whole balance on the winning side, one to one,
    /// and zero the position. A second claim on the same position finds a
    /// zero balance and fails with `NoWinnings`, so the payout happens at
    /// most once. The host owes the payout transfer named by the returned
    /// event.
    pub fn claim_winnings(&self, position: &mut UserPosition, user: Address) -> (r: Result<
        WinningsClaimed,
        PredictionMarketError,
    >)
        requires
            old(position).belongs_to(user, self.pool_id),
        ensures
            final(position).belongs_to(user, self.pool_id),
            match r {
                Ok(ev) => {
                    &&& claim_check(*self, *old(position)) is Ok
                    &&& ev == (WinningsClaimed {
                        pool_id: self.pool_id,
                        user,
                        amount: claim_amount_spec(*self, *old(position)),
                    })
                    &&& *final(position) == (UserPosition {
                        yes_tokens: 0,
                        no_tokens: 0,
                        ..*old(position)
                    })
                },
                Err(e) => {
                    &&& claim_check(*self, *old(position)) == Err::<(), _>(e)
                    &&& *final(position) == *old(position)
                },
            },
    {
        if self.status != PoolStatus::Resolved {
            return Err(PredictionMarketError::PoolNotResolved);
        }
        let winning_outcome = match self.outcome {
            Some(o) => o,
            None => {
                return Err(PredictionMarketError::PoolNotResolved);
            },
        };
        let winning_tokens = match winning_outcome {
            Outcome::Yes => position.yes_tokens,
            Outcome::No => position.no_tokens,
        };
        if winning_tokens == 0 {
            return Err(PredictionMarketError::NoWinnings);
        }
        position.yes_tokens = 0;
        position.no_tokens = 0;
        Ok(WinningsClaimed { pool_id: self.pool_id, user, amount: winning_tokens })
    }
}

/// Claiming is idempotent: once a claim has zeroed a position, a second
/// claim on it fails with `NoWinnings`, whatever the pool looks like, so a
/// position's paid-out total never exceeds its winning-side balance at the
/// first claim.
pub proof fn lemma_claim_idempotent(p: Pool, pos: UserPosition)
    requires
        claim_check(p, pos) is Ok,
    ensures
        claim_check(p, UserPosition { yes_tokens: 0, no_tokens: 0, ..pos })
            == Err::<(), PredictionMarketError>(PredictionMarketError::NoWinnings),
{
}

/// A buy moves the implied price of the bought side up: with the input-side
/// total growing by the paid amount and the output-side total unchanged, the
/// marginal price `total_input / total_output` strictly increases (compared
/// by cross-multiplication). Equivalently, the opposite side's implied price
/// strictly falls.
pub proof fn lemma_buy_price_monotone(pre: Pool, post: Pool, o: Outcome, amount: u64) by (nonlinear_arith)
    requires
        amount > 0,
        total_output_spec(pre, o) > 0,
        total_input_spec(post, o) == total_input_spec(pre, o) + amount,
        total_output_spec(post, o) == total_output_spec(pre, o),
    ensures
        total_input_spec(post, o) * total_output_spec(pre, o) > total_input_spec(pre, o)
            * total_output_spec(post, o),
{
}

/// A sell moves the implied price of the sold side down, or leaves it
/// unchanged when rounding makes the value output zero: the opposite total
/// shrinks by the pre-fee value while the sold side's total stays put, so
/// the marginal price `total_input / total_output` never rises and strictly
/// falls whenever any value left.
pub proof fn lemma_sell_price_monotone(pre: Pool, post: Pool, o: Outcome, value_out: int) by (nonlinear_arith)
    requires
        0 <= value_out,
        total_output_spec(pre, o) > 0,
        total_input_spec(post, o) == total_input_spec(pre, o) - value_out,
        total_output_spec(post, o) == total_output_spec(pre, o),
    ensures
        total_input_spec(post, o) * total_output_spec(pre, o) <= total_input_spec(pre, o)
            * total_output_spec(post, o),
        value_out > 0 ==> total_input_spec(post, o) * total_output_spec(pre, o)
            < total_input_spec(pre, o) * total_output_spec(post, o),
{
}

} // verus!
