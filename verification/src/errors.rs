//! The single error taxonomy of the engine.
//!
//! Every operation rejects a bad call before any state is mutated, so an
//! error always means "nothing happened": no reserve, position, or duel field
//! changed, and no transfer is owed.

use vstd::prelude::*;

verus! {

/// Why an operation was rejected.
///
/// Validation errors (`InvalidAmount`, `InvalidOutcome`, `InvalidPrice`,
/// `QuestionTooLong`, `InvalidResolutionTime`, `InvalidFeePercentage`) name a
/// bad input; state errors (`InvalidDuelStatus`, `DuelAlreadyJoined`,
/// `PoolNotActive`, `PoolExpired`, `PoolNotExpired`, `PoolNotResolved`) name a
/// call made in the wrong lifecycle state; `Unauthorized` and `CancelTooEarly`
/// name the caller or the clock; `MathOverflow` and `InsufficientLiquidity`
/// are arithmetic rejections, kept distinct so a caller can tell "no
/// liquidity" from "bad input"; `SlippageExceeded` is distinct again so a
/// client can retry with an adjusted minimum.
#[derive(Clone, Copy, PartialEq, Eq, Structural, Debug)]
pub enum PredictionMarketError {
    InvalidAmount,
    InvalidOutcome,
    InvalidDuelStatus,
    DuelAlreadyJoined,
    InvalidPrice,
    QuestionTooLong,
    InvalidResolutionTime,
    InvalidFeePercentage,
    PoolNotActive,
    PoolExpired,
    MathOverflow,
    InsufficientLiquidity,
    SlippageExceeded,
    PoolNotResolved,
    PoolNotExpired,
    NoWinnings,
    InsufficientTokens,
    Unauthorized,
    CancelTooEarly,
}

impl PredictionMarketError {
    /// A short human-readable description, for hosts that surface errors.
    pub fn message(&self) -> &'static str {
        match self {
            PredictionMarketError::InvalidAmount => "Invalid amount",
            PredictionMarketError::InvalidOutcome => "Invalid outcome",
            PredictionMarketError::InvalidDuelStatus => "Invalid duel status",
            PredictionMarketError::DuelAlreadyJoined => "Duel already joined",
            PredictionMarketError::InvalidPrice => "Invalid price",
            PredictionMarketError::QuestionTooLong => "Question too long",
            PredictionMarketError::InvalidResolutionTime => "Invalid resolution time",
            PredictionMarketError::InvalidFeePercentage => "Invalid fee percentage",
            PredictionMarketError::PoolNotActive => "Pool not active",
            PredictionMarketError::PoolExpired => "Pool expired",
            PredictionMarketError::MathOverflow => "Math overflow",
            PredictionMarketError::InsufficientLiquidity => "Insufficient liquidity",
            PredictionMarketError::SlippageExceeded => "Slippage exceeded",
            PredictionMarketError::PoolNotResolved => "Pool not resolved",
            PredictionMarketError::PoolNotExpired => "Pool not expired",
            PredictionMarketError::NoWinnings => "No winnings to claim",
            PredictionMarketError::InsufficientTokens => "Insufficient tokens",
            PredictionMarketError::Unauthorized => "Unauthorized",
            PredictionMarketError::CancelTooEarly => "Cancel too early - must wait for the cooldown",
        }
    }
}

} // verus!
