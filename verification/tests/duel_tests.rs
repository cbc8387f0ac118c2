use prediction_market::duel::{Duel, DuelStatus};
use prediction_market::errors::PredictionMarketError;
use prediction_market::Address;

fn addr(v: u64) -> Address {
    Address { value: v }
}

fn fresh_duel(stake: u64, prediction: u8, now: i64) -> Duel {
    Duel::initialize_duel(1, addr(10), stake, prediction, now).unwrap().0
}

#[test]
fn create_duel_locks_stake() {
    let (duel, ev) = Duel::initialize_duel(7, addr(10), 100, 1, 50).unwrap();
    assert_eq!(duel.duel_id, 7);
    assert_eq!(duel.player_1, addr(10));
    assert_eq!(duel.player_2, None);
    assert_eq!(duel.amount, 100);
    assert_eq!(duel.player_1_prediction, 1);
    assert_eq!(duel.status, DuelStatus::WaitingForPlayer2);
    assert_eq!(duel.created_at, 50);
    assert_eq!(duel.winner, None);
    assert_eq!(ev.duel_id, 7);
    assert_eq!(ev.player_1, addr(10));
    assert_eq!(ev.amount, 100);
    assert_eq!(ev.prediction, 1);
}

#[test]
fn create_duel_rejects_zero_stake() {
    let r = Duel::initialize_duel(1, addr(10), 0, 1, 0);
    assert_eq!(r.unwrap_err(), PredictionMarketError::InvalidAmount);
}

#[test]
fn create_duel_rejects_bad_prediction() {
    let r = Duel::initialize_duel(1, addr(10), 100, 2, 0);
    assert_eq!(r.unwrap_err(), PredictionMarketError::InvalidOutcome);
}

#[test]
fn join_duel_sets_player_2() {
    let mut duel = fresh_duel(100, 1, 0);
    let ev = duel.join_duel(addr(20), 0).unwrap();
    assert_eq!(duel.player_2, Some(addr(20)));
    assert_eq!(duel.player_2_prediction, Some(0));
    assert_eq!(duel.status, DuelStatus::Countdown);
    assert_eq!(ev.player_2, addr(20));
    assert_eq!(ev.prediction, 0);
}

#[test]
fn join_duel_rejects_bad_prediction() {
    let mut duel = fresh_duel(100, 1, 0);
    assert_eq!(duel.join_duel(addr(20), 5).unwrap_err(), PredictionMarketError::InvalidOutcome);
    assert_eq!(duel.status, DuelStatus::WaitingForPlayer2);
}

#[test]
fn join_duel_rejects_second_join() {
    let mut duel = fresh_duel(100, 1, 0);
    duel.join_duel(addr(20), 0).unwrap();
    assert_eq!(duel.join_duel(addr(30), 1).unwrap_err(), PredictionMarketError::InvalidDuelStatus);
    assert_eq!(duel.player_2, Some(addr(20)));
}

#[test]
fn start_duel_records_entry_price() {
    let mut duel = fresh_duel(100, 1, 0);
    duel.join_duel(addr(20), 0).unwrap();
    let ev = duel.start_duel(5000, 40).unwrap();
    assert_eq!(duel.status, DuelStatus::Active);
    assert_eq!(duel.entry_price, 5000);
    assert_eq!(duel.started_at, Some(40));
    assert_eq!(ev.entry_price, 5000);
    assert_eq!(ev.started_at, 40);
}

#[test]
fn start_duel_rejects_zero_price() {
    let mut duel = fresh_duel(100, 1, 0);
    duel.join_duel(addr(20), 0).unwrap();
    assert_eq!(duel.start_duel(0, 40).unwrap_err(), PredictionMarketError::InvalidPrice);
}

#[test]
fn start_duel_rejects_unjoined() {
    let mut duel = fresh_duel(100, 1, 0);
    assert_eq!(duel.start_duel(5000, 40).unwrap_err(), PredictionMarketError::InvalidDuelStatus);
}

#[test]
fn resolve_duel_pays_fee_and_payout() {
    // Stake 100 each, fee 250 basis points on the pot of 200: fee 5, payout 195.
    let mut duel = fresh_duel(100, 1, 0);
    duel.join_duel(addr(20), 0).unwrap();
    duel.start_duel(5000, 40).unwrap();
    let ev = duel.resolve_duel(6000, 80).unwrap();
    assert_eq!(ev.fee, 5);
    assert_eq!(ev.payout, 195);
    assert_eq!(ev.payout + ev.fee, 2 * 100);
    assert_eq!(ev.winner, addr(10));
    assert_eq!(ev.exit_price, 6000);
    assert_eq!(duel.status, DuelStatus::Resolved);
    assert_eq!(duel.winner, Some(addr(10)));
    assert_eq!(duel.exit_price, 6000);
    assert_eq!(duel.resolved_at, Some(80));
}

#[test]
fn resolve_duel_down_prediction_wins_on_fall() {
    let mut duel = fresh_duel(100, 1, 0);
    duel.join_duel(addr(20), 0).unwrap();
    duel.start_duel(5000, 40).unwrap();
    let ev = duel.resolve_duel(4000, 80).unwrap();
    assert_eq!(ev.winner, addr(20));
}

#[test]
fn resolve_duel_tie_counts_as_not_up() {
    // Unchanged price: the player who predicted "down" wins.
    let mut duel = fresh_duel(100, 1, 0);
    duel.join_duel(addr(20), 0).unwrap();
    duel.start_duel(5000, 40).unwrap();
    let ev = duel.resolve_duel(5000, 80).unwrap();
    assert_eq!(ev.winner, addr(20));

    let mut duel2 = fresh_duel(100, 0, 0);
    duel2.join_duel(addr(20), 1).unwrap();
    duel2.start_duel(5000, 40).unwrap();
    let ev2 = duel2.resolve_duel(5000, 80).unwrap();
    assert_eq!(ev2.winner, addr(10));
}

#[test]
fn resolve_duel_rejects_zero_price() {
    let mut duel = fresh_duel(100, 1, 0);
    duel.join_duel(addr(20), 0).unwrap();
    duel.start_duel(5000, 40).unwrap();
    assert_eq!(duel.resolve_duel(0, 80).unwrap_err(), PredictionMarketError::InvalidPrice);
    assert_eq!(duel.status, DuelStatus::Active);
}

#[test]
fn resolve_duel_rejects_wrong_state() {
    let mut duel = fresh_duel(100, 1, 0);
    assert_eq!(duel.resolve_duel(6000, 80).unwrap_err(), PredictionMarketError::InvalidDuelStatus);
}

#[test]
fn resolve_duel_rejects_pot_overflow() {
    let mut duel = fresh_duel(u64::MAX / 2 + 1, 1, 0);
    duel.join_duel(addr(20), 0).unwrap();
    duel.start_duel(5000, 40).unwrap();
    assert_eq!(duel.resolve_duel(6000, 80).unwrap_err(), PredictionMarketError::MathOverflow);
    assert_eq!(duel.status, DuelStatus::Active);
}

#[test]
fn resolve_duel_rejects_fee_overflow() {
    // The pot fits, but the pot scaled by the fee rate does not.
    let stake = u64::MAX / 500 + 1;
    let mut duel = fresh_duel(stake, 1, 0);
    duel.join_duel(addr(20), 0).unwrap();
    duel.start_duel(5000, 40).unwrap();
    assert_eq!(duel.resolve_duel(6000, 80).unwrap_err(), PredictionMarketError::MathOverflow);
}

#[test]
fn resolve_duel_only_once() {
    let mut duel = fresh_duel(100, 1, 0);
    duel.join_duel(addr(20), 0).unwrap();
    duel.start_duel(5000, 40).unwrap();
    duel.resolve_duel(6000, 80).unwrap();
    assert_eq!(duel.resolve_duel(7000, 90).unwrap_err(), PredictionMarketError::InvalidDuelStatus);
    assert_eq!(duel.exit_price, 6000);
}

#[test]
fn cancel_duel_before_cooldown_fails() {
    let mut duel = fresh_duel(100, 1, 1000);
    let r = duel.cancel_duel(addr(10), 1299);
    assert_eq!(r.unwrap_err(), PredictionMarketError::CancelTooEarly);
    assert_eq!(duel.status, DuelStatus::WaitingForPlayer2);
}

#[test]
fn cancel_duel_after_cooldown_refunds() {
    let mut duel = fresh_duel(100, 1, 1000);
    let ev = duel.cancel_duel(addr(10), 1300).unwrap();
    assert_eq!(ev.refund_amount, 100);
    assert_eq!(duel.status, DuelStatus::Cancelled);
}

#[test]
fn cancel_duel_after_join_fails() {
    let mut duel = fresh_duel(100, 1, 1000);
    duel.join_duel(addr(20), 0).unwrap();
    let r = duel.cancel_duel(addr(10), 9999);
    assert_eq!(r.unwrap_err(), PredictionMarketError::InvalidDuelStatus);
    assert_eq!(duel.status, DuelStatus::Countdown);
}

#[test]
fn cancel_duel_rejects_stranger() {
    let mut duel = fresh_duel(100, 1, 1000);
    assert_eq!(duel.cancel_duel(addr(99), 9999).unwrap_err(), PredictionMarketError::Unauthorized);
}

#[test]
fn cancel_then_resolve_fails() {
    // At most one settlement per duel: after a cancellation nothing else succeeds.
    let mut duel = fresh_duel(100, 1, 1000);
    duel.cancel_duel(addr(10), 2000).unwrap();
    assert_eq!(duel.join_duel(addr(20), 0).unwrap_err(), PredictionMarketError::InvalidDuelStatus);
    assert_eq!(duel.start_duel(5000, 40).unwrap_err(), PredictionMarketError::InvalidDuelStatus);
    assert_eq!(duel.resolve_duel(6000, 80).unwrap_err(), PredictionMarketError::InvalidDuelStatus);
    assert_eq!(duel.cancel_duel(addr(10), 9999).unwrap_err(), PredictionMarketError::InvalidDuelStatus);
}

#[test]
fn resolved_duel_outflow_is_exactly_the_pot() {
    // Total outflow (payout + fee) is exactly 2 * stake, never more.
    for stake in [1u64, 3, 19, 100, 12345, 1_000_000_007] {
        let mut duel = fresh_duel(stake, 1, 0);
        duel.join_duel(addr(20), 0).unwrap();
        duel.start_duel(5000, 40).unwrap();
        let ev = duel.resolve_duel(6000, 80).unwrap();
        assert_eq!(ev.payout + ev.fee, 2 * stake);
        assert_eq!(ev.fee, 2 * stake * 250 / 10_000);
    }
}
