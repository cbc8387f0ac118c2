use prediction_market::errors::PredictionMarketError;
use prediction_market::math::{constant_product_output, fee_amount, integer_sqrt};

#[test]
fn fee_amount_exact_values() {
    assert_eq!(fee_amount(200, 250), Ok(5));
    assert_eq!(fee_amount(100, 30), Ok(0));
    assert_eq!(fee_amount(1_000, 30), Ok(3));
    assert_eq!(fee_amount(10_000, 10_000), Ok(10_000));
    assert_eq!(fee_amount(0, 250), Ok(0));
}

#[test]
fn fee_amount_rejects_overflow() {
    assert_eq!(fee_amount(u64::MAX, 2), Err(PredictionMarketError::MathOverflow));
    assert_eq!(fee_amount(u64::MAX / 250, 250), Ok(u64::MAX / 250 * 250 / 10_000));
}

#[test]
fn curve_output_exact_values() {
    // Totals 1000 each, pay in 1000: the output side shrinks to 500.
    assert_eq!(constant_product_output(1_000, 0, 1_000, 0, 1_000), Ok(500));
    // The virtual base enters the price: same reserves, huge base, tiny move.
    assert_eq!(constant_product_output(500, 5_000_000_000, 500, 5_000_000_000, 100), Ok(100));
    // Output never exceeds the output side's combined total.
    let out = constant_product_output(0, 10, 1_000, 0, u64::MAX).unwrap();
    assert!(out <= 1_000);
}

#[test]
fn curve_output_rejects_overflowing_product() {
    let r = constant_product_output(u64::MAX, u64::MAX, u64::MAX, u64::MAX, 1);
    assert_eq!(r, Err(PredictionMarketError::MathOverflow));
}

#[test]
fn integer_sqrt_exact_values() {
    assert_eq!(integer_sqrt(0), 0);
    assert_eq!(integer_sqrt(1), 1);
    assert_eq!(integer_sqrt(2), 1);
    assert_eq!(integer_sqrt(3), 1);
    assert_eq!(integer_sqrt(4), 2);
    assert_eq!(integer_sqrt(15), 3);
    assert_eq!(integer_sqrt(16), 4);
    assert_eq!(integer_sqrt(17), 4);
    assert_eq!(integer_sqrt(1_000_000_000_000_000_000_000_000), 1_000_000_000_000);
}

#[test]
fn integer_sqrt_extremes() {
    assert_eq!(integer_sqrt(1 << 127), 13_043_817_825_332_782_212);
    let m = u64::MAX as u128;
    assert_eq!(integer_sqrt(m * m), u64::MAX);
    assert_eq!(integer_sqrt(m * m - 1), u64::MAX - 1);
    assert_eq!(integer_sqrt(u128::MAX), u64::MAX);
}

#[test]
fn integer_sqrt_brackets_its_input() {
    for n in [5u128, 99, 100, 101, 123_456_789, 1 << 80] {
        let r = integer_sqrt(n) as u128;
        assert!(r * r <= n);
        assert!((r + 1) * (r + 1) > n);
    }
}

#[test]
fn error_messages_are_stable() {
    assert_eq!(PredictionMarketError::InvalidAmount.message(), "Invalid amount");
    assert_eq!(PredictionMarketError::SlippageExceeded.message(), "Slippage exceeded");
    assert_eq!(PredictionMarketError::NoWinnings.message(), "No winnings to claim");
    assert_eq!(PredictionMarketError::MathOverflow.message(), "Math overflow");
    assert_eq!(PredictionMarketError::InsufficientLiquidity.message(), "Insufficient liquidity");
}
