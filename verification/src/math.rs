//! Fee and arithmetic utilities: overflow-checked basis-point fees, the
//! constant-product swap curve, and an integer square root.
//!
//! All executable arithmetic here either proves the absence of overflow or
//! reports `MathOverflow`; nothing panics.

use vstd::prelude::*;
use vstd::arithmetic::div_mod::{
    lemma_div_basics, lemma_div_is_ordered, lemma_div_is_ordered_by_denominator,
    lemma_div_multiples_vanish, lemma_fundamental_div_mod, lemma_mod_bound,
};
use vstd::arithmetic::mul::{lemma_mul_inequality, lemma_mul_is_commutative};

use crate::errors::PredictionMarketError;

verus! {

/// Basis-point denominator: a fee of `b` basis points takes `b / 10000` of a value.
pub const BPS_DIVISOR: u64 = 10_000;

/// Fee taken from a resolved duel's total pot, in basis points.
pub const DUEL_FEE_BPS: u64 = 250;

/// Largest trading fee a pool may be created with, in basis points.
pub const MAX_FEE_BPS: u64 = 1_000;

/// Seconds player 1 must wait after creating a duel before cancelling it.
pub const CANCEL_COOLDOWN: i64 = 300;

/// Virtual liquidity added to each side of a pool's pricing curve. It is
/// never transfer-backed and only stabilises prices while real reserves are
/// small.
pub const BASE_LIQUIDITY_PER_SIDE: u64 = 5_000_000_000;

/// The fee owed on `amount` at `fee_bps` basis points, rounded down.
pub open spec fn fee_spec(amount: int, fee_bps: int) -> int {
    amount * fee_bps / (BPS_DIVISOR as int)
}

/// Gross output of the constant-product curve when `amount` is added to the
/// input side: with invariant `k = total_input * total_output`, the output
/// side shrinks to `k / (total_input + amount)` and the difference is paid out.
pub open spec fn curve_gross_spec(total_input: int, total_output: int, amount: int) -> int {
    total_output - (total_input * total_output) / (total_input + amount)
}

/// A fee never exceeds the amount it is taken from while the rate is at most
/// the whole (10000 basis points).
pub proof fn lemma_fee_le_amount(amount: int, fee_bps: int)
    requires
        0 <= amount,
        0 <= fee_bps <= BPS_DIVISOR,
    ensures
        0 <= fee_spec(amount, fee_bps) <= amount,
{
    let d = BPS_DIVISOR as int;
    lemma_mul_inequality(fee_bps, d, amount);
    lemma_mul_is_commutative(amount, fee_bps);
    lemma_mul_is_commutative(amount, d);
    lemma_div_is_ordered(amount * fee_bps, amount * d, d);
    lemma_div_multiples_vanish(amount, d);
    lemma_div_is_ordered(0, amount * fee_bps, d);
}

/// Basis-point fee on `amount`, or `MathOverflow` when the scaled product
/// does not fit in 64 bits.
pub fn fee_amount(amount: u64, fee_bps: u64) -> (r: Result<u64, PredictionMarketError>)
    ensures
        r is Ok <==> amount * fee_bps <= u64::MAX,
        r matches Ok(f) ==> f == fee_spec(amount as int, fee_bps as int),
        r matches Err(e) ==> e == PredictionMarketError::MathOverflow,
{
    match amount.checked_mul(fee_bps) {
        Some(scaled) => Ok(scaled / BPS_DIVISOR),
        None => Err(PredictionMarketError::MathOverflow),
    }
}

/// The curve's gross output never exceeds the output side's combined total,
/// and is never negative.
pub proof fn lemma_curve_gross_bounds(total_input: int, total_output: int, amount: int)
    requires
        0 <= total_input,
        0 <= total_output,
        0 < amount,
    ensures
        0 <= curve_gross_spec(total_input, total_output, amount) <= total_output,
{
    let k = total_input * total_output;
    let quot = k / (total_input + amount);
    vstd::arithmetic::mul::lemma_mul_nonnegative(total_input, total_output);
    lemma_div_is_ordered(0, k, total_input + amount);
    if total_input == 0 {
        assert(k == 0);
        lemma_div_basics(amount);
        assert(quot == 0);
    } else {
        lemma_div_is_ordered_by_denominator(k, total_input, total_input + amount);
        lemma_div_multiples_vanish(total_output, total_input);
        assert(k / total_input == total_output);
    }
}

/// Gross output of one constant-product swap. `input_reserve`/`base_input`
/// are the real and virtual liquidity of the side the trader adds `amount`
/// to; `output_reserve`/`base_output` those of the side paying out. Fails
/// with `MathOverflow` when the invariant product exceeds 128 bits or the
/// output exceeds 64 bits; the result is otherwise exactly the curve's value.
pub fn constant_product_output(
    input_reserve: u64,
    base_input: u64,
    output_reserve: u64,
    base_output: u64,
    amount: u64,
) -> (r: Result<u64, PredictionMarketError>)
    requires
        amount > 0,
    ensures
        ({
            let ti = input_reserve + base_input;
            let to = output_reserve + base_output;
            let gross = curve_gross_spec(ti, to, amount as int);
            &&& (r is Ok <==> ti * to <= u128::MAX && gross <= u64::MAX)
            &&& (r matches Ok(g) ==> g == gross && g <= to)
            &&& (r matches Err(e) ==> e == PredictionMarketError::MathOverflow)
        }),
{
    let total_input: u128 = input_reserve as u128 + base_input as u128;
    let total_output: u128 = output_reserve as u128 + base_output as u128;
    let k = match total_input.checked_mul(total_output) {
        Some(k) => k,
        None => {
            return Err(PredictionMarketError::MathOverflow);
        },
    };
    let new_total_input: u128 = total_input + amount as u128;
    let new_total_output: u128 = k / new_total_input;
    proof {
        lemma_curve_gross_bounds(total_input as int, total_output as int, amount as int);
    }
    let gross: u128 = total_output - new_total_output;
    if gross > u64::MAX as u128 {
        return Err(PredictionMarketError::MathOverflow);
    }
    Ok(gross as u64)
}

/// Newton step `(x + n / x) / 2`, with the bound that keeps it within `u128`.
fn newton_step(n: u128, x: u128) -> (y: u128)
    requires
        1 <= x,
        x as int <= n as int / 2 + 1,
        n < u128::MAX,
    ensures
        y as int == (x as int + n as int / x as int) / 2,
{
    proof {
        let ni = n as int;
        let xi = x as int;
        if xi == 1 {
            lemma_div_basics(ni);
        } else {
            lemma_div_is_ordered_by_denominator(ni, 2, xi);
        }
    }
    (x + n / x) / 2
}

/// One step of Newton's iteration stays above the true square root: from
/// `n < x * (q + 1)` (with `q` the floor of `n / x`) and `2 * y + 1 >= x + q`
/// it follows that `(y + 1)^2 > n`.
proof fn lemma_newton_step_upper(x: int, q: int, y: int, n: int) by (nonlinear_arith)
    requires
        1 <= x,
        0 <= q,
        0 <= n,
        n < x * q + x,
        2 * y + 1 >= x + q,
    ensures
        n < (y + 1) * (y + 1),
{
    assert((x - (q + 1)) * (x - (q + 1)) >= 0);
    assert((x + q + 1) * (x + q + 1) >= 4 * (x * (q + 1)));
    assert((2 * (y + 1)) * (2 * (y + 1)) >= (x + q + 1) * (x + q + 1));
}

/// Integer square root by Newton's method: the greatest `r` with `r * r <= n`.
pub fn integer_sqrt(n: u128) -> (r: u64)
    ensures
        (r as int) * (r as int) <= n as int,
        (n as int) < (r as int + 1) * (r as int + 1),
{
    if n == 0 {
        return 0;
    }
    let cap: u128 = u64::MAX as u128;
    if n >= cap * cap {
        proof {
            assert(cap as int + 1 == 0x1_0000_0000_0000_0000);
            assert(0x1_0000_0000_0000_0000int * 0x1_0000_0000_0000_0000int > u128::MAX as int);
        }
        return u64::MAX;
    }
    let mut x: u128 = n / 2 + 1;
    proof {
        let h = n as int / 2;
        lemma_fundamental_div_mod(n as int, 2);
        lemma_mod_bound(n as int, 2);
        assert((h + 2) * (h + 2) > n as int) by (nonlinear_arith)
            requires
                0 <= h,
                n as int <= 2 * h + 1,
        ;
    }
    let mut y: u128 = newton_step(n, x);
    while y < x
        invariant
            1 <= n < u128::MAX,
            1 <= x,
            x as int <= n as int / 2 + 1,
            (x as int + 1) * (x as int + 1) > n as int,
            y as int == (x as int + n as int / x as int) / 2,
        decreases x,
    {
        proof {
            let xi = x as int;
            let yi = y as int;
            let ni = n as int;
            let q = ni / xi;
            lemma_fundamental_div_mod(ni, xi);
            lemma_mod_bound(ni, xi);
            lemma_fundamental_div_mod(xi + q, 2);
            lemma_mod_bound(xi + q, 2);
            lemma_newton_step_upper(xi, q, yi, ni);
            if xi == 1 {
                lemma_div_basics(ni);
            }
            assert(yi >= 1);
        }
        x = y;
        y = newton_step(n, x);
    }
    proof {
        let xi = x as int;
        let ni = n as int;
        let q = ni / xi;
        lemma_fundamental_div_mod(ni, xi);
        lemma_mod_bound(ni, xi);
        lemma_fundamental_div_mod(xi + q, 2);
        lemma_mod_bound(xi + q, 2);
        assert(q >= xi);
        assert(xi * xi <= ni) by (nonlinear_arith)
            requires
                1 <= xi,
                xi <= q,
                xi * q <= ni,
        ;
        let m = u64::MAX as int;
        assert(xi <= m) by (nonlinear_arith)
            requires
                0 <= xi,
                0 <= m,
                xi * xi < (m * m),
        ;
    }
    x as u64
}

} // verus!
