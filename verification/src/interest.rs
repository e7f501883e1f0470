//! The interest model: simple (non-compounding) interest, proportional to
//! elapsed wall-clock time, rounding toward zero.

use crate::state::Loan;
use vstd::arithmetic::div_mod::{lemma_div_by_multiple, lemma_div_is_ordered};
use vstd::arithmetic::mul::lemma_mul_inequality;
use vstd::prelude::*;

verus! {

/// Seconds in the 365-day year that annual rates are quoted against.
pub const SECONDS_PER_YEAR: u64 = 31_536_000;

/// Simple interest owed on `principal` at an annual rate of `rate_bps`
/// basis points after `elapsed_seconds`, rounded toward zero.
pub open spec fn interest(principal: int, rate_bps: int, elapsed_seconds: int) -> int {
    (principal * rate_bps * elapsed_seconds) / (10000 * (SECONDS_PER_YEAR as int))
}

/// Interest a loan has accrued by time `now`: simple interest on its
/// principal, at its rate, over the wall-clock time since it started.
pub open spec fn accrued_interest(loan: Loan, now: i64) -> int {
    interest(loan.principal as int, loan.interest_rate_bps as int, now - loan.start_ts)
}

/// Interest computation that reports, rather than wraps on, a result too
/// large for a 64-bit amount.  The intermediate product is taken at 128 bits,
/// which is exact whenever the final quotient is representable.
pub fn interest_checked(principal: u64, rate_bps: u16, elapsed_seconds: u64) -> (r: Option<u64>)
    ensures
        match r {
            Some(i) => i == interest(principal as int, rate_bps as int, elapsed_seconds as int),
            None => interest(principal as int, rate_bps as int, elapsed_seconds as int)
                > u64::MAX,
        },
{
    proof {
        lemma_mul_inequality(principal as int, u64::MAX as int, rate_bps as int);
        lemma_mul_inequality(rate_bps as int, u16::MAX as int, u64::MAX as int);
    }
    let rate_part: u128 = (principal as u128) * (rate_bps as u128);
    match rate_part.checked_mul(elapsed_seconds as u128) {
        Some(product) => {
            let quotient: u128 = product / 315_360_000_000u128;
            if quotient <= u64::MAX as u128 {
                Some(quotient as u64)
            } else {
                None
            }
        },
        None => {
            proof {
                let p = principal as int;
                let r = rate_bps as int;
                let e = elapsed_seconds as int;
                let denom = 10000 * (SECONDS_PER_YEAR as int);
                assert((u64::MAX + 1) * denom < u128::MAX as int + 1);
                lemma_div_by_multiple(u64::MAX as int + 1, denom);
                lemma_div_is_ordered((u64::MAX as int + 1) * denom, p * r * e, denom);
            }
            None
        },
    }
}

/// Interest as a plain value, for inputs whose result fits a 64-bit amount.
pub fn calculate_interest(principal: u64, rate_bps: u16, elapsed_seconds: u64) -> (r: u64)
    requires
        interest(principal as int, rate_bps as int, elapsed_seconds as int) <= u64::MAX,
    ensures
        r == interest(principal as int, rate_bps as int, elapsed_seconds as int),
{
    let r = interest_checked(principal, rate_bps, elapsed_seconds);
    r.unwrap()
}

/// Interest is zero whenever the principal, the rate, or the elapsed time
/// is zero.
pub proof fn lemma_interest_zero(principal: int, rate_bps: int, elapsed_seconds: int)
    ensures
        interest(0, rate_bps, elapsed_seconds) == 0,
        interest(principal, 0, elapsed_seconds) == 0,
        interest(principal, rate_bps, 0) == 0,
{
    assert(0 * rate_bps * elapsed_seconds == 0) by (nonlinear_arith);
    assert(principal * 0 * elapsed_seconds == 0) by (nonlinear_arith);
    assert(principal * rate_bps * 0 == 0) by (nonlinear_arith);
}

/// Interest is monotonic non-decreasing in the principal.
pub proof fn lemma_interest_monotonic_in_principal(p1: int, p2: int, rate_bps: int, elapsed_seconds: int)
    requires
        0 <= p1 <= p2,
        0 <= rate_bps,
        0 <= elapsed_seconds,
    ensures
        interest(p1, rate_bps, elapsed_seconds) <= interest(p2, rate_bps, elapsed_seconds),
{
    assert(p1 * rate_bps * elapsed_seconds <= p2 * rate_bps * elapsed_seconds)
        by (nonlinear_arith)
        requires
            0 <= p1 <= p2,
            0 <= rate_bps,
            0 <= elapsed_seconds,
    ;
    lemma_div_is_ordered(
        p1 * rate_bps * elapsed_seconds,
        p2 * rate_bps * elapsed_seconds,
        10000 * (SECONDS_PER_YEAR as int),
    );
}

/// Interest is monotonic non-decreasing in the rate.
pub proof fn lemma_interest_monotonic_in_rate(principal: int, r1: int, r2: int, elapsed_seconds: int)
    requires
        0 <= principal,
        0 <= r1 <= r2,
        0 <= elapsed_seconds,
    ensures
        interest(principal, r1, elapsed_seconds) <= interest(principal, r2, elapsed_seconds),
{
    assert(principal * r1 * elapsed_seconds <= principal * r2 * elapsed_seconds)
        by (nonlinear_arith)
        requires
            0 <= principal,
            0 <= r1 <= r2,
            0 <= elapsed_seconds,
    ;
    lemma_div_is_ordered(
        principal * r1 * elapsed_seconds,
        principal * r2 * elapsed_seconds,
        10000 * (SECONDS_PER_YEAR as int),
    );
}

/// Interest is monotonic non-decreasing in the elapsed time.
pub proof fn lemma_interest_monotonic_in_elapsed(principal: int, rate_bps: int, e1: int, e2: int)
    requires
        0 <= principal,
        0 <= rate_bps,
        0 <= e1 <= e2,
    ensures
        interest(principal, rate_bps, e1) <= interest(principal, rate_bps, e2),
{
    assert(principal * rate_bps * e1 <= principal * rate_bps * e2)
        by (nonlinear_arith)
        requires
            0 <= principal,
            0 <= rate_bps,
            0 <= e1 <= e2,
    ;
    lemma_div_is_ordered(
        principal * rate_bps * e1,
        principal * rate_bps * e2,
        10000 * (SECONDS_PER_YEAR as int),
    );
}

} // verus!
