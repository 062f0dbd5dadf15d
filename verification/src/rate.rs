use vstd::prelude::*;

use crate::error::ArithmeticError;
use vstd::arithmetic::div_mod::lemma_div_is_ordered;
use vstd::arithmetic::div_mod::lemma_div_pos_is_pos;
use vstd::arithmetic::mul::lemma_mul_inequality;
use vstd::arithmetic::mul::lemma_mul_nonnegative;
use vstd::arithmetic::mul::lemma_mul_upper_bound;

verus! {

/// The mathematically exact floored ratio `(amount * rate_bps) / scale`,
/// taken over unbounded integers: the multiplication loses nothing, and
/// the only rounding anywhere is the final floor of the division.
pub open spec fn exact_rate_quotient(amount: u64, rate_bps: u64, scale: u64) -> int
    recommends
        scale > 0,
{
    (amount * rate_bps) / (scale as int)
}

/// What a rate application returns: the exact floored ratio when it is
/// representable at width 64, and `ArithmeticOverflow` otherwise.
pub open spec fn spec_apply_rate(amount: u64, rate_bps: u64, scale: u64) -> Result<
    u64,
    ArithmeticError,
>
    recommends
        scale > 0,
{
    if exact_rate_quotient(amount, rate_bps, scale) <= u64::MAX {
        Ok(exact_rate_quotient(amount, rate_bps, scale) as u64)
    } else {
        Err(ArithmeticError::ArithmeticOverflow)
    }
}

/// Applies a rate of `rate_bps` parts-per-`scale` to `amount` (with
/// `scale = 10_000` the rate is in basis points).
///
/// The multiplication `amount * rate_bps` is performed first, in full, at
/// double width, so no remainder is discarded before scaling: the naive
/// ordering `(amount / scale) * rate_bps` would drop the division
/// remainder early and, for `amount < scale`, collapse to zero. The
/// product is divided only afterwards, and the quotient is narrowed back
/// to 64 bits only after an explicit range check — never by an implicit
/// truncating cast. Both the widened multiplication and the narrowing are
/// checked paths that fail with `ArithmeticOverflow`.
pub fn apply_rate(amount: u64, rate_bps: u64, scale: u64) -> (result: Result<
    u64,
    ArithmeticError,
>)
    requires
        scale > 0,
    ensures
        result == spec_apply_rate(amount, rate_bps, scale),
        exact_rate_quotient(amount, rate_bps, scale) <= u64::MAX ==> result == Ok::<
            u64,
            ArithmeticError,
        >(exact_rate_quotient(amount, rate_bps, scale) as u64),
        exact_rate_quotient(amount, rate_bps, scale) > u64::MAX ==> result == Err::<
            u64,
            ArithmeticError,
        >(ArithmeticError::ArithmeticOverflow),
{
    proof {
        lemma_mul_nonnegative(amount as int, rate_bps as int);
        lemma_mul_upper_bound(amount as int, u64::MAX as int, rate_bps as int, u64::MAX as int);
        lemma_div_pos_is_pos(amount * rate_bps, scale as int);
    }
    let numerator: u128 = match (amount as u128).checked_mul(rate_bps as u128) {
        Some(wide) => wide,
        // Unreachable at width 64 — the product of two 64-bit values always
        // fits in 128 bits — but kept as a checked path, not an assumption.
        None => {
            return Err(ArithmeticError::ArithmeticOverflow);
        },
    };
    let quotient: u128 = numerator / (scale as u128);
    if quotient <= u64::MAX as u128 {
        Ok(quotient as u64)
    } else {
        Err(ArithmeticError::ArithmeticOverflow)
    }
}

/// Rate monotonicity: for a fixed rate and scale, the applied rate is
/// non-decreasing in the amount. In particular, whenever the larger
/// amount's result is representable, the smaller amount's is too, and the
/// two results are ordered with their amounts.
pub proof fn lemma_apply_rate_monotonic(amount1: u64, amount2: u64, rate_bps: u64, scale: u64)
    requires
        scale > 0,
        amount1 <= amount2,
    ensures
        exact_rate_quotient(amount1, rate_bps, scale) <= exact_rate_quotient(
            amount2,
            rate_bps,
            scale,
        ),
        spec_apply_rate(amount2, rate_bps, scale) is Ok ==> spec_apply_rate(
            amount1,
            rate_bps,
            scale,
        ) is Ok,
        spec_apply_rate(amount1, rate_bps, scale) is Ok && spec_apply_rate(
            amount2,
            rate_bps,
            scale,
        ) is Ok ==> spec_apply_rate(amount1, rate_bps, scale)->Ok_0 <= spec_apply_rate(
            amount2,
            rate_bps,
            scale,
        )->Ok_0,
{
    lemma_mul_inequality(amount1 as int, amount2 as int, rate_bps as int);
    lemma_mul_nonnegative(amount1 as int, rate_bps as int);
    lemma_div_is_ordered(amount1 * rate_bps, amount2 * rate_bps, scale as int);
    lemma_div_pos_is_pos(amount1 * rate_bps, scale as int);
}

/// Rate precision: the result is the mathematically exact floored ratio —
/// `floor(amount * rate_bps / scale)` computed in arbitrary precision —
/// whenever that ratio is representable at width 64, never an
/// order-dependent approximation.
pub proof fn lemma_apply_rate_exact(amount: u64, rate_bps: u64, scale: u64)
    requires
        scale > 0,
        exact_rate_quotient(amount, rate_bps, scale) <= u64::MAX,
    ensures
        spec_apply_rate(amount, rate_bps, scale) == Ok::<u64, ArithmeticError>(
            ((amount * rate_bps) / (scale as int)) as u64,
        ),
{
}

} // verus!
