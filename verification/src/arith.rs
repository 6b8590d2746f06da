use vstd::prelude::*;

use crate::state::BPS_DENOMINATOR;

verus! {

/// Whether an integer is representable as an `i128`.
pub open spec fn fits_i128(x: int) -> bool {
    i128::MIN <= x <= i128::MAX
}

/// Integer division rounding toward zero, as Rust's `/` does on signed integers.
pub open spec fn div_toward_zero(n: int, d: int) -> int
    recommends
        d > 0,
{
    if n >= 0 {
        n / d
    } else {
        -((-n) / d)
    }
}

/// The yield owed on `amount` at `yield_bps` basis points, rounded toward zero.
pub open spec fn interest_on(amount: int, yield_bps: int) -> int {
    div_toward_zero(amount * yield_bps, BPS_DENOMINATOR as int)
}

/// What the buyer owes in total: the principal plus its yield.
pub open spec fn total_due_on(amount: int, yield_bps: int) -> int {
    amount + interest_on(amount, yield_bps)
}

/// Whether the total due can be computed in `i128` arithmetic without overflow:
/// the product `amount * yield_bps` and the final sum must both fit.
pub open spec fn total_due_computable(amount: int, yield_bps: int) -> bool {
    &&& fits_i128(amount * yield_bps)
    &&& fits_i128(total_due_on(amount, yield_bps))
}

/// The total due (principal plus yield) on `amount` at `yield_bps` basis points,
/// or `None` where an intermediate value would overflow `i128`.
pub fn total_due(amount: i128, yield_bps: i64) -> (res: Option<i128>)
    ensures
        res is Some <==> total_due_computable(amount as int, yield_bps as int),
        res matches Some(t) ==> t == total_due_on(amount as int, yield_bps as int),
{
    let product = match amount.checked_mul(yield_bps as i128) {
        Some(p) => p,
        None => return None,
    };
    let interest: i128 = product / BPS_DENOMINATOR;
    assert(interest == interest_on(amount as int, yield_bps as int));
    amount.checked_add(interest)
}

} // verus!
