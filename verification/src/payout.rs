use vstd::prelude::*;

use crate::error::EscrowError;
use crate::types::{BPS_DENOMINATOR, MAX_YIELD_BPS};

verus! {

/// Principal plus simple yield, the yield rounded down to a base unit.
pub open spec fn principal_plus_yield(principal: int, yield_bps: int) -> int {
    principal + (principal * yield_bps) / (BPS_DENOMINATOR as int)
}

/// The checked computation overflows when the intermediate product or the
/// final sum leaves the `i128` range.
pub open spec fn payout_overflows(principal: int, yield_bps: int) -> bool {
    principal * yield_bps > i128::MAX || principal_plus_yield(principal, yield_bps) > i128::MAX
}

/// `principal + principal * yield_bps / 10_000` in checked arithmetic.
pub fn calculate_principal_plus_yield(principal: i128, yield_bps: i64) -> (r: Result<
    i128,
    EscrowError,
>)
    requires
        principal >= 0,
        0 <= yield_bps <= MAX_YIELD_BPS,
    ensures
        payout_overflows(principal as int, yield_bps as int) ==> r == Err::<i128, EscrowError>(
            EscrowError::ComputePayoutArithmeticOverflow,
        ),
        !payout_overflows(principal as int, yield_bps as int) ==> r == Ok::<i128, EscrowError>(
            principal_plus_yield(principal as int, yield_bps as int) as i128,
        ),
{
    let y = yield_bps as i128;
    assert(principal * y >= 0) by (nonlinear_arith)
        requires
            principal >= 0,
            y >= 0,
    ;
    match principal.checked_mul(y) {
        None => Err(EscrowError::ComputePayoutArithmeticOverflow),
        Some(prod) => {
            let interest = prod / BPS_DENOMINATOR;
            match principal.checked_add(interest) {
                None => Err(EscrowError::ComputePayoutArithmeticOverflow),
                Some(total) => Ok(total),
            }
        },
    }
}

/// Under the documented bounds the payout is never below the principal and
/// never more than double it.
pub proof fn lemma_payout_between_principal_and_double(principal: int, yield_bps: int)
    requires
        principal >= 0,
        0 <= yield_bps <= MAX_YIELD_BPS,
    ensures
        principal <= principal_plus_yield(principal, yield_bps) <= 2 * principal,
{
    assert(0 <= principal * yield_bps <= principal * 10_000) by (nonlinear_arith)
        requires
            principal >= 0,
            0 <= yield_bps <= 10_000,
    ;
    assert((principal * yield_bps) / 10_000 <= principal) by (nonlinear_arith)
        requires
            0 <= principal * yield_bps <= principal * 10_000,
    ;
}

/// A higher rate never pays less.
pub proof fn lemma_payout_monotone_in_yield(principal: int, y1: int, y2: int)
    requires
        principal >= 0,
        0 <= y1 <= y2,
    ensures
        principal_plus_yield(principal, y1) <= principal_plus_yield(principal, y2),
{
    assert(principal * y1 <= principal * y2) by (nonlinear_arith)
        requires
            principal >= 0,
            y1 <= y2,
    ;
    assert((principal * y1) / 10_000 <= (principal * y2) / 10_000) by (nonlinear_arith)
        requires
            principal * y1 <= principal * y2,
    ;
}

} // verus!
