//! Fixed-point conversion from native-currency amounts to USD values.
//!
//! A price carries 6 implied decimal places, so the USD value of an amount
//! is `floor(amount * price / 1_000_000)`. The conversion widens to 128 bits
//! so the full product always fits, and rejects results that do not narrow
//! back to 64 bits instead of wrapping.

use vstd::arithmetic::div_mod::lemma_div_is_ordered;
use vstd::prelude::*;

use crate::contribution::ErrorCode;

verus! {

/// Number of units in one whole price step: prices carry 6 implied
/// decimal places.
pub const PRICE_SCALE: u64 = 1_000_000;

/// The USD value of `amount` native units at `price_usd_6dp`, as exact
/// (unbounded) integer arithmetic: `floor(amount * price / 1_000_000)`.
pub open spec fn usd_value(amount: int, price_usd_6dp: int) -> int {
    (amount * price_usd_6dp) / (PRICE_SCALE as int)
}

/// Converts `amount` native units at price `price_usd_6dp` (6 implied
/// decimals) into a whole-USD value, truncating. Returns
/// `CalculationFailed` exactly when the mathematical result does not fit
/// in 64 bits; it is never silently wrapped or truncated.
pub fn to_usd(amount: u64, price_usd_6dp: u64) -> (r: Result<u64, ErrorCode>)
    ensures
        usd_value(amount as int, price_usd_6dp as int) <= u64::MAX ==> r == Ok::<u64, ErrorCode>(
            usd_value(amount as int, price_usd_6dp as int) as u64,
        ),
        usd_value(amount as int, price_usd_6dp as int) > u64::MAX ==> r == Err::<
            u64,
            ErrorCode,
        >(ErrorCode::CalculationFailed),
{
    proof {
        assert((amount as int) * (price_usd_6dp as int) <= u128::MAX) by (nonlinear_arith)
            requires
                amount <= u64::MAX,
                price_usd_6dp <= u64::MAX,
        ;
    }
    let product: u128 = (amount as u128) * (price_usd_6dp as u128);
    let usd: u128 = product / (PRICE_SCALE as u128);
    if usd > u64::MAX as u128 {
        Err(ErrorCode::CalculationFailed)
    } else {
        Ok(usd as u64)
    }
}

/// Law: the USD valuation is monotonically non-decreasing in both the
/// amount and the price.
pub proof fn lemma_usd_value_monotonic(amount1: int, price1: int, amount2: int, price2: int)
    requires
        0 <= amount1 <= amount2,
        0 <= price1 <= price2,
    ensures
        usd_value(amount1, price1) <= usd_value(amount2, price2),
{
    assert(amount1 * price1 <= amount2 * price2) by (nonlinear_arith)
        requires
            0 <= amount1 <= amount2,
            0 <= price1 <= price2,
    ;
    lemma_div_is_ordered(amount1 * price1, amount2 * price2, PRICE_SCALE as int);
}

} // verus!
