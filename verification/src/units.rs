//! Fixed-point arithmetic: prices and asset amounts are integers counting
//! hundred-millionths (eight decimal places).

use vstd::prelude::*;

verus! {

/// Number of fixed-point units in one whole: amounts and prices carry eight
/// decimal places.
pub const SCALE: u64 = 100_000_000;

/// The quote-currency value of `amount` at `price`, both in fixed-point
/// units: `amount * price / SCALE`, truncated.
pub open spec fn spec_value(amount: u64, price: u64) -> u128 {
    ((amount * price) / (SCALE as int)) as u128
}

/// Multiplies an asset amount by its price, in fixed-point units.
pub fn quote_value(amount: u64, price: u64) -> (v: u128)
    ensures
        v == spec_value(amount, price),
{
    proof {
        assert((amount as int) * (price as int) <= u64::MAX * u64::MAX) by (nonlinear_arith)
            requires
                amount <= u64::MAX,
                price <= u64::MAX,
        ;
    }
    (amount as u128) * (price as u128) / (SCALE as u128)
}

/// Rounding a price to the exchange's five-decimal tick size: with eight
/// decimal places carried internally, that is rounding half-up to the
/// nearest thousand units.
pub open spec fn spec_round_to_precision(n: int) -> int {
    ((n + 500) / 1000) * 1000
}

/// Rounds a price to five decimal places, half away from zero.
pub fn round_to_precision(num: u64) -> (r: u64)
    requires
        num + 500 <= u64::MAX,
    ensures
        r == spec_round_to_precision(num as int),
{
    ((num + 500) / 1000) * 1000
}

} // verus!
