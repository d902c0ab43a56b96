//! Integer-exact money arithmetic: basis points, fixed-point exchange rates,
//! and division that truncates toward zero.

use vstd::prelude::*;

verus! {

/// One hundred percent in basis points.
pub const BPS_DENOMINATOR: i128 = 10000;

/// The fixed-point scale of an exchange rate: six decimal places.
pub const RATE_SCALE: i128 = 1000000;

/// The quotient of `a` by a positive `d`, rounded toward zero.
pub open spec fn trunc_div(a: int, d: int) -> int {
    if a >= 0 {
        a / d
    } else {
        -((-a) / d)
    }
}

/// Whether `v` is a value of `i128`.
pub open spec fn fits_i128(v: int) -> bool {
    i128::MIN <= v <= i128::MAX
}

/// `value * numerator / scale`, truncated toward zero; `None` when the
/// product leaves the 128-bit signed range.
pub open spec fn spec_scaled(value: int, numerator: int, scale: int) -> Option<int> {
    if fits_i128(value * numerator) {
        Some(trunc_div(value * numerator, scale))
    } else {
        None
    }
}

/// The destination amount that `amount` converts to at `rate`, a fixed-point
/// number with six decimals.
pub open spec fn spec_estimate(amount: int, rate: int) -> Option<int> {
    spec_scaled(amount, rate, RATE_SCALE as int)
}

/// `bps` basis points of `value`: `value * bps / 10000`.
pub open spec fn spec_basis_points(value: int, bps: int) -> Option<int> {
    spec_scaled(value, bps, BPS_DENOMINATOR as int)
}

/// The protocol fee on `amount` at `fee_bps` basis points.
pub open spec fn spec_fee(amount: int, fee_bps: int) -> Option<int> {
    spec_basis_points(amount, fee_bps)
}

/// The interest on a loan of `amount` at `rate_bps` basis points.
pub open spec fn spec_interest(amount: int, rate_bps: int) -> int {
    trunc_div(amount * rate_bps, BPS_DENOMINATOR as int)
}

/// What a borrower owes in total: the principal plus the interest.
pub open spec fn spec_total_due(amount: int, rate_bps: int) -> int {
    amount + spec_interest(amount, rate_bps)
}

/// What a borrower owes in total, where it can be computed in 128 bits:
/// `None` when the product `amount * rate_bps` or the sum of principal and
/// interest leaves the 128-bit signed range.
pub open spec fn spec_checked_total_due(amount: int, rate_bps: int) -> Option<int> {
    if fits_i128(amount * rate_bps) && fits_i128(spec_total_due(amount, rate_bps)) {
        Some(spec_total_due(amount, rate_bps))
    } else {
        None
    }
}

/// Computes `value * numerator / scale` with checked multiplication.
fn scaled(value: i128, numerator: i128, scale: i128) -> (res: Option<i128>)
    requires
        scale > 0,
    ensures
        match spec_scaled(value as int, numerator as int, scale as int) {
            Some(v) => res == Some(v as i128) && fits_i128(v),
            None => res.is_none(),
        },
{
    match value.checked_mul(numerator) {
        None => None,
        Some(product) => {
            let quotient = product.checked_div(scale);
            proof {
                let p = product as int;
                let d = scale as int;
                assert(p == value * numerator);
                if p > 0 {
                    assert(0 <= p / d <= p) by (nonlinear_arith)
                        requires
                            p > 0,
                            d > 0,
                    ;
                } else if p < 0 {
                    assert(p * -1 == -p);
                    assert(0 <= (-p) / d <= -p) by (nonlinear_arith)
                        requires
                            p < 0,
                            d > 0,
                    ;
                    assert(((p * -1) / d) * -1 == -((-p) / d));
                } else {
                    assert(0int / d == 0) by (nonlinear_arith)
                        requires
                            d > 0,
                    ;
                }
            }
            quotient
        },
    }
}

/// Estimates the destination amount of a conversion: `amount * rate /
/// 1_000_000`, truncated toward zero. `None` when the product overflows.
pub fn estimate_destination(amount: i128, rate: i128) -> (res: Option<i128>)
    ensures
        match spec_estimate(amount as int, rate as int) {
            Some(v) => res == Some(v as i128) && fits_i128(v),
            None => res.is_none(),
        },
{
    scaled(amount, rate, RATE_SCALE)
}

/// Computes `bps` basis points of `value`: `value * bps / 10000`, truncated
/// toward zero. `None` when the product overflows.
pub fn basis_points_of(value: i128, bps: u32) -> (res: Option<i128>)
    ensures
        match spec_basis_points(value as int, bps as int) {
            Some(v) => res == Some(v as i128) && fits_i128(v),
            None => res.is_none(),
        },
{
    scaled(value, bps as i128, BPS_DENOMINATOR)
}

/// Computes the protocol fee `amount * fee_bps / 10000`, truncated toward
/// zero. `None` when the product overflows.
pub fn protocol_fee(amount: i128, fee_bps: u32) -> (res: Option<i128>)
    ensures
        match spec_fee(amount as int, fee_bps as int) {
            Some(v) => res == Some(v as i128) && fits_i128(v),
            None => res.is_none(),
        },
{
    basis_points_of(amount, fee_bps)
}

/// Computes what a borrower owes in total: `amount + amount * rate_bps /
/// 10000`, the quotient truncated toward zero. `None` when the product or
/// the sum leaves the 128-bit signed range.
pub fn checked_total_due(amount: i128, rate_bps: u32) -> (res: Option<i128>)
    ensures
        match spec_checked_total_due(amount as int, rate_bps as int) {
            Some(v) => res == Some(v as i128) && fits_i128(v),
            None => res.is_none(),
        },
{
    match basis_points_of(amount, rate_bps) {
        None => None,
        Some(interest) => amount.checked_add(interest),
    }
}

} // verus!
