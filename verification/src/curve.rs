//! The constant-product curve `x * y = k`.
//!
//! A trade adds `amount_in` to one reserve and takes `amount_out` from the
//! other. The curve pays out the largest whole amount that does not lower the
//! product of the two reserves, so rounding is always in the pool's favour.

use vstd::prelude::*;

verus! {

/// Why the curve refused to price a trade.
#[derive(Clone, Copy, Debug, PartialEq, Eq, Structural)]
pub enum CurveError {
    /// One of the two reserves is empty, so the pool has no price.
    ZeroBalance,
}

/// The curve itself. It has no state: every function takes the reserves it
/// should price against.
pub struct ConstantProduct;

/// Whether taking `amount_out` from `reserve_out` while adding `amount_in` to
/// `reserve_in` leaves the product of the reserves at least as large as it was.
pub open spec fn keeps_product(
    reserve_in: int,
    reserve_out: int,
    amount_in: int,
    amount_out: int,
) -> bool {
    (reserve_in + amount_in) * (reserve_out - amount_out) >= reserve_in * reserve_out
}

/// The amount paid out for `amount_in` against positive reserves:
/// `reserve_out * amount_in / (reserve_in + amount_in)`, rounded down.
pub open spec fn delta_out(reserve_in: int, reserve_out: int, amount_in: int) -> int {
    (reserve_out * amount_in) / (reserve_in + amount_in)
}

/// What the curve answers for a trade: an error on an empty reserve, the
/// payout otherwise.
pub open spec fn quote(reserve_in: u64, reserve_out: u64, amount_in: u64) -> Result<
    u64,
    CurveError,
> {
    if reserve_in == 0 || reserve_out == 0 {
        Err(CurveError::ZeroBalance)
    } else {
        Ok(delta_out(reserve_in as int, reserve_out as int, amount_in as int) as u64)
    }
}

/// The payout never lowers the product of the reserves, and stays below the
/// reserve it is taken from.
pub proof fn lemma_delta_out_keeps_product(reserve_in: int, reserve_out: int, amount_in: int)
    requires
        reserve_in > 0,
        reserve_out > 0,
        amount_in >= 0,
    ensures
        0 <= delta_out(reserve_in, reserve_out, amount_in) < reserve_out,
        keeps_product(
            reserve_in,
            reserve_out,
            amount_in,
            delta_out(reserve_in, reserve_out, amount_in),
        ),
{
    let d = reserve_in + amount_in;
    let n = reserve_out * amount_in;
    let q = n / d;
    assert(n >= 0) by (nonlinear_arith)
        requires
            n == reserve_out * amount_in,
            reserve_out > 0,
            amount_in >= 0,
    ;
    assert(0 <= q && q * d <= n && n < (q + 1) * d) by (nonlinear_arith)
        requires
            q == n / d,
            d > 0,
            n >= 0,
    ;
    assert(q < reserve_out) by (nonlinear_arith)
        requires
            q * d <= n,
            n == reserve_out * amount_in,
            d == reserve_in + amount_in,
            reserve_in > 0,
            reserve_out > 0,
            amount_in >= 0,
            q >= 0,
    ;
    assert((reserve_in + amount_in) * (reserve_out - q) >= reserve_in * reserve_out)
        by (nonlinear_arith)
        requires
            q * d <= n,
            n == reserve_out * amount_in,
            d == reserve_in + amount_in,
    ;
}

/// No larger payout keeps the product: the curve pays the most it safely can.
pub proof fn lemma_delta_out_is_largest(
    reserve_in: int,
    reserve_out: int,
    amount_in: int,
    amount_out: int,
)
    requires
        reserve_in > 0,
        reserve_out > 0,
        amount_in >= 0,
        amount_out > delta_out(reserve_in, reserve_out, amount_in),
    ensures
        !keeps_product(reserve_in, reserve_out, amount_in, amount_out),
{
    let d = reserve_in + amount_in;
    let n = reserve_out * amount_in;
    let q = n / d;
    assert(n >= 0) by (nonlinear_arith)
        requires
            n == reserve_out * amount_in,
            reserve_out > 0,
            amount_in >= 0,
    ;
    assert(n < (q + 1) * d) by (nonlinear_arith)
        requires
            q == n / d,
            d > 0,
            n >= 0,
    ;
    assert((reserve_in + amount_in) * (reserve_out - amount_out) < reserve_in * reserve_out)
        by (nonlinear_arith)
        requires
            n < (q + 1) * d,
            amount_out >= q + 1,
            n == reserve_out * amount_in,
            d == reserve_in + amount_in,
            d > 0,
    ;
}

impl ConstantProduct {
    /// Prices a trade of `amount_in` into `reserve_in`, paid from `reserve_out`.
    ///
    /// The product `reserve_out * amount_in` is taken in 128 bits, where it
    /// cannot overflow; the quotient is below `reserve_out`, so it narrows back
    /// to 64 bits without loss.
    pub fn delta_out_from_in(reserve_in: u64, reserve_out: u64, amount_in: u64) -> (result: Result<
        u64,
        CurveError,
    >)
        ensures
            result == quote(reserve_in, reserve_out, amount_in),
            result is Err <==> reserve_in == 0 || reserve_out == 0,
            result matches Ok(amount_out) ==> {
                &&& amount_out == delta_out(reserve_in as int, reserve_out as int, amount_in as int)
                &&& amount_out < reserve_out
                &&& keeps_product(
                    reserve_in as int,
                    reserve_out as int,
                    amount_in as int,
                    amount_out as int,
                )
            },
    {
        if reserve_in == 0 || reserve_out == 0 {
            return Err(CurveError::ZeroBalance);
        }
        proof {
            lemma_delta_out_keeps_product(reserve_in as int, reserve_out as int, amount_in as int);
            assert(reserve_out as int * amount_in as int <= u64::MAX as int * u64::MAX as int)
                by (nonlinear_arith)
                requires
                    0 <= reserve_out as int <= u64::MAX as int,
                    0 <= amount_in as int <= u64::MAX as int,
            ;
        }
        let numerator: u128 = reserve_out as u128 * amount_in as u128;
        let denominator: u128 = reserve_in as u128 + amount_in as u128;
        let amount_out: u128 = numerator / denominator;
        Ok(amount_out as u64)
    }

    /// The amount of Y paid out when `a` of X is sold into reserves `(x, y)`.
    pub fn delta_y_from_x_swap_amount(x: u64, y: u64, a: u64) -> (result: Result<u64, CurveError>)
        ensures
            result == quote(x, y, a),
    {
        Self::delta_out_from_in(x, y, a)
    }

    /// The amount of X paid out when `a` of Y is sold into reserves `(x, y)`.
    pub fn delta_x_from_y_swap_amount(x: u64, y: u64, a: u64) -> (result: Result<u64, CurveError>)
        ensures
            result == quote(y, x, a),
    {
        Self::delta_out_from_in(y, x, a)
    }
}

} // verus!
