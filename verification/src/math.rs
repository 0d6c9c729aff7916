//! Integer arithmetic of the pool: floor square root and checked ratios.

use vstd::prelude::*;
use crate::error::{divide_by_zero, overflow, Error, OverflowOperation, StdErrorKind};

verus! {

/// `r` is the floor of the square root of `n`.
pub open spec fn is_floor_sqrt(n: nat, r: nat) -> bool {
    r * r <= n < (r + 1) * (r + 1)
}

/// The floor of the square root of `n`.
pub open spec fn floor_sqrt(n: nat) -> nat {
    choose|r: nat| is_floor_sqrt(n, r)
}

/// `a * b / c` under checked arithmetic: the product must fit in `u128` and
/// the divisor must not be zero. The overflow is reported first.
pub open spec fn ratio(a: u128, b: u128, c: u128) -> Result<u128, Error> {
    if a * b > u128::MAX {
        Err(overflow(OverflowOperation::Mul, a, b))
    } else if c == 0 {
        Err(divide_by_zero((a * b) as u128))
    } else {
        Ok(((a * b) / (c as int)) as u128)
    }
}

/// At most one number is the floor square root of `n`.
pub proof fn lemma_floor_sqrt_unique(n: nat, r1: nat, r2: nat)
    requires
        is_floor_sqrt(n, r1),
        is_floor_sqrt(n, r2),
    ensures
        r1 == r2,
{
    if r1 < r2 {
        assert((r1 + 1) * (r1 + 1) <= r2 * r2) by (nonlinear_arith)
            requires
                r1 + 1 <= r2,
        ;
    } else if r2 < r1 {
        assert((r2 + 1) * (r2 + 1) <= r1 * r1) by (nonlinear_arith)
            requires
                r2 + 1 <= r1,
        ;
    }
}

/// Every number has a floor square root.
pub proof fn lemma_floor_sqrt_exists(n: nat)
    ensures
        exists|r: nat| is_floor_sqrt(n, r),
    decreases n,
{
    if n == 0 {
        assert(is_floor_sqrt(0, 0)) by (nonlinear_arith);
    } else {
        let m: nat = (n - 1) as nat;
        lemma_floor_sqrt_exists(m);
        let r: nat = choose|r: nat| is_floor_sqrt(m, r);
        if (r + 1) * (r + 1) <= n {
            assert((r + 1) * (r + 1) < (r + 2) * (r + 2)) by (nonlinear_arith);
            assert(is_floor_sqrt(n, r + 1));
        } else {
            assert(is_floor_sqrt(n, r));
        }
    }
}

/// `floor_sqrt(n)` squares to at most `n`, and its successor squares to more.
pub proof fn lemma_floor_sqrt(n: nat)
    ensures
        is_floor_sqrt(n, floor_sqrt(n)),
{
    lemma_floor_sqrt_exists(n);
}

/// The square root is at least `k` exactly when `n` is at least `k * k`.
pub proof fn lemma_floor_sqrt_at_least(n: nat, k: nat)
    ensures
        floor_sqrt(n) >= k <==> n >= k * k,
{
    lemma_floor_sqrt(n);
    let r: nat = floor_sqrt(n);
    if r >= k {
        assert(k * k <= r * r) by (nonlinear_arith)
            requires
                k <= r,
        ;
    } else {
        assert((r + 1) * (r + 1) <= k * k) by (nonlinear_arith)
            requires
                r + 1 <= k,
        ;
    }
}

/// Calls `num::integer::Roots::sqrt` on a `u128`. The crate documents the
/// result as the truncated square root `r`, with `r * r <= x < (r + 1) * (r + 1)`;
/// that bound is taken on trust here.
#[verifier::external_body]
fn roots_sqrt(x: u128) -> (r: u128)
    ensures
        r * r <= x < (r + 1) * (r + 1),
{
    num::integer::Roots::sqrt(&x)
}

/// The floor of the square root of `x`.
pub fn sqrt(x: u128) -> (r: u128)
    ensures
        r == floor_sqrt(x as nat),
{
    let r: u128 = roots_sqrt(x);
    proof {
        lemma_floor_sqrt(x as nat);
        lemma_floor_sqrt_unique(x as nat, r as nat, floor_sqrt(x as nat));
    }
    r
}

/// Computes `a * b / c` with checked multiplication and division.
pub fn mul_div(a: u128, b: u128, c: u128) -> (res: Result<u128, Error>)
    ensures
        res == ratio(a, b, c),
{
    match a.checked_mul(b) {
        None => Err(
            Error::Std(
                StdErrorKind::Overflow {
                    operation: OverflowOperation::Mul,
                    operand1: a,
                    operand2: b,
                },
            ),
        ),
        Some(product) => match product.checked_div(c) {
            None => Err(Error::Std(StdErrorKind::DivideByZero { operand: product })),
            Some(quotient) => Ok(quotient),
        },
    }
}

} // verus!
