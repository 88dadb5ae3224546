//! Products that outgrow 128 bits, divided before they do.

use vstd::prelude::*;
use crate::arith::lemma_quotient_between;

verus! {

/// The greatest divisor that [`times_over`] takes: `2^126`.
#[verifier::inline]
pub const WIDEST: u128 = 0x4000_0000_0000_0000_0000_0000_0000_0000;

/// `factor * x` divided by `d`, as quotient and remainder, for an `x` that is
/// no more than `d`. The product itself is never formed: the factor is taken
/// in bit by bit, and what has been gathered is divided as it grows.
pub fn times_over(factor: u64, x: u128, d: u128) -> (qr: (u128, u128))
    requires
        0 < d <= WIDEST,
        x <= d,
    ensures
        qr.0 * d + qr.1 == factor * x,
        qr.1 < d,
        qr.0 <= factor,
        qr.0 == (factor * x) / (d as int),
    decreases factor,
{
    if factor == 0 {
        assert(0 * d + 0 == 0 * x) by (nonlinear_arith);
        assert((0 * x) / (d as int) == 0) by (nonlinear_arith)
            requires
                d > 0,
        ;
        return (0, 0);
    }
    let half: u64 = factor / 2;
    let (q, r) = times_over(half, x, d);
    let bit: u64 = factor % 2;
    let more: u128 = if bit == 1 {
        x
    } else {
        0
    };
    let sum: u128 = 2 * r + more;
    let (step, rest): (u128, u128) = if sum >= 2 * d {
        (2, sum - 2 * d)
    } else if sum >= d {
        (1, sum - d)
    } else {
        (0, sum)
    };
    let quotient: u128 = 2 * q + step;
    proof {
        assert(quotient * d + rest == factor * x) by (nonlinear_arith)
            requires
                q * d + r == half * x,
                quotient == 2 * q + step,
                step * d + rest == 2 * r + more,
                factor == 2 * half + bit,
                (bit == 1 && more == x) || (bit == 0 && more == 0),
        ;
        assert(quotient <= factor) by (nonlinear_arith)
            requires
                quotient * d + rest == factor * x,
                0 <= x <= d,
                0 < d,
                0 <= rest,
        ;
        assert((quotient + 1) * d == quotient * d + d) by (nonlinear_arith);
        lemma_quotient_between(factor * x, d as int, quotient as int, quotient as int);
    }
    (quotient, rest)
}

} // verus!
