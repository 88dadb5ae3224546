//! Facts about products and quotients that the conversions rest on.

use vstd::prelude::*;

verus! {

/// A product of two factors is at most the product of their bounds.
pub proof fn lemma_product_bound(a: int, b: int, x: int, y: int)
    by (nonlinear_arith)
    requires
        0 <= a <= x,
        0 <= b <= y,
    ensures
        0 <= a * b <= x * y,
{
}

/// A quotient by a positive divisor is at most `q` when the dividend is at most `q * d`.
pub proof fn lemma_quotient_bound(n: int, d: int, q: int)
    by (nonlinear_arith)
    requires
        0 <= n <= q * d,
        0 < d,
    ensures
        0 <= n / d <= q,
{
}

/// A quotient by a positive divisor is less than `q` when the dividend is less than `q * d`.
pub proof fn lemma_quotient_below(n: int, d: int, q: int)
    by (nonlinear_arith)
    requires
        0 <= n < q * d,
        0 < d,
    ensures
        0 <= n / d < q,
{
}

/// A quotient times its divisor falls short of the dividend by less than the divisor.
pub proof fn lemma_quotient_brackets(n: int, d: int)
    by (nonlinear_arith)
    requires
        0 < d,
    ensures
        (n / d) * d <= n < (n / d) * d + d,
{
}

/// A factor of size at most `x` times a factor of size at most `y` has size at most `x * y`.
pub proof fn lemma_product_size(a: int, b: int, x: int, y: int)
    by (nonlinear_arith)
    requires
        -x <= a <= x,
        -y <= b <= y,
    ensures
        -(x * y) <= a * b <= x * y,
{
}

/// A quotient lies between `low` and `high` when the dividend lies between their multiples.
pub proof fn lemma_quotient_between(n: int, d: int, low: int, high: int)
    by (nonlinear_arith)
    requires
        0 < d,
        low * d <= n < (high + 1) * d,
    ensures
        low <= n / d <= high,
{
}

} // verus!
