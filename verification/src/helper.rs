//! Three-way minimum and maximum.

use vstd::prelude::*;
use crate::num::NumType;

verus! {

/// The greatest of three integers.
pub open spec fn max3(a: int, b: int, c: int) -> int {
    if a >= b && a >= c {
        a
    } else if b >= c {
        b
    } else {
        c
    }
}

/// The least of three integers.
pub open spec fn min3(a: int, b: int, c: int) -> int {
    if a <= b && a <= c {
        a
    } else if b <= c {
        b
    } else {
        c
    }
}

/// The greatest of three numbers. Which of several equal arguments comes back
/// makes no difference: equal numbers are the same value.
pub fn max(v1: NumType, v2: NumType, v3: NumType) -> (m: NumType)
    ensures
        m@ == max3(v1@, v2@, v3@),
        m == v1 || m == v2 || m == v3,
{
    if v1.steps >= v2.steps && v1.steps >= v3.steps {
        v1
    } else if v2.steps >= v3.steps {
        v2
    } else {
        v3
    }
}

/// The least of three numbers.
pub fn min(v1: NumType, v2: NumType, v3: NumType) -> (m: NumType)
    ensures
        m@ == min3(v1@, v2@, v3@),
        m == v1 || m == v2 || m == v3,
{
    if v1.steps <= v2.steps && v1.steps <= v3.steps {
        v1
    } else if v2.steps <= v3.steps {
        v2
    } else {
        v3
    }
}

} // verus!
