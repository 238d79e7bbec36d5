//! Shared facts about the 16-bit integer component scalars.

use vstd::prelude::*;

verus! {

/// Holds when a mathematical integer is representable as an `i16` component.
pub open spec fn fits_i16(x: int) -> bool {
    i16::MIN <= x <= i16::MAX
}

/// A product of two bounded integers is bounded by the product of the bounds.
pub proof fn lemma_mul_le(a: int, b: int, m: int, n: int)
    by (nonlinear_arith)
    requires
        -m <= a <= m,
        -n <= b <= n,
        0 <= m,
        0 <= n,
    ensures
        -(m * n) <= a * b <= m * n,
{
}

} // verus!
