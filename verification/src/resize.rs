//! Reduced-dimension arithmetic: scaling a pixel dimension by a reduction
//! percentage.

use vstd::prelude::*;

verus! {

/// The reduced value of a pixel dimension `x` under reduction percentage `r`:
/// `floor(x * r / 100)`.
pub open spec fn reduced_dim(x: u32, r: u8) -> int {
    ((x as int) * (r as int)) / 100
}

/// Scale the dimension `x` by the reduction percentage `r`, rounding down.
/// The multiplication is carried out in 64 bits, so dimensions up to
/// `u32::MAX` cannot overflow.
pub fn reduce_count(r: u8, x: u32) -> (p: u32)
    requires
        1 <= r <= 100,
    ensures
        p == reduced_dim(x, r),
{
    proof {
        assert((x as int) * (r as int) <= 0xFFFF_FFFFu32 * 100) by (nonlinear_arith)
            requires
                x <= 0xFFFF_FFFFu32,
                r <= 100,
        ;
    }
    let wide: u64 = (x as u64) * (r as u64);
    let q: u64 = wide / 100;
    proof {
        assert(q <= x) by (nonlinear_arith)
            requires
                wide == (x as int) * (r as int),
                q == wide / 100,
                r <= 100,
        ;
    }
    q as u32
}

/// A reduction of 100 percent is the identity on dimensions.
pub proof fn lemma_reduce_identity(x: u32)
    ensures
        reduced_dim(x, 100) == x,
{
    assert(((x as int) * 100) / 100 == x) by (nonlinear_arith);
}

} // verus!
