//! Fixed-size linear-algebra primitives over exact 64-bit integer scalars:
//! complex numbers, 3-component vectors, and 3x3 matrices with a
//! linear-system solver.

use vstd::prelude::*;

pub mod complex;
pub mod mat3x3;
pub mod v3;

verus! {

/// Truncating (round-toward-zero) division, as the machine division on
/// signed integers computes it.  In specifications `/` on `int` is
/// Euclidean division, so the machine behaviour is spelled out here.
pub open spec fn tdiv(a: int, b: int) -> int {
    if a >= 0 {
        a / b
    } else {
        -((-a) / b)
    }
}

/// The value fits into a 64-bit signed machine word.
pub open spec fn in_i64(x: int) -> bool {
    i64::MIN <= x <= i64::MAX
}

/// Dividing an exact multiple of `b` by `b` recovers the other factor,
/// whichever signs the two have.
pub proof fn lemma_tdiv_mul_exact(q: int, b: int)
    requires
        b != 0,
    ensures
        tdiv(b * q, b) == q,
{
    assert(tdiv(b * q, b) == q) by (nonlinear_arith)
        requires
            b != 0,
    ;
}

/// Multiplication commutes; spelled out because the default solver leaves
/// products of two variables uninterpreted.
pub proof fn lemma_mul_comm(a: int, b: int)
    ensures
        a * b == b * a,
{
    assert(a * b == b * a) by (nonlinear_arith);
}

/// The truncated quotient of two machine words is again a machine word,
/// except for the one overflowing case `i64::MIN / -1`.
pub proof fn lemma_tdiv_in_i64(a: int, b: int)
    requires
        in_i64(a),
        in_i64(b),
        b != 0,
        !(a == i64::MIN && b == -1),
    ensures
        in_i64(tdiv(a, b)),
{
    assert(i64::MIN <= tdiv(a, b) <= i64::MAX) by (nonlinear_arith)
        requires
            i64::MIN <= a <= i64::MAX,
            i64::MIN <= b <= i64::MAX,
            b != 0,
            !(a == i64::MIN && b == -1),
    ;
}

} // verus!
