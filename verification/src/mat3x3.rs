use vstd::prelude::*;

use crate::in_i64;
use crate::lemma_mul_comm;
use crate::lemma_tdiv_in_i64;
use crate::lemma_tdiv_mul_exact;
use crate::tdiv;

verus! {

/// A 3x3 matrix with exact 64-bit integer entries, row-major.
#[derive(Clone, Copy, Debug)]
pub struct Matrix3x3 {
    pub m: [[i64; 3]; 3],
}

impl PartialEq for Matrix3x3 {
    /// Value equality: the nine entries agree.
    fn eq(&self, other: &Self) -> (r: bool) {
        self.m[0][0] == other.m[0][0] && self.m[0][1] == other.m[0][1] && self.m[0][2]
            == other.m[0][2] && self.m[1][0] == other.m[1][0] && self.m[1][1] == other.m[1][1]
            && self.m[1][2] == other.m[1][2] && self.m[2][0] == other.m[2][0] && self.m[2][1]
            == other.m[2][1] && self.m[2][2] == other.m[2][2]
    }
}

impl vstd::std_specs::cmp::PartialEqSpecImpl for Matrix3x3 {
    open spec fn obeys_eq_spec() -> bool {
        true
    }

    open spec fn eq_spec(&self, other: &Self) -> bool {
        &&& self.at(0, 0) == other.at(0, 0)
        &&& self.at(0, 1) == other.at(0, 1)
        &&& self.at(0, 2) == other.at(0, 2)
        &&& self.at(1, 0) == other.at(1, 0)
        &&& self.at(1, 1) == other.at(1, 1)
        &&& self.at(1, 2) == other.at(1, 2)
        &&& self.at(2, 0) == other.at(2, 0)
        &&& self.at(2, 1) == other.at(2, 1)
        &&& self.at(2, 2) == other.at(2, 2)
    }
}

impl Matrix3x3 {
    /// The entry in row `i`, column `j`, as a mathematical integer.
    pub open spec fn at(self, i: int, j: int) -> int {
        self.m[i][j] as int
    }

    /// The determinant by the closed-form cofactor expansion, with the
    /// six terms in the order the executable formula computes them.
    pub open spec fn det_spec(self) -> int {
        self.at(0, 0) * self.at(1, 1) * self.at(2, 2) + self.at(1, 0) * self.at(2, 1) * self.at(
            0,
            2,
        ) + self.at(2, 0) * self.at(0, 1) * self.at(1, 2) - self.at(0, 2) * self.at(1, 1)
            * self.at(2, 0) - self.at(0, 1) * self.at(1, 0) * self.at(2, 2) - self.at(0, 0)
            * self.at(1, 2) * self.at(2, 1)
    }

    /// The matrix is the multiplicative identity.
    pub open spec fn is_identity(self) -> bool {
        &&& self.at(0, 0) == 1
        &&& self.at(0, 1) == 0
        &&& self.at(0, 2) == 0
        &&& self.at(1, 0) == 0
        &&& self.at(1, 1) == 1
        &&& self.at(1, 2) == 0
        &&& self.at(2, 0) == 0
        &&& self.at(2, 1) == 0
        &&& self.at(2, 2) == 1
    }

    /// Row-by-column entry of the matrix product `self * rhs`.
    pub open spec fn mul_entry(self, rhs: Self, i: int, j: int) -> int {
        self.at(i, 0) * rhs.at(0, j) + self.at(i, 1) * rhs.at(1, j) + self.at(i, 2) * rhs.at(2, j)
    }

    /// Every machine word computed for one entry of the matrix product
    /// stays in range.
    pub open spec fn mul_entry_fits(self, rhs: Self, i: int, j: int) -> bool {
        &&& in_i64(self.at(i, 0) * rhs.at(0, j))
        &&& in_i64(self.at(i, 1) * rhs.at(1, j))
        &&& in_i64(self.at(i, 2) * rhs.at(2, j))
        &&& in_i64(self.at(i, 0) * rhs.at(0, j) + self.at(i, 1) * rhs.at(1, j))
        &&& in_i64(self.mul_entry(rhs, i, j))
    }

    /// Every machine word computed by the matrix product stays in range.
    pub open spec fn mul_fits(self, rhs: Self) -> bool {
        &&& self.mul_entry_fits(rhs, 0, 0)
        &&& self.mul_entry_fits(rhs, 0, 1)
        &&& self.mul_entry_fits(rhs, 0, 2)
        &&& self.mul_entry_fits(rhs, 1, 0)
        &&& self.mul_entry_fits(rhs, 1, 1)
        &&& self.mul_entry_fits(rhs, 1, 2)
        &&& self.mul_entry_fits(rhs, 2, 0)
        &&& self.mul_entry_fits(rhs, 2, 1)
        &&& self.mul_entry_fits(rhs, 2, 2)
    }

    /// Every machine word computed by the determinant stays in range.
    pub open spec fn det_fits(self) -> bool {
        &&& in_i64(self.at(0, 0) * self.at(1, 1))
        &&& in_i64(self.at(0, 0) * self.at(1, 1) * self.at(2, 2))
        &&& in_i64(self.at(1, 0) * self.at(2, 1))
        &&& in_i64(self.at(1, 0) * self.at(2, 1) * self.at(0, 2))
        &&& in_i64(self.at(2, 0) * self.at(0, 1))
        &&& in_i64(self.at(2, 0) * self.at(0, 1) * self.at(1, 2))
        &&& in_i64(self.at(0, 2) * self.at(1, 1))
        &&& in_i64(self.at(0, 2) * self.at(1, 1) * self.at(2, 0))
        &&& in_i64(self.at(0, 1) * self.at(1, 0))
        &&& in_i64(self.at(0, 1) * self.at(1, 0) * self.at(2, 2))
        &&& in_i64(self.at(0, 0) * self.at(1, 2))
        &&& in_i64(self.at(0, 0) * self.at(1, 2) * self.at(2, 1))
        &&& in_i64(
            self.at(0, 0) * self.at(1, 1) * self.at(2, 2) + self.at(1, 0) * self.at(2, 1)
                * self.at(0, 2),
        )
        &&& in_i64(
            self.at(0, 0) * self.at(1, 1) * self.at(2, 2) + self.at(1, 0) * self.at(2, 1)
                * self.at(0, 2) + self.at(2, 0) * self.at(0, 1) * self.at(1, 2),
        )
        &&& in_i64(
            self.at(0, 0) * self.at(1, 1) * self.at(2, 2) + self.at(1, 0) * self.at(2, 1)
                * self.at(0, 2) + self.at(2, 0) * self.at(0, 1) * self.at(1, 2) - self.at(0, 2)
                * self.at(1, 1) * self.at(2, 0),
        )
        &&& in_i64(
            self.at(0, 0) * self.at(1, 1) * self.at(2, 2) + self.at(1, 0) * self.at(2, 1)
                * self.at(0, 2) + self.at(2, 0) * self.at(0, 1) * self.at(1, 2) - self.at(0, 2)
                * self.at(1, 1) * self.at(2, 0) - self.at(0, 1) * self.at(1, 0) * self.at(2, 2),
        )
        &&& in_i64(self.det_spec())
    }

    /// The multiplier that eliminates the leading entry of row 1.
    pub open spec fn k1(self) -> int {
        -tdiv(self.at(1, 0), self.at(0, 0))
    }

    /// The multiplier that eliminates the leading entry of row 2.
    pub open spec fn k2(self) -> int {
        -tdiv(self.at(2, 0), self.at(0, 0))
    }

    /// Row 1 after the elimination of column 0.
    pub open spec fn e1(self, j: int) -> int {
        self.at(1, j) + self.k1() * self.at(0, j)
    }

    /// Row 2 after the elimination of column 0.
    pub open spec fn e2(self, j: int) -> int {
        self.at(2, j) + self.k2() * self.at(0, j)
    }

    /// The multiplier that eliminates the middle entry of row 2.
    pub open spec fn k3(self) -> int {
        -tdiv(self.e2(1), self.e1(1))
    }

    /// Row 2 after the elimination of column 1.
    pub open spec fn f2(self, j: int) -> int {
        self.e2(j) + self.k3() * self.e1(j)
    }

    /// The second pivot, the middle entry after eliminating column 0.
    pub open spec fn p1(self) -> int {
        self.e1(1)
    }

    /// The third pivot, the bottom-right entry after eliminating
    /// columns 0 and 1.
    pub open spec fn p2(self) -> int {
        self.f2(2)
    }

    /// Row 1, first entry, after back-substituting column 2.
    pub open spec fn h10(self) -> int {
        self.e1(0) + self.f2(0) * -self.e1(2)
    }

    /// Row 1, middle entry, after back-substituting column 2; the divisor
    /// that normalizes row 1.
    pub open spec fn h11(self) -> int {
        self.e1(1) + self.f2(1) * -self.e1(2)
    }

    /// Row 0, first entry, after back-substituting column 2.
    pub open spec fn g00(self) -> int {
        self.at(0, 0) + self.f2(0) * -self.at(0, 2)
    }

    /// Row 0, middle entry, after back-substituting column 2; the
    /// multiplier of the final back-substitution step.
    pub open spec fn g01(self) -> int {
        self.at(0, 1) + self.f2(1) * -self.at(0, 2)
    }

    /// The right-hand side, middle entry, after eliminating column 0.
    pub open spec fn b1a(self, b0: int, b1: int) -> int {
        b1 + self.k1() * b0
    }

    /// The right-hand side, last entry, after eliminating column 0.
    pub open spec fn b2a(self, b0: int, b2: int) -> int {
        b2 + self.k2() * b0
    }

    /// The right-hand side, last entry, after eliminating column 1.
    pub open spec fn b2b(self, b0: int, b1: int, b2: int) -> int {
        self.b2a(b0, b2) + self.k3() * self.b1a(b0, b1)
    }

    /// The last solution component.
    pub open spec fn solve_x2(self, b0: int, b1: int, b2: int) -> int {
        tdiv(self.b2b(b0, b1, b2), self.p2())
    }

    /// The right-hand side, middle entry, after back-substituting
    /// column 2.
    pub open spec fn b1b(self, b0: int, b1: int, b2: int) -> int {
        self.b1a(b0, b1) - self.e1(2) * self.solve_x2(b0, b1, b2)
    }

    /// The middle solution component.
    pub open spec fn solve_x1(self, b0: int, b1: int, b2: int) -> int {
        tdiv(self.b1b(b0, b1, b2), self.h11())
    }

    /// The right-hand side, first entry, after back-substituting
    /// column 2.
    pub open spec fn b0a(self, b0: int, b1: int, b2: int) -> int {
        b0 - self.at(0, 2) * self.solve_x2(b0, b1, b2)
    }

    /// The first solution component.
    pub open spec fn solve_x0(self, b0: int, b1: int, b2: int) -> int {
        self.b0a(b0, b1, b2) - self.g01() * self.solve_x1(b0, b1, b2)
    }

    /// Every pivot the fixed elimination order divides by is nonzero.
    /// The upfront determinant gate does not imply this: a nonsingular
    /// matrix can still place a zero on the fixed pivot path, and the
    /// elimination has no row exchange to step around it.
    pub open spec fn solve_pivots(self) -> bool {
        &&& self.at(0, 0) != 0
        &&& self.p1() != 0
        &&& self.p2() != 0
        &&& self.h11() != 0
    }

    /// Every machine word computed by the elimination stays in range, and
    /// no division hits the one quotient the machine cannot represent.
    pub open spec fn solve_fits(self, b0: int, b1: int, b2: int) -> bool {
        let x2 = self.solve_x2(b0, b1, b2);
        let x1 = self.solve_x1(b0, b1, b2);
        &&& !(self.at(1, 0) == i64::MIN && self.at(0, 0) == -1)
        &&& in_i64(self.k1())
        &&& in_i64(self.at(0, 0) * self.k1())
        &&& in_i64(self.at(0, 1) * self.k1())
        &&& in_i64(self.at(0, 2) * self.k1())
        &&& in_i64(self.e1(0))
        &&& in_i64(self.e1(1))
        &&& in_i64(self.e1(2))
        &&& in_i64(self.k1() * b0)
        &&& in_i64(self.b1a(b0, b1))
        &&& !(self.at(2, 0) == i64::MIN && self.at(0, 0) == -1)
        &&& in_i64(self.k2())
        &&& in_i64(self.at(0, 0) * self.k2())
        &&& in_i64(self.at(0, 1) * self.k2())
        &&& in_i64(self.at(0, 2) * self.k2())
        &&& in_i64(self.e2(0))
        &&& in_i64(self.e2(1))
        &&& in_i64(self.e2(2))
        &&& in_i64(self.k2() * b0)
        &&& in_i64(self.b2a(b0, b2))
        &&& !(self.e2(1) == i64::MIN && self.e1(1) == -1)
        &&& in_i64(self.k3())
        &&& in_i64(self.e1(0) * self.k3())
        &&& in_i64(self.e1(1) * self.k3())
        &&& in_i64(self.e1(2) * self.k3())
        &&& in_i64(self.f2(0))
        &&& in_i64(self.f2(1))
        &&& in_i64(self.f2(2))
        &&& in_i64(self.k3() * self.b1a(b0, b1))
        &&& in_i64(self.b2b(b0, b1, b2))
        &&& !(self.b2b(b0, b1, b2) == i64::MIN && self.p2() == -1)
        &&& in_i64(self.e1(2) * x2)
        &&& in_i64(self.b1b(b0, b1, b2))
        &&& in_i64(-self.e1(2))
        &&& in_i64(self.f2(0) * -self.e1(2))
        &&& in_i64(self.f2(1) * -self.e1(2))
        &&& in_i64(self.h10())
        &&& in_i64(self.h11())
        &&& in_i64(self.at(0, 2) * x2)
        &&& in_i64(self.b0a(b0, b1, b2))
        &&& in_i64(-self.at(0, 2))
        &&& in_i64(self.f2(0) * -self.at(0, 2))
        &&& in_i64(self.f2(1) * -self.at(0, 2))
        &&& in_i64(self.g00())
        &&& in_i64(self.g01())
        &&& !(self.b1b(b0, b1, b2) == i64::MIN && self.h11() == -1)
        &&& in_i64(self.g01() * x1)
        &&& in_i64(self.solve_x0(b0, b1, b2))
        &&& in_i64(-self.g01())
        &&& in_i64(self.h10() * -self.g01())
        &&& in_i64(self.g00() + self.h10() * -self.g01())
    }

    /// The multiplicative identity.
    pub fn unit_matrix() -> (r: Self)
        ensures
            r.is_identity(),
    {
        Self { m: [[1, 0, 0], [0, 1, 0], [0, 0, 1]] }
    }

    /// The determinant by the closed-form cofactor expansion.
    pub fn determinant(&self) -> (r: i64)
        requires
            self.det_fits(),
        ensures
            r == self.det_spec(),
    {
        self.m[0][0] * self.m[1][1] * self.m[2][2] + self.m[1][0] * self.m[2][1] * self.m[0][2]
            + self.m[2][0] * self.m[0][1] * self.m[1][2] - self.m[0][2] * self.m[1][1]
            * self.m[2][0] - self.m[0][1] * self.m[1][0] * self.m[2][2] - self.m[0][0]
            * self.m[1][2] * self.m[2][1]
    }

    /// Every machine word computed by `add` stays in range.
    pub open spec fn add_fits(self, rhs: Self) -> bool {
        forall|i: int, j: int|
            0 <= i < 3 && 0 <= j < 3 ==> in_i64(#[trigger] self.at(i, j) + rhs.at(i, j))
    }

    /// Every machine word computed by `sub` stays in range.
    pub open spec fn sub_fits(self, rhs: Self) -> bool {
        forall|i: int, j: int|
            0 <= i < 3 && 0 <= j < 3 ==> in_i64(#[trigger] self.at(i, j) - rhs.at(i, j))
    }

    /// Every machine word computed by `mul_scalar` stays in range.
    pub open spec fn mul_scalar_fits(self, rhs: i64) -> bool {
        forall|i: int, j: int| 0 <= i < 3 && 0 <= j < 3 ==> in_i64(#[trigger] self.at(i, j) * rhs)
    }

    /// Component-wise sum.
    pub fn add(self, rhs: Self) -> (r: Self)
        requires
            self.add_fits(rhs),
        ensures
            r.at(0, 0) == self.at(0, 0) + rhs.at(0, 0),
            r.at(0, 1) == self.at(0, 1) + rhs.at(0, 1),
            r.at(0, 2) == self.at(0, 2) + rhs.at(0, 2),
            r.at(1, 0) == self.at(1, 0) + rhs.at(1, 0),
            r.at(1, 1) == self.at(1, 1) + rhs.at(1, 1),
            r.at(1, 2) == self.at(1, 2) + rhs.at(1, 2),
            r.at(2, 0) == self.at(2, 0) + rhs.at(2, 0),
            r.at(2, 1) == self.at(2, 1) + rhs.at(2, 1),
            r.at(2, 2) == self.at(2, 2) + rhs.at(2, 2),
    {
        proof {
            assert(in_i64(self.at(0, 0) + rhs.at(0, 0)) && in_i64(self.at(0, 1) + rhs.at(0, 1))
                && in_i64(self.at(0, 2) + rhs.at(0, 2)) && in_i64(self.at(1, 0) + rhs.at(1, 0))
                && in_i64(self.at(1, 1) + rhs.at(1, 1)) && in_i64(self.at(1, 2) + rhs.at(1, 2))
                && in_i64(self.at(2, 0) + rhs.at(2, 0)) && in_i64(self.at(2, 1) + rhs.at(2, 1))
                && in_i64(self.at(2, 2) + rhs.at(2, 2)));
        }
        Matrix3x3 {
            m: [
                [
                    self.m[0][0] + rhs.m[0][0],
                    self.m[0][1] + rhs.m[0][1],
                    self.m[0][2] + rhs.m[0][2],
                ],
                [
                    self.m[1][0] + rhs.m[1][0],
                    self.m[1][1] + rhs.m[1][1],
                    self.m[1][2] + rhs.m[1][2],
                ],
                [
                    self.m[2][0] + rhs.m[2][0],
                    self.m[2][1] + rhs.m[2][1],
                    self.m[2][2] + rhs.m[2][2],
                ],
            ],
        }
    }

    /// Component-wise difference.
    pub fn sub(self, rhs: Self) -> (r: Self)
        requires
            self.sub_fits(rhs),
        ensures
            r.at(0, 0) == self.at(0, 0) - rhs.at(0, 0),
            r.at(0, 1) == self.at(0, 1) - rhs.at(0, 1),
            r.at(0, 2) == self.at(0, 2) - rhs.at(0, 2),
            r.at(1, 0) == self.at(1, 0) - rhs.at(1, 0),
            r.at(1, 1) == self.at(1, 1) - rhs.at(1, 1),
            r.at(1, 2) == self.at(1, 2) - rhs.at(1, 2),
            r.at(2, 0) == self.at(2, 0) - rhs.at(2, 0),
            r.at(2, 1) == self.at(2, 1) - rhs.at(2, 1),
            r.at(2, 2) == self.at(2, 2) - rhs.at(2, 2),
    {
        proof {
            assert(in_i64(self.at(0, 0) - rhs.at(0, 0)) && in_i64(self.at(0, 1) - rhs.at(0, 1))
                && in_i64(self.at(0, 2) - rhs.at(0, 2)) && in_i64(self.at(1, 0) - rhs.at(1, 0))
                && in_i64(self.at(1, 1) - rhs.at(1, 1)) && in_i64(self.at(1, 2) - rhs.at(1, 2))
                && in_i64(self.at(2, 0) - rhs.at(2, 0)) && in_i64(self.at(2, 1) - rhs.at(2, 1))
                && in_i64(self.at(2, 2) - rhs.at(2, 2)));
        }
        Matrix3x3 {
            m: [
                [
                    self.m[0][0] - rhs.m[0][0],
                    self.m[0][1] - rhs.m[0][1],
                    self.m[0][2] - rhs.m[0][2],
                ],
                [
                    self.m[1][0] - rhs.m[1][0],
                    self.m[1][1] - rhs.m[1][1],
                    self.m[1][2] - rhs.m[1][2],
                ],
                [
                    self.m[2][0] - rhs.m[2][0],
                    self.m[2][1] - rhs.m[2][1],
                    self.m[2][2] - rhs.m[2][2],
                ],
            ],
        }
    }

    /// Every entry scaled by a bare scalar.
    pub fn mul_scalar(self, rhs: i64) -> (r: Self)
        requires
            self.mul_scalar_fits(rhs),
        ensures
            r.at(0, 0) == self.at(0, 0) * rhs,
            r.at(0, 1) == self.at(0, 1) * rhs,
            r.at(0, 2) == self.at(0, 2) * rhs,
            r.at(1, 0) == self.at(1, 0) * rhs,
            r.at(1, 1) == self.at(1, 1) * rhs,
            r.at(1, 2) == self.at(1, 2) * rhs,
            r.at(2, 0) == self.at(2, 0) * rhs,
            r.at(2, 1) == self.at(2, 1) * rhs,
            r.at(2, 2) == self.at(2, 2) * rhs,
    {
        proof {
            assert(in_i64(self.at(0, 0) * rhs) && in_i64(self.at(0, 1) * rhs) && in_i64(
                self.at(0, 2) * rhs,
            ) && in_i64(self.at(1, 0) * rhs) && in_i64(self.at(1, 1) * rhs) && in_i64(
                self.at(1, 2) * rhs,
            ) && in_i64(self.at(2, 0) * rhs) && in_i64(self.at(2, 1) * rhs) && in_i64(
                self.at(2, 2) * rhs,
            ));
        }
        Matrix3x3 {
            m: [
                [self.m[0][0] * rhs, self.m[0][1] * rhs, self.m[0][2] * rhs],
                [self.m[1][0] * rhs, self.m[1][1] * rhs, self.m[1][2] * rhs],
                [self.m[2][0] * rhs, self.m[2][1] * rhs, self.m[2][2] * rhs],
            ],
        }
    }

    /// The matrix product by row-by-column composition.
    pub fn mul(self, rhs: Self) -> (r: Self)
        requires
            self.mul_fits(rhs),
        ensures
            r.at(0, 0) == self.mul_entry(rhs, 0, 0),
            r.at(0, 1) == self.mul_entry(rhs, 0, 1),
            r.at(0, 2) == self.mul_entry(rhs, 0, 2),
            r.at(1, 0) == self.mul_entry(rhs, 1, 0),
            r.at(1, 1) == self.mul_entry(rhs, 1, 1),
            r.at(1, 2) == self.mul_entry(rhs, 1, 2),
            r.at(2, 0) == self.mul_entry(rhs, 2, 0),
            r.at(2, 1) == self.mul_entry(rhs, 2, 1),
            r.at(2, 2) == self.mul_entry(rhs, 2, 2),
    {
        Matrix3x3 {
            m: [
                [
                    self.m[0][0] * rhs.m[0][0] + self.m[0][1] * rhs.m[1][0] + self.m[0][2]
                        * rhs.m[2][0],
                    self.m[0][0] * rhs.m[0][1] + self.m[0][1] * rhs.m[1][1] + self.m[0][2]
                        * rhs.m[2][1],
                    self.m[0][0] * rhs.m[0][2] + self.m[0][1] * rhs.m[1][2] + self.m[0][2]
                        * rhs.m[2][2],
                ],
                [
                    self.m[1][0] * rhs.m[0][0] + self.m[1][1] * rhs.m[1][0] + self.m[1][2]
                        * rhs.m[2][0],
                    self.m[1][0] * rhs.m[0][1] + self.m[1][1] * rhs.m[1][1] + self.m[1][2]
                        * rhs.m[2][1],
                    self.m[1][0] * rhs.m[0][2] + self.m[1][1] * rhs.m[1][2] + self.m[1][2]
                        * rhs.m[2][2],
                ],
                [
                    self.m[2][0] * rhs.m[0][0] + self.m[2][1] * rhs.m[1][0] + self.m[2][2]
                        * rhs.m[2][0],
                    self.m[2][0] * rhs.m[0][1] + self.m[2][1] * rhs.m[1][1] + self.m[2][2]
                        * rhs.m[2][1],
                    self.m[2][0] * rhs.m[0][2] + self.m[2][1] * rhs.m[1][2] + self.m[2][2]
                        * rhs.m[2][2],
                ],
            ],
        }
    }

    /// Replace row `i` by its sum with the given row of values.
    fn add_row(&mut self, i: usize, row: [i64; 3])
        requires
            i < 3,
            in_i64(old(self).at(i as int, 0) + row@[0]),
            in_i64(old(self).at(i as int, 1) + row@[1]),
            in_i64(old(self).at(i as int, 2) + row@[2]),
        ensures
            final(self).at(i as int, 0) == old(self).at(i as int, 0) + row@[0],
            final(self).at(i as int, 1) == old(self).at(i as int, 1) + row@[1],
            final(self).at(i as int, 2) == old(self).at(i as int, 2) + row@[2],
            forall|r: int, c: int|
                0 <= r < 3 && 0 <= c < 3 && r != i ==> #[trigger] final(self).at(r, c) == old(
                    self,
                ).at(r, c),
    {
        self.m[i] = [self.m[i][0] + row[0], self.m[i][1] + row[1], self.m[i][2] + row[2]];
    }

    /// Solve the linear system `self * x == b` by Gaussian elimination,
    /// fully unrolled for the 3x3 case, with forward elimination and
    /// back-substitution interleaved column by column.  A zero
    /// determinant is the sole gate: the elimination order after it is
    /// fixed, with no pivot exchange.
    pub fn solve(&self, b: [i64; 3]) -> (r: Option<[i64; 3]>)
        requires
            self.det_fits(),
            self.det_spec() != 0 ==> self.solve_pivots() && self.solve_fits(
                b@[0] as int,
                b@[1] as int,
                b@[2] as int,
            ),
        ensures
            (r is Some) <==> self.det_spec() != 0,
            r matches Some(x) ==> {
                &&& x@[0] == self.solve_x0(b@[0] as int, b@[1] as int, b@[2] as int)
                &&& x@[1] == self.solve_x1(b@[0] as int, b@[1] as int, b@[2] as int)
                &&& x@[2] == self.solve_x2(b@[0] as int, b@[1] as int, b@[2] as int)
            },
    {
        let ghost b0 = b@[0] as int;
        let ghost b1 = b@[1] as int;
        let ghost b2 = b@[2] as int;
        if self.determinant() == 0 {
            return None;
        }
        let mut tmp = *self;
        let mut v = b;

        // eliminate column 0 below the pivot: row 1
        proof {
            lemma_tdiv_in_i64(self.at(1, 0), self.at(0, 0));
        }
        let k = -(tmp.m[1][0] / tmp.m[0][0]);
        proof {
            assert(k == self.k1());
            lemma_mul_comm(self.at(0, 0), self.k1());
            lemma_mul_comm(self.at(0, 1), self.k1());
            lemma_mul_comm(self.at(0, 2), self.k1());
        }
        let row = tmp.mul_row(0, k);
        tmp.add_row(1, row);
        v[1] = v[1] + k * v[0];
        proof {
            assert(tmp.at(1, 0) == self.e1(0) && tmp.at(1, 1) == self.e1(1) && tmp.at(1, 2)
                == self.e1(2));
            assert(tmp.at(0, 0) == self.at(0, 0) && tmp.at(0, 1) == self.at(0, 1) && tmp.at(0, 2)
                == self.at(0, 2));
            assert(tmp.at(2, 0) == self.at(2, 0) && tmp.at(2, 1) == self.at(2, 1) && tmp.at(2, 2)
                == self.at(2, 2));
            assert(v@[1] == self.b1a(b0, b1));
        }

        // eliminate column 0 below the pivot: row 2
        proof {
            lemma_tdiv_in_i64(self.at(2, 0), self.at(0, 0));
        }
        let k = -(tmp.m[2][0] / tmp.m[0][0]);
        proof {
            assert(k == self.k2());
            lemma_mul_comm(self.at(0, 0), self.k2());
            lemma_mul_comm(self.at(0, 1), self.k2());
            lemma_mul_comm(self.at(0, 2), self.k2());
        }
        let row = tmp.mul_row(0, k);
        tmp.add_row(2, row);
        v[2] = v[2] + k * v[0];
        proof {
            assert(tmp.at(2, 0) == self.e2(0) && tmp.at(2, 1) == self.e2(1) && tmp.at(2, 2)
                == self.e2(2));
            assert(tmp.at(1, 1) == self.e1(1) && tmp.at(1, 2) == self.e1(2));
            assert(v@[2] == self.b2a(b0, b2));
        }

        // eliminate column 1 below the pivot: row 2
        proof {
            lemma_tdiv_in_i64(self.e2(1), self.e1(1));
        }
        let k = -(tmp.m[2][1] / tmp.m[1][1]);
        proof {
            assert(k == self.k3());
            lemma_mul_comm(self.e1(0), self.k3());
            lemma_mul_comm(self.e1(1), self.k3());
            lemma_mul_comm(self.e1(2), self.k3());
        }
        let row = tmp.mul_row(1, k);
        tmp.add_row(2, row);
        v[2] = v[2] + k * v[1];
        proof {
            assert(tmp.at(2, 0) == self.f2(0) && tmp.at(2, 1) == self.f2(1) && tmp.at(2, 2)
                == self.f2(2));
            assert(tmp.at(1, 0) == self.e1(0) && tmp.at(1, 1) == self.e1(1) && tmp.at(1, 2)
                == self.e1(2));
            assert(tmp.at(0, 0) == self.at(0, 0) && tmp.at(0, 1) == self.at(0, 1) && tmp.at(0, 2)
                == self.at(0, 2));
            assert(v@[2] == self.b2b(b0, b1, b2));
        }

        // normalize row 2: its pivot becomes the unit, b gains x2
        proof {
            lemma_tdiv_in_i64(self.b2b(b0, b1, b2), self.p2());
            lemma_tdiv_mul_exact(1, self.p2());
            assert(self.p2() * 1 == self.p2());
        }
        v[2] = v[2] / tmp.m[2][2];
        tmp.m[2][2] = tmp.m[2][2] / tmp.m[2][2];
        proof {
            assert(v@[2] == self.solve_x2(b0, b1, b2));
            assert(tmp.at(2, 2) == 1);
            assert(tmp.at(2, 0) == self.f2(0) && tmp.at(2, 1) == self.f2(1));
            assert(tmp.at(1, 0) == self.e1(0) && tmp.at(1, 1) == self.e1(1) && tmp.at(1, 2)
                == self.e1(2));
            assert(tmp.at(0, 0) == self.at(0, 0) && tmp.at(0, 1) == self.at(0, 1) && tmp.at(0, 2)
                == self.at(0, 2));
        }

        // back-substitute column 2 into row 1
        v[1] = v[1] - tmp.m[1][2] * v[2];
        let f = -tmp.m[1][2];
        let row = tmp.mul_row(2, f);
        tmp.add_row(1, row);
        proof {
            assert(tmp.at(1, 0) == self.h10() && tmp.at(1, 1) == self.h11() && tmp.at(1, 2) == 0);
            assert(tmp.at(0, 0) == self.at(0, 0) && tmp.at(0, 1) == self.at(0, 1) && tmp.at(0, 2)
                == self.at(0, 2));
            assert(tmp.at(2, 0) == self.f2(0) && tmp.at(2, 1) == self.f2(1) && tmp.at(2, 2) == 1);
            assert(v@[0] == b0 && v@[1] == self.b1b(b0, b1, b2) && v@[2] == self.solve_x2(
                b0,
                b1,
                b2,
            ));
        }

        // back-substitute column 2 into row 0
        v[0] = v[0] - tmp.m[0][2] * v[2];
        let f = -tmp.m[0][2];
        let row = tmp.mul_row(2, f);
        tmp.add_row(0, row);
        proof {
            assert(tmp.at(0, 0) == self.g00() && tmp.at(0, 1) == self.g01() && tmp.at(0, 2) == 0);
            assert(tmp.at(1, 0) == self.h10() && tmp.at(1, 1) == self.h11() && tmp.at(1, 2) == 0);
            assert(v@[0] == self.b0a(b0, b1, b2) && v@[1] == self.b1b(b0, b1, b2) && v@[2]
                == self.solve_x2(b0, b1, b2));
        }

        // normalize row 1: its pivot becomes the unit, b gains x1
        proof {
            lemma_tdiv_in_i64(self.b1b(b0, b1, b2), self.h11());
            lemma_tdiv_mul_exact(1, self.h11());
            assert(self.h11() * 1 == self.h11());
        }
        v[1] = v[1] / tmp.m[1][1];
        tmp.m[1][1] = tmp.m[1][1] / tmp.m[1][1];
        proof {
            assert(v@[1] == self.solve_x1(b0, b1, b2));
            assert(tmp.at(1, 1) == 1);
            assert(tmp.at(1, 0) == self.h10() && tmp.at(1, 2) == 0);
            assert(tmp.at(0, 0) == self.g00() && tmp.at(0, 1) == self.g01() && tmp.at(0, 2) == 0);
            assert(v@[0] == self.b0a(b0, b1, b2) && v@[2] == self.solve_x2(b0, b1, b2));
        }

        // back-substitute column 1 into row 0: b gains x0
        v[0] = v[0] - tmp.m[0][1] * v[1];
        let f = -tmp.m[0][1];
        let row = tmp.mul_row(1, f);
        tmp.add_row(0, row);
        proof {
            assert(v@[0] == self.solve_x0(b0, b1, b2) && v@[1] == self.solve_x1(b0, b1, b2) && v@[2]
                == self.solve_x2(b0, b1, b2));
        }

        Some(v)
    }

    /// Row `i` scaled by a factor, returned as a bare row of values.
    fn mul_row(&self, i: usize, factor: i64) -> (r: [i64; 3])
        requires
            i < 3,
            in_i64(self.at(i as int, 0) * factor),
            in_i64(self.at(i as int, 1) * factor),
            in_i64(self.at(i as int, 2) * factor),
        ensures
            r@[0] == self.at(i as int, 0) * factor,
            r@[1] == self.at(i as int, 1) * factor,
            r@[2] == self.at(i as int, 2) * factor,
    {
        [self.m[i][0] * factor, self.m[i][1] * factor, self.m[i][2] * factor]
    }
}

/// The identity matrix is both the left and the right unit of matrix
/// multiplication: `m * u` and `u * m` agree with `m` entry by entry.
pub proof fn lemma_unit_matrix_is_unit(m: Matrix3x3, u: Matrix3x3)
    requires
        u.is_identity(),
    ensures
        m.mul_entry(u, 0, 0) == m.at(0, 0),
        m.mul_entry(u, 0, 1) == m.at(0, 1),
        m.mul_entry(u, 0, 2) == m.at(0, 2),
        m.mul_entry(u, 1, 0) == m.at(1, 0),
        m.mul_entry(u, 1, 1) == m.at(1, 1),
        m.mul_entry(u, 1, 2) == m.at(1, 2),
        m.mul_entry(u, 2, 0) == m.at(2, 0),
        m.mul_entry(u, 2, 1) == m.at(2, 1),
        m.mul_entry(u, 2, 2) == m.at(2, 2),
        u.mul_entry(m, 0, 0) == m.at(0, 0),
        u.mul_entry(m, 0, 1) == m.at(0, 1),
        u.mul_entry(m, 0, 2) == m.at(0, 2),
        u.mul_entry(m, 1, 0) == m.at(1, 0),
        u.mul_entry(m, 1, 1) == m.at(1, 1),
        u.mul_entry(m, 1, 2) == m.at(1, 2),
        u.mul_entry(m, 2, 0) == m.at(2, 0),
        u.mul_entry(m, 2, 1) == m.at(2, 1),
        u.mul_entry(m, 2, 2) == m.at(2, 2),
{
}

/// The solver round trip: for a system whose right-hand side is
/// `m * x`, the elimination recovers `x` itself, exactly.  This holds on
/// the systems the fixed elimination path handles exactly: the leading
/// entry is the unit, the second pivot is nonzero, and the one interior
/// division (of the middle entry of the reduced row 2 by the second
/// pivot) is exact.  Together with a nonzero determinant these make
/// every pivot of the path nonzero, so `solve` on such a system returns
/// this very solution.
#[verifier::rlimit(30)]
pub proof fn lemma_solve_round_trip(
    m: Matrix3x3,
    x0: int,
    x1: int,
    x2: int,
    b0: int,
    b1: int,
    b2: int,
)
    requires
        m.at(0, 0) == 1,
        m.det_spec() != 0,
        m.p1() != 0,
        tdiv(m.e2(1), m.p1()) * m.p1() == m.e2(1),
        b0 == m.at(0, 0) * x0 + m.at(0, 1) * x1 + m.at(0, 2) * x2,
        b1 == m.at(1, 0) * x0 + m.at(1, 1) * x1 + m.at(1, 2) * x2,
        b2 == m.at(2, 0) * x0 + m.at(2, 1) * x1 + m.at(2, 2) * x2,
    ensures
        m.solve_pivots(),
        m.solve_x0(b0, b1, b2) == x0,
        m.solve_x1(b0, b1, b2) == x1,
        m.solve_x2(b0, b1, b2) == x2,
{
    let a01: int = m.at(0, 1);
    let a02: int = m.at(0, 2);
    let a10: int = m.at(1, 0);
    let a11: int = m.at(1, 1);
    let a12: int = m.at(1, 2);
    let a20: int = m.at(2, 0);
    let a21: int = m.at(2, 1);
    let a22: int = m.at(2, 2);

    // the unit leading pivot makes both column-0 multipliers exact
    lemma_tdiv_mul_exact(a10, 1);
    assert(1 * a10 == a10);
    assert(m.k1() == -a10);
    lemma_tdiv_mul_exact(a20, 1);
    assert(1 * a20 == a20);
    assert(m.k2() == -a20);

    let e11: int = m.e1(1);
    let e12: int = m.e1(2);
    let e21: int = m.e2(1);
    let e22: int = m.e2(2);
    let k3: int = m.k3();
    let pp2: int = m.p2();
    let det: int = m.det_spec();

    let r1: int = m.b1a(b0, b1);
    let r2: int = m.b2a(b0, b2);

    // eliminating column 0 keeps x a solution of rows 1 and 2
    assert(r1 == e11 * x1 + e12 * x2) by (nonlinear_arith)
        requires
            b0 == 1 * x0 + a01 * x1 + a02 * x2,
            b1 == a10 * x0 + a11 * x1 + a12 * x2,
            r1 == b1 + (-a10) * b0,
            e11 == a11 + (-a10) * a01,
            e12 == a12 + (-a10) * a02,
    ;
    assert(r2 == e21 * x1 + e22 * x2) by (nonlinear_arith)
        requires
            b0 == 1 * x0 + a01 * x1 + a02 * x2,
            b2 == a20 * x0 + a21 * x1 + a22 * x2,
            r2 == b2 + (-a20) * b0,
            e21 == a21 + (-a20) * a01,
            e22 == a22 + (-a20) * a02,
    ;

    // the exact interior division zeroes the middle entry of row 2
    assert(k3 * e11 == -e21) by (nonlinear_arith)
        requires
            k3 == -tdiv(e21, e11),
            tdiv(e21, e11) * e11 == e21,
    ;
    assert(m.f2(1) == 0) by (nonlinear_arith)
        requires
            m.f2(1) == e21 + k3 * e11,
            k3 * e11 == -e21,
    ;
    assert(m.h11() == e11) by (nonlinear_arith)
        requires
            m.h11() == e11 + m.f2(1) * -e12,
            m.f2(1) == 0,
    ;

    // the determinant factors over the pivots, so the third pivot is
    // nonzero as well
    assert(e11 * pp2 == e11 * e22 - e21 * e12) by (nonlinear_arith)
        requires
            pp2 == e22 + k3 * e12,
            k3 * e11 == -e21,
    ;
    let q1: int = a10 * a01;
    let q2: int = a10 * a02;
    let q3: int = a20 * a01;
    let q4: int = a20 * a02;
    assert((-a10) * a01 == -(a10 * a01)) by (nonlinear_arith);
    assert((-a10) * a02 == -(a10 * a02)) by (nonlinear_arith);
    assert((-a20) * a01 == -(a20 * a01)) by (nonlinear_arith);
    assert((-a20) * a02 == -(a20 * a02)) by (nonlinear_arith);
    assert(e11 == a11 - q1 && e12 == a12 - q2 && e21 == a21 - q3 && e22 == a22 - q4);
    assert((a11 - q1) * (a22 - q4) == a11 * a22 - a11 * q4 - q1 * a22 + q1 * q4)
        by (nonlinear_arith);
    assert((a21 - q3) * (a12 - q2) == a21 * a12 - a21 * q2 - q3 * a12 + q3 * q2)
        by (nonlinear_arith);
    assert(e11 * e22 == (a11 - q1) * (a22 - q4));
    assert(e21 * e12 == (a21 - q3) * (a12 - q2));
    assert(a11 * q4 == a02 * a11 * a20) by (nonlinear_arith)
        requires
            q4 == a20 * a02,
    ;
    assert(q1 * a22 == a01 * a10 * a22) by (nonlinear_arith)
        requires
            q1 == a10 * a01,
    ;
    assert(q1 * q4 == q3 * q2) by (nonlinear_arith)
        requires
            q1 == a10 * a01,
            q2 == a10 * a02,
            q3 == a20 * a01,
            q4 == a20 * a02,
    ;
    assert(a21 * q2 == a10 * a21 * a02) by (nonlinear_arith)
        requires
            q2 == a10 * a02,
    ;
    assert(q3 * a12 == a20 * a01 * a12) by (nonlinear_arith)
        requires
            q3 == a20 * a01,
    ;
    assert(a21 * a12 == a12 * a21) by (nonlinear_arith);
    assert(e11 * e22 - e21 * e12 == det);
    assert(pp2 != 0) by (nonlinear_arith)
        requires
            e11 * pp2 == det,
            det != 0,
    ;

    // the reduced row 2 carries exactly the third pivot times x2
    assert(m.b2b(b0, b1, b2) == pp2 * x2) by (nonlinear_arith)
        requires
            m.b2b(b0, b1, b2) == r2 + k3 * r1,
            r1 == e11 * x1 + e12 * x2,
            r2 == e21 * x1 + e22 * x2,
            k3 * e11 == -e21,
            pp2 == e22 + k3 * e12,
    ;
    lemma_tdiv_mul_exact(x2, pp2);
    assert(m.solve_x2(b0, b1, b2) == x2);

    // back-substitution leaves exactly the second pivot times x1
    assert(m.b1b(b0, b1, b2) == m.h11() * x1) by (nonlinear_arith)
        requires
            m.b1b(b0, b1, b2) == r1 - e12 * m.solve_x2(b0, b1, b2),
            r1 == e11 * x1 + e12 * x2,
            m.solve_x2(b0, b1, b2) == x2,
            m.h11() == e11,
    ;
    lemma_tdiv_mul_exact(x1, m.h11());
    assert(m.solve_x1(b0, b1, b2) == x1);

    // the final back-substitution reduces row 0 to x0 itself
    assert(m.g01() == a01) by (nonlinear_arith)
        requires
            m.g01() == a01 + m.f2(1) * -a02,
            m.f2(1) == 0,
    ;
    assert(m.solve_x0(b0, b1, b2) == x0) by (nonlinear_arith)
        requires
            m.solve_x0(b0, b1, b2) == m.b0a(b0, b1, b2) - m.g01() * m.solve_x1(b0, b1, b2),
            m.b0a(b0, b1, b2) == b0 - a02 * m.solve_x2(b0, b1, b2),
            m.solve_x1(b0, b1, b2) == x1,
            m.solve_x2(b0, b1, b2) == x2,
            m.g01() == a01,
            b0 == 1 * x0 + a01 * x1 + a02 * x2,
    ;
}


} // verus!
