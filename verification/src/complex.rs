use vstd::prelude::*;

use crate::in_i64;
use crate::lemma_tdiv_in_i64;
use crate::lemma_tdiv_mul_exact;
use crate::tdiv;

verus! {

/// A 2-component complex value with exact 64-bit integer components.
#[derive(Clone, Copy, Debug)]
pub struct Complex {
    pub re: i64,
    pub im: i64,
}

impl Complex {
    /// Real part of the complex product `self * rhs`.
    pub open spec fn mul_re(self, rhs: Self) -> int {
        self.re * rhs.re - self.im * rhs.im
    }

    /// Imaginary part of the complex product `self * rhs`.
    pub open spec fn mul_im(self, rhs: Self) -> int {
        self.re * rhs.im + self.im * rhs.re
    }

    /// Squared modulus `re^2 + im^2`.
    pub open spec fn modulus2(self) -> int {
        self.re * self.re + self.im * self.im
    }

    /// Real part of `self / rhs` by the conjugate-ratio identity.
    pub open spec fn div_re(self, rhs: Self) -> int {
        tdiv(rhs.re * self.re + rhs.im * self.im, rhs.modulus2())
    }

    /// Imaginary part of `self / rhs` by the conjugate-ratio identity.
    pub open spec fn div_im(self, rhs: Self) -> int {
        tdiv(rhs.re * self.im - self.re * rhs.im, rhs.modulus2())
    }

    /// Every machine word computed by `mul` stays in range.
    pub open spec fn mul_fits(self, rhs: Self) -> bool {
        &&& in_i64(self.re * rhs.re)
        &&& in_i64(self.im * rhs.im)
        &&& in_i64(self.mul_re(rhs))
        &&& in_i64(self.re * rhs.im)
        &&& in_i64(self.im * rhs.re)
        &&& in_i64(self.mul_im(rhs))
    }

    /// Every machine word computed by `div` stays in range.
    pub open spec fn div_fits(self, rhs: Self) -> bool {
        &&& in_i64(rhs.re * rhs.re)
        &&& in_i64(rhs.im * rhs.im)
        &&& in_i64(rhs.modulus2())
        &&& in_i64(rhs.re * self.re)
        &&& in_i64(rhs.im * self.im)
        &&& in_i64(rhs.re * self.re + rhs.im * self.im)
        &&& in_i64(rhs.re * self.im)
        &&& in_i64(self.re * rhs.im)
        &&& in_i64(rhs.re * self.im - self.re * rhs.im)
    }

    /// Complex product `(a+bi)(c+di) = (ac-bd) + (ad+bc)i`.
    pub fn mul(self, rhs: Self) -> (r: Self)
        requires
            self.mul_fits(rhs),
        ensures
            r.re == self.mul_re(rhs),
            r.im == self.mul_im(rhs),
    {
        Complex { re: self.re * rhs.re - self.im * rhs.im, im: self.re * rhs.im + self.im * rhs.re }
    }

    /// Complex quotient by the conjugate-ratio identity: multiply by the
    /// conjugate of the divisor and divide both components by the squared
    /// modulus of the divisor.  A divisor with zero modulus is excluded,
    /// as integer division by the zero scalar has no defined value.
    pub fn div(self, rhs: Self) -> (r: Self)
        requires
            rhs.re != 0 || rhs.im != 0,
            self.div_fits(rhs),
        ensures
            r.re == self.div_re(rhs),
            r.im == self.div_im(rhs),
    {
        proof {
            assert((rhs.re != 0 || rhs.im != 0) ==> rhs.re * rhs.re + rhs.im * rhs.im > 0)
                by (nonlinear_arith);
            lemma_tdiv_in_i64(rhs.re * self.re + rhs.im * self.im, rhs.modulus2());
            lemma_tdiv_in_i64(rhs.re * self.im - self.re * rhs.im, rhs.modulus2());
        }
        let d = rhs.re * rhs.re + rhs.im * rhs.im;
        Complex {
            re: (rhs.re * self.re + rhs.im * self.im) / d,
            im: (rhs.re * self.im - self.re * rhs.im) / d,
        }
    }

    /// Component-wise sum.
    pub fn add(self, rhs: Self) -> (r: Self)
        requires
            in_i64(self.re + rhs.re),
            in_i64(self.im + rhs.im),
        ensures
            r.re == self.re + rhs.re,
            r.im == self.im + rhs.im,
    {
        Complex { re: self.re + rhs.re, im: self.im + rhs.im }
    }

    /// Component-wise difference.
    pub fn sub(self, rhs: Self) -> (r: Self)
        requires
            in_i64(self.re - rhs.re),
            in_i64(self.im - rhs.im),
        ensures
            r.re == self.re - rhs.re,
            r.im == self.im - rhs.im,
    {
        Complex { re: self.re - rhs.re, im: self.im - rhs.im }
    }

    /// Both components scaled by a bare scalar.
    pub fn mul_scalar(self, rhs: i64) -> (r: Self)
        requires
            in_i64(self.re * rhs),
            in_i64(self.im * rhs),
        ensures
            r.re == self.re * rhs,
            r.im == self.im * rhs,
    {
        Complex { re: self.re * rhs, im: self.im * rhs }
    }

    /// Both components divided by a bare scalar.  Division by the zero
    /// scalar is excluded, as is the one quotient the machine cannot
    /// represent.
    pub fn div_scalar(self, rhs: i64) -> (r: Self)
        requires
            rhs != 0,
            !(self.re == i64::MIN && rhs == -1),
            !(self.im == i64::MIN && rhs == -1),
        ensures
            r.re == tdiv(self.re as int, rhs as int),
            r.im == tdiv(self.im as int, rhs as int),
    {
        proof {
            lemma_tdiv_in_i64(self.re as int, rhs as int);
            lemma_tdiv_in_i64(self.im as int, rhs as int);
        }
        Complex { re: self.re / rhs, im: self.im / rhs }
    }
}

/// Dividing a complex value of nonzero modulus by itself yields exactly
/// the complex unit `(1, 0)`.
pub proof fn lemma_div_self_is_one(c: Complex)
    requires
        c.re != 0 || c.im != 0,
    ensures
        c.div_re(c) == 1,
        c.div_im(c) == 0,
{
    assert((c.re != 0 || c.im != 0) ==> c.re * c.re + c.im * c.im > 0) by (nonlinear_arith);
    lemma_tdiv_mul_exact(1, c.modulus2());
    assert(c.modulus2() * 1 == c.modulus2());
    lemma_tdiv_mul_exact(0, c.modulus2());
    assert(c.modulus2() * 0 == 0);
    assert(c.re * c.im - c.re * c.im == 0);
}

} // verus!
