use vstd::prelude::*;

use core::cmp::Ordering;

use crate::in_i64;
use crate::lemma_tdiv_in_i64;
use crate::lemma_tdiv_mul_exact;
use crate::tdiv;

verus! {

/// A 3-component vector with exact 64-bit integer components.
#[derive(Clone, Copy, Debug, PartialEq, Eq, Structural)]
pub struct Vector3 {
    pub x: i64,
    pub y: i64,
    pub z: i64,
}

impl Vector3 {
    /// The scalar product `x1*x2 + y1*y2 + z1*z2`.
    pub open spec fn dot_spec(self, rhs: Self) -> int {
        self.x * rhs.x + self.y * rhs.y + self.z * rhs.z
    }

    /// First component of the right-handed cross product.
    pub open spec fn cross_x(self, rhs: Self) -> int {
        self.y * rhs.z - rhs.y * self.z
    }

    /// Second component of the right-handed cross product.
    pub open spec fn cross_y(self, rhs: Self) -> int {
        self.z * rhs.x - rhs.z * self.x
    }

    /// Third component of the right-handed cross product.
    pub open spec fn cross_z(self, rhs: Self) -> int {
        self.x * rhs.y - rhs.x * self.y
    }

    /// The vector has a strictly positive squared length.
    pub open spec fn is_nonzero(self) -> bool {
        self.x != 0 || self.y != 0 || self.z != 0
    }

    /// The scale factor of the orthogonal projection of `self` onto `other`.
    pub open spec fn proj_t(self, other: Self) -> int {
        tdiv(self.dot_spec(other), other.dot_spec(other))
    }

    /// First component of the orthogonal projection of `self` onto `other`.
    pub open spec fn proj_x(self, other: Self) -> int {
        other.x * self.proj_t(other)
    }

    /// Second component of the orthogonal projection of `self` onto `other`.
    pub open spec fn proj_y(self, other: Self) -> int {
        other.y * self.proj_t(other)
    }

    /// Third component of the orthogonal projection of `self` onto `other`.
    pub open spec fn proj_z(self, other: Self) -> int {
        other.z * self.proj_t(other)
    }

    /// The strict componentwise dominance order: greater or less only when
    /// every component is strictly so, equal only when every component is
    /// equal, and incomparable otherwise.
    pub open spec fn dominance(self, other: Self) -> Option<Ordering> {
        if self.x > other.x && self.y > other.y && self.z > other.z {
            Some(Ordering::Greater)
        } else if self.x < other.x && self.y < other.y && self.z < other.z {
            Some(Ordering::Less)
        } else if self.x == other.x && self.y == other.y && self.z == other.z {
            Some(Ordering::Equal)
        } else {
            None
        }
    }

    /// Every machine word computed by `dot` stays in range.
    pub open spec fn dot_fits(self, rhs: Self) -> bool {
        &&& in_i64(self.x * rhs.x)
        &&& in_i64(self.y * rhs.y)
        &&& in_i64(self.z * rhs.z)
        &&& in_i64(self.x * rhs.x + self.y * rhs.y)
        &&& in_i64(self.dot_spec(rhs))
    }

    /// Every machine word computed by `crossp` stays in range.
    pub open spec fn cross_fits(self, rhs: Self) -> bool {
        &&& in_i64(self.y * rhs.z)
        &&& in_i64(rhs.y * self.z)
        &&& in_i64(self.cross_x(rhs))
        &&& in_i64(self.z * rhs.x)
        &&& in_i64(rhs.z * self.x)
        &&& in_i64(self.cross_y(rhs))
        &&& in_i64(self.x * rhs.y)
        &&& in_i64(rhs.x * self.y)
        &&& in_i64(self.cross_z(rhs))
    }

    /// Every machine word computed by `proj` stays in range.
    pub open spec fn proj_fits(self, other: Self) -> bool {
        &&& self.dot_fits(other)
        &&& other.dot_fits(other)
        &&& in_i64(self.proj_x(other))
        &&& in_i64(self.proj_y(other))
        &&& in_i64(self.proj_z(other))
    }

    /// Direct construction from the three components.
    pub fn new(x: i64, y: i64, z: i64) -> (r: Self)
        ensures
            r == (Vector3 { x, y, z }),
    {
        Self { x, y, z }
    }

    /// Component-wise negation.
    pub fn neg(self) -> (r: Self)
        requires
            self.x != i64::MIN,
            self.y != i64::MIN,
            self.z != i64::MIN,
        ensures
            r.x == -self.x,
            r.y == -self.y,
            r.z == -self.z,
    {
        Vector3 { x: -self.x, y: -self.y, z: -self.z }
    }

    /// Every component scaled by a bare scalar.
    pub fn mul_scalar(self, rhs: i64) -> (r: Self)
        requires
            in_i64(self.x * rhs),
            in_i64(self.y * rhs),
            in_i64(self.z * rhs),
        ensures
            r.x == self.x * rhs,
            r.y == self.y * rhs,
            r.z == self.z * rhs,
    {
        Vector3 { x: self.x * rhs, y: self.y * rhs, z: self.z * rhs }
    }

    /// In-place variant of `mul_scalar`.
    pub fn mul_assign(&mut self, rhs: i64)
        requires
            in_i64(old(self).x * rhs),
            in_i64(old(self).y * rhs),
            in_i64(old(self).z * rhs),
        ensures
            final(self).x == old(self).x * rhs,
            final(self).y == old(self).y * rhs,
            final(self).z == old(self).z * rhs,
    {
        self.x = self.x * rhs;
        self.y = self.y * rhs;
        self.z = self.z * rhs;
    }

    /// Every component divided by a bare scalar, rounding toward zero.
    pub fn div_scalar(self, rhs: i64) -> (r: Self)
        requires
            rhs != 0,
            !(self.x == i64::MIN && rhs == -1),
            !(self.y == i64::MIN && rhs == -1),
            !(self.z == i64::MIN && rhs == -1),
        ensures
            r.x == tdiv(self.x as int, rhs as int),
            r.y == tdiv(self.y as int, rhs as int),
            r.z == tdiv(self.z as int, rhs as int),
    {
        proof {
            lemma_tdiv_in_i64(self.x as int, rhs as int);
            lemma_tdiv_in_i64(self.y as int, rhs as int);
            lemma_tdiv_in_i64(self.z as int, rhs as int);
        }
        Vector3 { x: self.x / rhs, y: self.y / rhs, z: self.z / rhs }
    }

    /// In-place variant of `div_scalar`.
    pub fn div_assign(&mut self, rhs: i64)
        requires
            rhs != 0,
            !(old(self).x == i64::MIN && rhs == -1),
            !(old(self).y == i64::MIN && rhs == -1),
            !(old(self).z == i64::MIN && rhs == -1),
        ensures
            final(self).x == tdiv(old(self).x as int, rhs as int),
            final(self).y == tdiv(old(self).y as int, rhs as int),
            final(self).z == tdiv(old(self).z as int, rhs as int),
    {
        proof {
            lemma_tdiv_in_i64(self.x as int, rhs as int);
            lemma_tdiv_in_i64(self.y as int, rhs as int);
            lemma_tdiv_in_i64(self.z as int, rhs as int);
        }
        self.x = self.x / rhs;
        self.y = self.y / rhs;
        self.z = self.z / rhs;
    }

    /// Component-wise sum.
    pub fn add(self, rhs: Self) -> (r: Self)
        requires
            in_i64(self.x + rhs.x),
            in_i64(self.y + rhs.y),
            in_i64(self.z + rhs.z),
        ensures
            r.x == self.x + rhs.x,
            r.y == self.y + rhs.y,
            r.z == self.z + rhs.z,
    {
        Vector3 { x: self.x + rhs.x, y: self.y + rhs.y, z: self.z + rhs.z }
    }

    /// In-place variant of `add`.
    pub fn add_assign(&mut self, rhs: Self)
        requires
            in_i64(old(self).x + rhs.x),
            in_i64(old(self).y + rhs.y),
            in_i64(old(self).z + rhs.z),
        ensures
            final(self).x == old(self).x + rhs.x,
            final(self).y == old(self).y + rhs.y,
            final(self).z == old(self).z + rhs.z,
    {
        self.x = self.x + rhs.x;
        self.y = self.y + rhs.y;
        self.z = self.z + rhs.z;
    }

    /// Component-wise difference.
    pub fn sub(self, rhs: Self) -> (r: Self)
        requires
            in_i64(self.x - rhs.x),
            in_i64(self.y - rhs.y),
            in_i64(self.z - rhs.z),
        ensures
            r.x == self.x - rhs.x,
            r.y == self.y - rhs.y,
            r.z == self.z - rhs.z,
    {
        Vector3 { x: self.x - rhs.x, y: self.y - rhs.y, z: self.z - rhs.z }
    }

    /// In-place variant of `sub`.
    pub fn sub_assign(&mut self, rhs: Self)
        requires
            in_i64(old(self).x - rhs.x),
            in_i64(old(self).y - rhs.y),
            in_i64(old(self).z - rhs.z),
        ensures
            final(self).x == old(self).x - rhs.x,
            final(self).y == old(self).y - rhs.y,
            final(self).z == old(self).z - rhs.z,
    {
        self.x = self.x - rhs.x;
        self.y = self.y - rhs.y;
        self.z = self.z - rhs.z;
    }

    /// The scalar product; the one operation whose result is a bare scalar
    /// rather than a vector.
    pub fn dot(self, rhs: Self) -> (r: i64)
        requires
            self.dot_fits(rhs),
        ensures
            r == self.dot_spec(rhs),
    {
        self.x * rhs.x + self.y * rhs.y + self.z * rhs.z
    }

    /// The right-handed cross product by the determinant-expansion formula.
    pub fn crossp(&self, rhs: &Self) -> (r: Self)
        requires
            self.cross_fits(*rhs),
        ensures
            r.x == self.cross_x(*rhs),
            r.y == self.cross_y(*rhs),
            r.z == self.cross_z(*rhs),
    {
        Vector3 {
            x: self.y * rhs.z - rhs.y * self.z,
            y: self.z * rhs.x - rhs.z * self.x,
            z: self.x * rhs.y - rhs.x * self.y,
        }
    }

    /// The squared length, `self` dot `self`.
    pub fn len2(&self) -> (r: i64)
        requires
            self.dot_fits(*self),
        ensures
            r == self.dot_spec(*self),
    {
        (*self).dot(*self)
    }

    /// A vector sampled uniformly between two corner values, each
    /// component drawn independently from the half-open range
    /// `[lower, upper)`.  An empty range is excluded, as the sampler has
    /// no value to draw from it.
    pub fn new_random(upper: i64, lower: i64) -> (r: Self)
        requires
            lower < upper,
        ensures
            lower <= r.x < upper,
            lower <= r.y < upper,
            lower <= r.z < upper,
    {
        Self {
            x: sample_range(lower, upper),
            y: sample_range(lower, upper),
            z: sample_range(lower, upper),
        }
    }

    /// Orthogonal projection of `self` onto `other`:
    /// `other * ((self . other) / (other . other))`.  The zero vector is
    /// excluded as a projection target, as the scale factor would divide
    /// by the zero scalar.
    pub fn proj(&self, other: &Self) -> (r: Self)
        requires
            other.is_nonzero(),
            self.proj_fits(*other),
        ensures
            r.x == self.proj_x(*other),
            r.y == self.proj_y(*other),
            r.z == self.proj_z(*other),
    {
        proof {
            lemma_dot_self_positive(*other);
            lemma_tdiv_in_i64(self.dot_spec(*other), other.dot_spec(*other));
        }
        let t = (*self).dot(*other) / (*other).dot(*other);
        (*other).mul_scalar(t)
    }
}

/// Relies on rand::random_range: a sample from a nonempty half-open
/// integer range is drawn uniformly from that range and lies within it;
/// an empty range panics, and is excluded here.
#[verifier::external_body]
fn sample_range(lower: i64, upper: i64) -> (r: i64)
    requires
        lower < upper,
    ensures
        lower <= r < upper,
{
    rand::random_range(lower..upper)
}

/// A nonzero vector has a strictly positive scalar product with itself.
pub proof fn lemma_dot_self_positive(v: Vector3)
    requires
        v.is_nonzero(),
    ensures
        v.dot_spec(v) > 0,
{
    assert((v.x != 0 || v.y != 0 || v.z != 0) ==> v.x * v.x + v.y * v.y + v.z * v.z > 0)
        by (nonlinear_arith);
}

/// The dominance order is transitive, on the strict sides as well as on
/// equality.
pub proof fn lemma_dominance_transitive(u: Vector3, v: Vector3, w: Vector3)
    ensures
        u.dominance(v) == Some(Ordering::Less) && v.dominance(w) == Some(Ordering::Less)
            ==> u.dominance(w) == Some(Ordering::Less),
        u.dominance(v) == Some(Ordering::Greater) && v.dominance(w) == Some(Ordering::Greater)
            ==> u.dominance(w) == Some(Ordering::Greater),
        u.dominance(v) == Some(Ordering::Equal) && v.dominance(w) == Some(Ordering::Equal)
            ==> u.dominance(w) == Some(Ordering::Equal),
{
}

/// The dominance order is antisymmetric: `u < v` and `v < u` exclude each
/// other, and the two strict sides are exact mirrors.
pub proof fn lemma_dominance_antisymmetric(u: Vector3, v: Vector3)
    ensures
        !(u.dominance(v) == Some(Ordering::Less) && v.dominance(u) == Some(Ordering::Less)),
        u.dominance(v) == Some(Ordering::Less) <==> v.dominance(u) == Some(Ordering::Greater),
        u.dominance(v) == Some(Ordering::Equal) <==> u == v,
{
}

/// Vectors whose component differences have mixed signs are incomparable:
/// one component strictly greater and another strictly smaller leave
/// neither `<`, `>`, nor `==`.
pub proof fn lemma_dominance_incomparable(u: Vector3, v: Vector3)
    requires
        u.x > v.x || u.y > v.y || u.z > v.z,
        u.x < v.x || u.y < v.y || u.z < v.z,
    ensures
        u.dominance(v) is None,
{
}

/// Cross product anti-commutativity: `u.crossp(v)` is the negation of
/// `v.crossp(u)`, component by component.
pub proof fn lemma_cross_anticommutative(u: Vector3, v: Vector3)
    ensures
        u.cross_x(v) == -v.cross_x(u),
        u.cross_y(v) == -v.cross_y(u),
        u.cross_z(v) == -v.cross_z(u),
{
}

/// Projection idempotence: projecting the projection of `v` onto `other`
/// onto `other` again changes nothing.  The vector `p` carries the first
/// projection's components.
pub proof fn lemma_proj_idempotent(v: Vector3, other: Vector3, p: Vector3)
    requires
        other.is_nonzero(),
        p.x == v.proj_x(other),
        p.y == v.proj_y(other),
        p.z == v.proj_z(other),
    ensures
        p.proj_x(other) == p.x,
        p.proj_y(other) == p.y,
        p.proj_z(other) == p.z,
{
    lemma_dot_self_positive(other);
    let t = v.proj_t(other);
    let doo = other.dot_spec(other);
    assert(p.dot_spec(other) == doo * t) by (nonlinear_arith)
        requires
            p.x == other.x * t,
            p.y == other.y * t,
            p.z == other.z * t,
            doo == other.x * other.x + other.y * other.y + other.z * other.z,
            p.dot_spec(other) == p.x * other.x + p.y * other.y + p.z * other.z,
    ;
    lemma_tdiv_mul_exact(t, doo);
}

impl PartialOrd for Vector3 {
    /// The strict componentwise dominance order of the `dominance`
    /// specification.
    fn partial_cmp(&self, other: &Self) -> (r: Option<Ordering>) {
        if self.x > other.x && self.y > other.y && self.z > other.z {
            Some(Ordering::Greater)
        } else if self.x < other.x && self.y < other.y && self.z < other.z {
            Some(Ordering::Less)
        } else if self.x == other.x && self.y == other.y && self.z == other.z {
            Some(Ordering::Equal)
        } else {
            None
        }
    }
}

impl vstd::std_specs::cmp::PartialOrdSpecImpl for Vector3 {
    open spec fn obeys_partial_cmp_spec() -> bool {
        true
    }

    open spec fn partial_cmp_spec(&self, other: &Self) -> Option<Ordering> {
        self.dominance(*other)
    }
}

} // verus!
