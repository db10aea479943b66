//! A three-dimensional vector of fixed-point scalars.

use crate::scalar::{
    div_bits, fits_i64, is_isqrt, isqrt, lemma_div_by_sqrt_bounded, lemma_isqrt_zero,
    lemma_div_bits_two, lemma_mul_bits_square_nonneg, lemma_mul_bits_two, mul_bits, scalar_of_bits,
    sqrt_bits, SignedFractional,
};
use core::ops::Neg;
use vstd::prelude::*;
use vstd::std_specs::convert::FromSpec;
use vstd::std_specs::ops::{AddSpec, DivSpec, MulSpec, NegSpec, SubSpec};

verus! {

/// A 3D vector. Any three scalars make a valid vector; nothing is normalised
/// implicitly.
#[derive(Clone, Copy, Debug, Default, Hash, PartialEq, Eq, Structural)]
pub struct Vec3 {
    pub x: SignedFractional,
    pub y: SignedFractional,
    pub z: SignedFractional,
}

/// The vector whose components have the given raw bits.
pub open spec fn vec3_of_bits(x: int, y: int, z: int) -> Vec3 {
    Vec3 {
        x: SignedFractional { bits: x as i64 },
        y: SignedFractional { bits: y as i64 },
        z: SignedFractional { bits: z as i64 },
    }
}

impl Vec3 {
    /// Raw bits of `x*x + y*y + z*z` under the scalar's multiplication.
    pub open spec fn len_pow2_spec(self) -> int {
        mul_bits(self.x@, self.x@) + mul_bits(self.y@, self.y@) + mul_bits(self.z@, self.z@)
    }

    /// Raw bits of the length: the scalar square root of `len_pow2_spec`.
    pub open spec fn len_spec(self) -> int {
        sqrt_bits(self.len_pow2_spec())
    }

    /// Each component divided by `d` (raw bits) under the scalar's division.
    pub open spec fn div_bits_spec(self, d: int) -> Vec3 {
        vec3_of_bits(div_bits(self.x@, d), div_bits(self.y@, d), div_bits(self.z@, d))
    }

    /// The vector divided by its own length.
    pub open spec fn normalized_spec(self) -> Vec3 {
        self.div_bits_spec(self.len_spec())
    }

    /// The zero vector, the additive identity.
    pub fn zero() -> (r: Vec3)
        ensures
            r == vec3_of_bits(0, 0, 0),
    {
        Vec3 { x: SignedFractional::zero(), y: SignedFractional::zero(), z: SignedFractional::zero() }
    }

    /// Creates a vector from its coordinates.
    pub fn new(x: SignedFractional, y: SignedFractional, z: SignedFractional) -> (r: Vec3)
        ensures
            r.x == x,
            r.y == y,
            r.z == z,
    {
        Vec3 { x, y, z }
    }

    /// The squared length `x*x + y*y + z*z`, which avoids the square root when only
    /// magnitudes are compared.
    pub fn len_pow2(&self) -> (r: SignedFractional)
        requires
            fits_i64(self.len_pow2_spec()),
        ensures
            r@ == self.len_pow2_spec(),
    {
        proof {
            lemma_mul_bits_square_nonneg(self.x@);
            lemma_mul_bits_square_nonneg(self.y@);
            lemma_mul_bits_square_nonneg(self.z@);
        }
        self.x * self.x + self.y * self.y + self.z * self.z
    }

    /// The length: the scalar square root of `len_pow2`.
    pub fn len(&self) -> (r: SignedFractional)
        requires
            fits_i64(self.len_pow2_spec()),
        ensures
            r@ == self.len_spec(),
            is_isqrt(isqrt(self.len_pow2_spec()), self.len_pow2_spec()),
    {
        proof {
            lemma_mul_bits_square_nonneg(self.x@);
            lemma_mul_bits_square_nonneg(self.y@);
            lemma_mul_bits_square_nonneg(self.z@);
        }
        self.len_pow2().sqrt()
    }

    /// The squared length; the same as `len_pow2`.
    pub fn magintude_pow2(&self) -> (r: SignedFractional)
        requires
            fits_i64(self.len_pow2_spec()),
        ensures
            r@ == self.len_pow2_spec(),
    {
        self.len_pow2()
    }

    /// The length; the same as `len`.
    pub fn magnitude(&self) -> (r: SignedFractional)
        requires
            fits_i64(self.len_pow2_spec()),
        ensures
            r@ == self.len_spec(),
    {
        self.len()
    }

    /// Divides the vector by its length, in place.
    ///
    /// The squared length must be positive: normalising the zero vector is a
    /// caller error.
    pub fn normalize(&mut self)
        requires
            fits_i64(old(self).len_pow2_spec()),
            old(self).len_pow2_spec() > 0,
        ensures
            *final(self) == old(self).normalized_spec(),
    {
        let len = self.len();
        proof {
            self.lemma_normalized_fits();
        }
        self.div_assign(len);
    }

    /// A vector with the direction of `self` and length one, up to rounding.
    ///
    /// The squared length must be positive: normalising the zero vector is a
    /// caller error.
    pub fn get_normalized(&self) -> (r: Vec3)
        requires
            fits_i64(self.len_pow2_spec()),
            self.len_pow2_spec() > 0,
        ensures
            r == self.normalized_spec(),
    {
        let len = self.len();
        proof {
            self.lemma_normalized_fits();
        }
        Vec3 { x: self.x / len, y: self.y / len, z: self.z / len }
    }

    /// Like `get_normalized`, but returns `None` where the length is zero.
    pub fn try_get_normalized(&self) -> (r: Option<Vec3>)
        requires
            fits_i64(self.len_pow2_spec()),
        ensures
            r == (if self.len_pow2_spec() == 0 {
                None
            } else {
                Some(self.normalized_spec())
            }),
    {
        let len = self.len();
        proof {
            lemma_mul_bits_square_nonneg(self.x@);
            lemma_mul_bits_square_nonneg(self.y@);
            lemma_mul_bits_square_nonneg(self.z@);
            lemma_isqrt_zero(self.len_pow2_spec());
        }
        if len == SignedFractional::zero() {
            return None;
        }
        proof {
            self.lemma_normalized_fits();
        }
        Some(Vec3 { x: self.x / len, y: self.y / len, z: self.z / len })
    }

    /// Dividing any component by the length of a vector with positive
    /// squared length stays in range.
    proof fn lemma_normalized_fits(self)
        requires
            fits_i64(self.len_pow2_spec()),
            self.len_pow2_spec() > 0,
            is_isqrt(isqrt(self.len_pow2_spec()), self.len_pow2_spec()),
        ensures
            self.len_spec() > 0,
            fits_i64(self.len_spec()),
            fits_i64(div_bits(self.x@, self.len_spec())),
            fits_i64(div_bits(self.y@, self.len_spec())),
            fits_i64(div_bits(self.z@, self.len_spec())),
    {
        let total = self.len_pow2_spec();
        lemma_mul_bits_square_nonneg(self.x@);
        lemma_mul_bits_square_nonneg(self.y@);
        lemma_mul_bits_square_nonneg(self.z@);
        lemma_div_by_sqrt_bounded(self.x@, total);
        lemma_div_by_sqrt_bounded(self.y@, total);
        lemma_div_by_sqrt_bounded(self.z@, total);
        let s = isqrt(total);
        assert(s <= total) by (nonlinear_arith)
            requires
                s >= 0,
                s * s <= total,
                total >= 1,
        ;
        assert(s < 0x1_0000_0000) by (nonlinear_arith)
            requires
                s >= 0,
                s * s <= total,
                total <= i64::MAX,
        ;
    }

    /// Adds `rhs` to this vector, in place.
    pub fn add_assign(&mut self, rhs: Vec3)
        requires
            old(self).add_req(rhs),
        ensures
            *final(self) == old(self).add_spec(rhs),
    {
        self.x = self.x + rhs.x;
        self.y = self.y + rhs.y;
        self.z = self.z + rhs.z;
    }

    /// Adds a triple of scalars to this vector, in place.
    pub fn add_assign_tuple(&mut self, rhs: (SignedFractional, SignedFractional, SignedFractional))
        requires
            old(self).add_req(rhs),
        ensures
            *final(self) == old(self).add_spec(rhs),
    {
        self.x = self.x + rhs.0;
        self.y = self.y + rhs.1;
        self.z = self.z + rhs.2;
    }

    /// Subtracts `rhs` from this vector, in place.
    pub fn sub_assign(&mut self, rhs: Vec3)
        requires
            old(self).sub_req(rhs),
        ensures
            *final(self) == old(self).sub_spec(rhs),
    {
        self.x = self.x - rhs.x;
        self.y = self.y - rhs.y;
        self.z = self.z - rhs.z;
    }

    /// Subtracts a triple of scalars from this vector, in place.
    pub fn sub_assign_tuple(&mut self, rhs: (SignedFractional, SignedFractional, SignedFractional))
        requires
            old(self).sub_req(rhs),
        ensures
            *final(self) == old(self).sub_spec(rhs),
    {
        self.x = self.x - rhs.0;
        self.y = self.y - rhs.1;
        self.z = self.z - rhs.2;
    }

    /// Multiplies every component by a scalar, in place.
    pub fn mul_assign(&mut self, rhs: SignedFractional)
        requires
            old(self).mul_req(rhs),
        ensures
            *final(self) == old(self).mul_spec(rhs),
    {
        self.x = self.x * rhs;
        self.y = self.y * rhs;
        self.z = self.z * rhs;
    }

    /// Divides every component by a scalar, in place.
    pub fn div_assign(&mut self, rhs: SignedFractional)
        requires
            old(self).div_req(rhs),
        ensures
            *final(self) == old(self).div_spec(rhs),
    {
        self.x = self.x / rhs;
        self.y = self.y / rhs;
        self.z = self.z / rhs;
    }
}

impl From<(SignedFractional, SignedFractional, SignedFractional)> for Vec3 {
    fn from(n: (SignedFractional, SignedFractional, SignedFractional)) -> (r: Vec3) {
        Vec3 { x: n.0, y: n.1, z: n.2 }
    }
}

impl vstd::std_specs::convert::FromSpecImpl<(SignedFractional, SignedFractional, SignedFractional)> for Vec3 {
    open spec fn obeys_from_spec() -> bool {
        true
    }

    open spec fn from_spec(n: (SignedFractional, SignedFractional, SignedFractional)) -> Vec3 {
        Vec3 { x: n.0, y: n.1, z: n.2 }
    }
}

impl From<Vec3> for (SignedFractional, SignedFractional, SignedFractional) {
    fn from(n: Vec3) -> (r: (SignedFractional, SignedFractional, SignedFractional)) {
        (n.x, n.y, n.z)
    }
}

impl vstd::std_specs::convert::FromSpecImpl<Vec3> for (SignedFractional, SignedFractional, SignedFractional) {
    open spec fn obeys_from_spec() -> bool {
        true
    }

    open spec fn from_spec(n: Vec3) -> (SignedFractional, SignedFractional, SignedFractional) {
        (n.x, n.y, n.z)
    }
}

impl core::ops::Neg for Vec3 {
    type Output = Vec3;

    fn neg(self) -> (r: Vec3) {
        Vec3 { x: self.x.neg(), y: self.y.neg(), z: self.z.neg() }
    }
}

impl vstd::std_specs::ops::NegSpecImpl for Vec3 {
    open spec fn obeys_neg_spec() -> bool {
        true
    }

    open spec fn neg_req(self) -> bool {
        fits_i64(-self.x@) && fits_i64(-self.y@) && fits_i64(-self.z@)
    }

    open spec fn neg_spec(self) -> Vec3 {
        vec3_of_bits(-self.x@, -self.y@, -self.z@)
    }
}

impl core::ops::Add for Vec3 {
    type Output = Vec3;

    fn add(self, rhs: Vec3) -> (r: Vec3) {
        Vec3 { x: self.x + rhs.x, y: self.y + rhs.y, z: self.z + rhs.z }
    }
}

impl vstd::std_specs::ops::AddSpecImpl for Vec3 {
    open spec fn obeys_add_spec() -> bool {
        true
    }

    open spec fn add_req(self, rhs: Vec3) -> bool {
        fits_i64(self.x@ + rhs.x@) && fits_i64(self.y@ + rhs.y@) && fits_i64(self.z@ + rhs.z@)
    }

    open spec fn add_spec(self, rhs: Vec3) -> Vec3 {
        vec3_of_bits(self.x@ + rhs.x@, self.y@ + rhs.y@, self.z@ + rhs.z@)
    }
}

impl core::ops::Add<(SignedFractional, SignedFractional, SignedFractional)> for Vec3 {
    type Output = Vec3;

    fn add(self, rhs: (SignedFractional, SignedFractional, SignedFractional)) -> (r: Vec3) {
        self + Vec3::from(rhs)
    }
}

impl vstd::std_specs::ops::AddSpecImpl<(SignedFractional, SignedFractional, SignedFractional)> for Vec3 {
    open spec fn obeys_add_spec() -> bool {
        true
    }

    open spec fn add_req(self, rhs: (SignedFractional, SignedFractional, SignedFractional)) -> bool {
        fits_i64(self.x@ + rhs.0@) && fits_i64(self.y@ + rhs.1@) && fits_i64(self.z@ + rhs.2@)
    }

    open spec fn add_spec(self, rhs: (SignedFractional, SignedFractional, SignedFractional)) -> Vec3 {
        vec3_of_bits(self.x@ + rhs.0@, self.y@ + rhs.1@, self.z@ + rhs.2@)
    }
}

impl core::ops::Sub for Vec3 {
    type Output = Vec3;

    fn sub(self, rhs: Vec3) -> (r: Vec3) {
        Vec3 { x: self.x - rhs.x, y: self.y - rhs.y, z: self.z - rhs.z }
    }
}

impl vstd::std_specs::ops::SubSpecImpl for Vec3 {
    open spec fn obeys_sub_spec() -> bool {
        true
    }

    open spec fn sub_req(self, rhs: Vec3) -> bool {
        fits_i64(self.x@ - rhs.x@) && fits_i64(self.y@ - rhs.y@) && fits_i64(self.z@ - rhs.z@)
    }

    open spec fn sub_spec(self, rhs: Vec3) -> Vec3 {
        vec3_of_bits(self.x@ - rhs.x@, self.y@ - rhs.y@, self.z@ - rhs.z@)
    }
}

impl core::ops::Sub<(SignedFractional, SignedFractional, SignedFractional)> for Vec3 {
    type Output = Vec3;

    fn sub(self, rhs: (SignedFractional, SignedFractional, SignedFractional)) -> (r: Vec3) {
        self - Vec3::from(rhs)
    }
}

impl vstd::std_specs::ops::SubSpecImpl<(SignedFractional, SignedFractional, SignedFractional)> for Vec3 {
    open spec fn obeys_sub_spec() -> bool {
        true
    }

    open spec fn sub_req(self, rhs: (SignedFractional, SignedFractional, SignedFractional)) -> bool {
        fits_i64(self.x@ - rhs.0@) && fits_i64(self.y@ - rhs.1@) && fits_i64(self.z@ - rhs.2@)
    }

    open spec fn sub_spec(self, rhs: (SignedFractional, SignedFractional, SignedFractional)) -> Vec3 {
        vec3_of_bits(self.x@ - rhs.0@, self.y@ - rhs.1@, self.z@ - rhs.2@)
    }
}

impl core::ops::Mul<SignedFractional> for Vec3 {
    type Output = Vec3;

    fn mul(self, rhs: SignedFractional) -> (r: Vec3) {
        Vec3 { x: self.x * rhs, y: self.y * rhs, z: self.z * rhs }
    }
}

impl vstd::std_specs::ops::MulSpecImpl<SignedFractional> for Vec3 {
    open spec fn obeys_mul_spec() -> bool {
        true
    }

    open spec fn mul_req(self, rhs: SignedFractional) -> bool {
        fits_i64(mul_bits(self.x@, rhs@)) && fits_i64(mul_bits(self.y@, rhs@))
            && fits_i64(mul_bits(self.z@, rhs@))
    }

    open spec fn mul_spec(self, rhs: SignedFractional) -> Vec3 {
        vec3_of_bits(mul_bits(self.x@, rhs@), mul_bits(self.y@, rhs@), mul_bits(self.z@, rhs@))
    }
}

impl core::ops::Div<SignedFractional> for Vec3 {
    type Output = Vec3;

    fn div(self, rhs: SignedFractional) -> (r: Vec3) {
        Vec3 { x: self.x / rhs, y: self.y / rhs, z: self.z / rhs }
    }
}

impl vstd::std_specs::ops::DivSpecImpl<SignedFractional> for Vec3 {
    open spec fn obeys_div_spec() -> bool {
        true
    }

    open spec fn div_req(self, rhs: SignedFractional) -> bool {
        rhs@ != 0 && fits_i64(div_bits(self.x@, rhs@)) && fits_i64(div_bits(self.y@, rhs@))
            && fits_i64(div_bits(self.z@, rhs@))
    }

    open spec fn div_spec(self, rhs: SignedFractional) -> Vec3 {
        self.div_bits_spec(rhs@)
    }
}

/// A vector plus its negation is the zero vector.
pub proof fn lemma_add_neg_is_zero(v: Vec3)
    requires
        v.neg_req(),
    ensures
        v.add_req(v.neg_spec()),
        v.add_spec(v.neg_spec()) == vec3_of_bits(0, 0, 0),
{
}

/// A vector minus itself is the zero vector.
pub proof fn lemma_sub_self_is_zero(v: Vec3)
    ensures
        v.sub_req(v),
        v.sub_spec(v) == vec3_of_bits(0, 0, 0),
{
}

/// Converting a vector to a tuple and back gives the same vector, and
/// converting a tuple to a vector and back gives the same tuple.
pub proof fn lemma_tuple_round_trip(
    v: Vec3,
    t: (SignedFractional, SignedFractional, SignedFractional),
)
    ensures
        <Vec3 as FromSpec<(SignedFractional, SignedFractional, SignedFractional)>>::from_spec(
            <(SignedFractional, SignedFractional, SignedFractional) as FromSpec<Vec3>>::from_spec(v),
        ) == v,
        <(SignedFractional, SignedFractional, SignedFractional) as FromSpec<Vec3>>::from_spec(
            <Vec3 as FromSpec<(SignedFractional, SignedFractional, SignedFractional)>>::from_spec(t),
        ) == t,
{
}

/// Multiplying a vector by two and then dividing by two gives back the vector,
/// whenever the doubled components are representable.
pub proof fn lemma_mul_then_div_by_two(v: Vec3)
    requires
        fits_i64(2 * v.x@),
        fits_i64(2 * v.y@),
        fits_i64(2 * v.z@),
    ensures
        v.mul_req(scalar_of_bits(0x2_0000_0000)),
        v.mul_spec(scalar_of_bits(0x2_0000_0000)).div_req(scalar_of_bits(0x2_0000_0000)),
        v.mul_spec(scalar_of_bits(0x2_0000_0000)).div_spec(scalar_of_bits(0x2_0000_0000)) == v,
{
    lemma_mul_bits_two(v.x@);
    lemma_mul_bits_two(v.y@);
    lemma_mul_bits_two(v.z@);
    lemma_div_bits_two(2 * v.x@);
    lemma_div_bits_two(2 * v.y@);
    lemma_div_bits_two(2 * v.z@);
}

/// Dividing a vector with even components (in raw bits) by two and then
/// multiplying by two gives back the vector.
pub proof fn lemma_div_then_mul_by_two(v: Vec3)
    requires
        v.x@ % 2 == 0,
        v.y@ % 2 == 0,
        v.z@ % 2 == 0,
    ensures
        v.div_req(scalar_of_bits(0x2_0000_0000)),
        v.div_spec(scalar_of_bits(0x2_0000_0000)).mul_req(scalar_of_bits(0x2_0000_0000)),
        v.div_spec(scalar_of_bits(0x2_0000_0000)).mul_spec(scalar_of_bits(0x2_0000_0000)) == v,
{
    lemma_div_bits_two(v.x@);
    lemma_div_bits_two(v.y@);
    lemma_div_bits_two(v.z@);
    lemma_mul_bits_two(v.x@ / 2);
    lemma_mul_bits_two(v.y@ / 2);
    lemma_mul_bits_two(v.z@ / 2);
}

} // verus!
