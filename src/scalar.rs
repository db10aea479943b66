//! The fixed-point scalar: a signed 64-bit integer read as `bits / 2^32`.
//!
//! Arithmetic is carried out by the `fixed` crate on `I32F32`; the contracts
//! below state, over the raw bits, what each operation returns.

use fixed::types::I32F32;
use fixed_sqrt::FastSqrt;
use vstd::prelude::*;
use vstd::std_specs::ops::{AddSpec, DivSpec, MulSpec, SubSpec};

verus! {

/// Raw value of the scalar one: there are 32 fractional bits.
pub open spec fn one_bits() -> int {
    0x1_0000_0000
}

/// Factor by which the square root's integer result is shifted: half the
/// fractional bits.
pub open spec fn half_frac_scale() -> int {
    0x1_0000
}

/// `v` can be stored as the raw bits of a scalar.
pub open spec fn fits_i64(v: int) -> bool {
    i64::MIN <= v <= i64::MAX
}

/// Absolute value of an integer.
pub open spec fn abs_int(n: int) -> int {
    if n >= 0 {
        n
    } else {
        -n
    }
}

/// Integer quotient rounded toward zero (`d != 0`).
pub open spec fn quot_toward_zero(n: int, d: int) -> int {
    if (n >= 0) == (d > 0) {
        abs_int(n) / abs_int(d)
    } else {
        -(abs_int(n) / abs_int(d))
    }
}

/// Raw bits of the product of two scalars: the full product rescaled by
/// `2^32`, rounded toward negative infinity.
pub open spec fn mul_bits(a: int, b: int) -> int {
    (a * b) / one_bits()
}

/// Raw bits of the quotient of two scalars: the dividend rescaled by `2^32`,
/// then divided rounding toward zero.
pub open spec fn div_bits(a: int, b: int) -> int {
    quot_toward_zero(a * one_bits(), b)
}

/// `s` is the integer square root of `n`.
pub open spec fn is_isqrt(s: int, n: int) -> bool {
    0 <= s && s * s <= n && n < (s + 1) * (s + 1)
}

/// The integer square root of `n`, for `n >= 0`.
pub open spec fn isqrt(n: int) -> int {
    choose|s: int| is_isqrt(s, n)
}

/// Raw bits of the square root of a scalar with raw bits `v`: the integer
/// square root of `v`, shifted so that it keeps 16 fractional bits.
pub open spec fn sqrt_bits(v: int) -> int {
    isqrt(v) * half_frac_scale()
}

/// The integer square root is unique.
pub proof fn lemma_isqrt_unique(s: int, t: int, n: int)
    requires
        is_isqrt(s, n),
        is_isqrt(t, n),
    ensures
        s == t,
{
    assert(s < t + 1) by (nonlinear_arith)
        requires
            0 <= s,
            0 <= t,
            s * s <= n,
            n < (t + 1) * (t + 1),
    ;
    assert(t < s + 1) by (nonlinear_arith)
        requires
            0 <= s,
            0 <= t,
            t * t <= n,
            n < (s + 1) * (s + 1),
    ;
}

/// Any witness of the integer square root is the one `isqrt` names.
pub proof fn lemma_isqrt_is(s: int, n: int)
    requires
        is_isqrt(s, n),
    ensures
        isqrt(n) == s,
{
    lemma_isqrt_unique(isqrt(n), s, n);
}

/// The integer square root is zero exactly on zero.
pub proof fn lemma_isqrt_zero(n: int)
    requires
        n >= 0,
        is_isqrt(isqrt(n), n),
    ensures
        (isqrt(n) == 0) == (n == 0),
{
    let s = isqrt(n);
    assert(s == 0 ==> n < 1) by (nonlinear_arith)
        requires
            n < (s + 1) * (s + 1),
    ;
    if n == 0 {
        lemma_isqrt_is(0, 0);
    }
}

/// The raw square of a scalar is never negative.
pub proof fn lemma_mul_bits_square_nonneg(a: int)
    ensures
        mul_bits(a, a) >= 0,
{
    assert(a * a >= 0) by (nonlinear_arith);
}

/// Dividing a component by the length of a vector that contains it never
/// overflows: if `total` holds the raw square of `c` and is positive, then the
/// quotient of `c` by the square root of `total` lies within `2^33` in absolute
/// value.
pub proof fn lemma_div_by_sqrt_bounded(c: int, total: int)
    requires
        fits_i64(c),
        total >= mul_bits(c, c),
        total >= 1,
        is_isqrt(isqrt(total), total),
    ensures
        sqrt_bits(total) > 0,
        abs_int(div_bits(c, sqrt_bits(total))) <= 0x2_0000_0000,
        fits_i64(div_bits(c, sqrt_bits(total))),
{
    let s = isqrt(total);
    let a = abs_int(c);
    let q = a / 0x1_0000;
    let d = s * 0x1_0000;
    assert(a * a == c * c) by (nonlinear_arith)
        requires
            a == abs_int(c),
    ;
    assert(q * 0x1_0000 <= a && a < (q + 1) * 0x1_0000);
    assert(q * q <= (a * a) / 0x1_0000_0000) by (nonlinear_arith)
        requires
            0 <= q,
            q * 0x1_0000 <= a,
    ;
    assert(q < s + 1) by (nonlinear_arith)
        requires
            0 <= q,
            0 <= s,
            q * q <= total,
            total < (s + 1) * (s + 1),
    ;
    assert(s >= 1) by (nonlinear_arith)
        requires
            0 <= s,
            total >= 1,
            total < (s + 1) * (s + 1),
    ;
    assert(a * 0x1_0000_0000 < 0x2_0000_0000 * d) by (nonlinear_arith)
        requires
            a < (q + 1) * 0x1_0000,
            q <= s,
            s >= 1,
            d == s * 0x1_0000,
    ;
    assert(abs_int(c * 0x1_0000_0000) == a * 0x1_0000_0000);
    assert((a * 0x1_0000_0000) / d <= 0x2_0000_0000) by (nonlinear_arith)
        requires
            a >= 0,
            d > 0,
            a * 0x1_0000_0000 < 0x2_0000_0000 * d,
    ;
}

/// The scalar whose raw bits are `v`.
pub open spec fn scalar_of_bits(v: int) -> SignedFractional {
    SignedFractional { bits: v as i64 }
}

/// Adding a scalar and then subtracting it again gives back the original,
/// whenever the sum is representable.
pub proof fn lemma_add_sub_cancel(a: SignedFractional, b: SignedFractional)
    requires
        a.add_req(b),
    ensures
        a.add_spec(b).sub_req(b),
        a.add_spec(b).sub_spec(b) == a,
{
}

/// Multiplying a scalar by one gives back the scalar.
pub proof fn lemma_mul_one(a: SignedFractional)
    ensures
        a.mul_req(scalar_of_bits(one_bits())),
        a.mul_spec(scalar_of_bits(one_bits())) == a,
{
    assert((a@ * 0x1_0000_0000) / 0x1_0000_0000 == a@) by (nonlinear_arith);
}

/// Dividing a scalar by one gives back the scalar.
pub proof fn lemma_div_one(a: SignedFractional)
    ensures
        a.div_req(scalar_of_bits(one_bits())),
        a.div_spec(scalar_of_bits(one_bits())) == a,
{
    assert(abs_int(a@ * 0x1_0000_0000) == abs_int(a@) * 0x1_0000_0000);
    assert((abs_int(a@) * 0x1_0000_0000) / 0x1_0000_0000 == abs_int(a@)) by (nonlinear_arith);
}

/// The precision lost by multiplication is less than one unit of the last
/// place, and always downward: the exact product of the values lies in
/// `[r, r + 2^-32)` where `r` is the computed product.
pub proof fn lemma_mul_error_bound(a: SignedFractional, b: SignedFractional)
    requires
        a.mul_req(b),
    ensures
        a.mul_spec(b)@ * one_bits() <= a@ * b@,
        a@ * b@ < (a.mul_spec(b)@ + 1) * one_bits(),
{
    let p = a@ * b@;
    assert((p / 0x1_0000_0000) * 0x1_0000_0000 <= p && p < (p / 0x1_0000_0000 + 1)
        * 0x1_0000_0000) by (nonlinear_arith);
}

/// The precision lost by division is less than one unit of the last place,
/// toward zero: the computed quotient `q` has the sign of the exact one and
/// `|q| * |b| <= |a * 2^32| < (|q| + 1) * |b|`.
pub proof fn lemma_div_error_bound(a: SignedFractional, b: SignedFractional)
    requires
        a.div_req(b),
    ensures
        abs_int(a.div_spec(b)@) * abs_int(b@) <= abs_int(a@ * one_bits()),
        abs_int(a@ * one_bits()) < (abs_int(a.div_spec(b)@) + 1) * abs_int(b@),
        a.div_spec(b)@ != 0 ==> ((a.div_spec(b)@ > 0) == ((a@ > 0) == (b@ > 0))),
{
    let n = abs_int(a@ * 0x1_0000_0000);
    let d = abs_int(b@);
    let q = n / d;
    assert(q * d <= n && n < (q + 1) * d) by (nonlinear_arith)
        requires
            d > 0,
            n >= 0,
            q == n / d,
    ;
    assert(q >= 0) by (nonlinear_arith)
        requires
            d > 0,
            n >= 0,
            q == n / d,
    ;
    assert(abs_int(quot_toward_zero(a@ * 0x1_0000_0000, b@)) == q);
}

/// Multiplying a raw value by the scalar two doubles it exactly.
pub proof fn lemma_mul_bits_two(a: int)
    ensures
        mul_bits(a, 0x2_0000_0000) == 2 * a,
{
    assert((a * 0x2_0000_0000) / 0x1_0000_0000 == 2 * a) by (nonlinear_arith);
}

/// Dividing an even raw value by the scalar two halves it exactly.
pub proof fn lemma_div_bits_two(a: int)
    requires
        a % 2 == 0,
    ensures
        div_bits(a, 0x2_0000_0000) == a / 2,
{
    let h = a / 2;
    assert(a == 2 * h);
    assert(abs_int(a * 0x1_0000_0000) == abs_int(h) * 0x2_0000_0000);
    assert((abs_int(h) * 0x2_0000_0000) / 0x2_0000_0000 == abs_int(h)) by (nonlinear_arith);
}

/// A signed fixed-point number with 32 integer and 32 fractional bits.
///
/// Equality, ordering and hashing are those of the raw bits, which represent
/// each value exactly once and in numeric order.
#[derive(Clone, Copy, Debug, Default, Hash, PartialEq, Eq, PartialOrd, Ord, Structural)]
pub struct SignedFractional {
    /// The raw representation: the value times `2^32`.
    pub bits: i64,
}

impl View for SignedFractional {
    type V = int;

    open spec fn view(&self) -> int {
        self.bits as int
    }
}

/// Relies on `FixedI64::checked_add`: the sum of the raw bits, or `None` when
/// it leaves the range of `i64`.
#[verifier::external_body]
fn checked_add_bits(a: i64, b: i64) -> (r: Option<i64>)
    ensures
        r == (if fits_i64(a + b) {
            Some((a + b) as i64)
        } else {
            None
        }),
{
    I32F32::from_bits(a).checked_add(I32F32::from_bits(b)).map(I32F32::to_bits)
}

/// Relies on `FixedI64::checked_sub`: the difference of the raw bits, or
/// `None` when it leaves the range of `i64`.
#[verifier::external_body]
fn checked_sub_bits(a: i64, b: i64) -> (r: Option<i64>)
    ensures
        r == (if fits_i64(a - b) {
            Some((a - b) as i64)
        } else {
            None
        }),
{
    I32F32::from_bits(a).checked_sub(I32F32::from_bits(b)).map(I32F32::to_bits)
}

/// Relies on `FixedI64::checked_neg`: the negated raw bits, or `None` for the
/// minimum.
#[verifier::external_body]
fn checked_neg_bits(a: i64) -> (r: Option<i64>)
    ensures
        r == (if fits_i64(-a) {
            Some((-a) as i64)
        } else {
            None
        }),
{
    I32F32::from_bits(a).checked_neg().map(I32F32::to_bits)
}

/// Relies on `FixedI64::checked_mul` with 32 fractional bits: the product of
/// the raw bits is formed in 128 bits, shifted right by 32 (rounding toward
/// negative infinity), and `None` comes when that does not fit in `i64`.
#[verifier::external_body]
fn checked_mul_bits(a: i64, b: i64) -> (r: Option<i64>)
    ensures
        r == (if fits_i64(mul_bits(a as int, b as int)) {
            Some(mul_bits(a as int, b as int) as i64)
        } else {
            None
        }),
{
    I32F32::from_bits(a).checked_mul(I32F32::from_bits(b)).map(I32F32::to_bits)
}

/// Relies on `FixedI64::checked_div` with 32 fractional bits: the dividend is
/// shifted left by 32 in 128 bits and divided rounding toward zero; `None`
/// comes for a zero divisor or a quotient that does not fit in `i64`.
#[verifier::external_body]
fn checked_div_bits(a: i64, b: i64) -> (r: Option<i64>)
    ensures
        r == (if b != 0 && fits_i64(div_bits(a as int, b as int)) {
            Some(div_bits(a as int, b as int) as i64)
        } else {
            None
        }),
{
    I32F32::from_bits(a).checked_div(I32F32::from_bits(b)).map(I32F32::to_bits)
}

/// Relies on `fixed_sqrt::FastSqrt::fast_sqrt` for `I32F32`: on a value that
/// is not negative it takes the integer square root of the raw bits and shifts
/// it left by 16.
#[verifier::external_body]
fn fast_sqrt_bits(v: i64) -> (r: i64)
    requires
        v >= 0,
    ensures
        r % 0x1_0000 == 0,
        is_isqrt(r / 0x1_0000, v as int),
{
    I32F32::from_bits(v).fast_sqrt().to_bits()
}

impl SignedFractional {
    /// The scalar zero.
    pub fn zero() -> (r: SignedFractional)
        ensures
            r@ == 0,
    {
        SignedFractional { bits: 0 }
    }

    /// The scalar one.
    pub fn one() -> (r: SignedFractional)
        ensures
            r@ == one_bits(),
    {
        SignedFractional { bits: 0x1_0000_0000 }
    }

    /// The scalar whose raw representation is `bits`.
    pub fn from_bits(bits: i64) -> (r: SignedFractional)
        ensures
            r.bits == bits,
    {
        SignedFractional { bits }
    }

    /// The raw representation of this scalar.
    pub fn to_bits(self) -> (r: i64)
        ensures
            r == self.bits,
    {
        self.bits
    }

    /// The square root, with 16 correct fractional bits (rounded down).
    ///
    /// The value must not be negative.
    pub fn sqrt(self) -> (r: SignedFractional)
        requires
            self@ >= 0,
        ensures
            r@ == sqrt_bits(self@),
            is_isqrt(isqrt(self@), self@),
    {
        let bits = fast_sqrt_bits(self.bits);
        proof {
            lemma_isqrt_is(bits / 0x1_0000, self@);
        }
        SignedFractional { bits }
    }
}

impl core::ops::Neg for SignedFractional {
    type Output = SignedFractional;

    fn neg(self) -> (r: SignedFractional) {
        SignedFractional { bits: checked_neg_bits(self.bits).unwrap() }
    }
}

impl vstd::std_specs::ops::NegSpecImpl for SignedFractional {
    open spec fn obeys_neg_spec() -> bool {
        true
    }

    open spec fn neg_req(self) -> bool {
        fits_i64(-self@)
    }

    open spec fn neg_spec(self) -> SignedFractional {
        SignedFractional { bits: (-self@) as i64 }
    }
}

impl core::ops::Add for SignedFractional {
    type Output = SignedFractional;

    fn add(self, rhs: SignedFractional) -> (r: SignedFractional) {
        SignedFractional { bits: checked_add_bits(self.bits, rhs.bits).unwrap() }
    }
}

impl vstd::std_specs::ops::AddSpecImpl for SignedFractional {
    open spec fn obeys_add_spec() -> bool {
        true
    }

    open spec fn add_req(self, rhs: SignedFractional) -> bool {
        fits_i64(self@ + rhs@)
    }

    open spec fn add_spec(self, rhs: SignedFractional) -> SignedFractional {
        SignedFractional { bits: (self@ + rhs@) as i64 }
    }
}

impl core::ops::Sub for SignedFractional {
    type Output = SignedFractional;

    fn sub(self, rhs: SignedFractional) -> (r: SignedFractional) {
        SignedFractional { bits: checked_sub_bits(self.bits, rhs.bits).unwrap() }
    }
}

impl vstd::std_specs::ops::SubSpecImpl for SignedFractional {
    open spec fn obeys_sub_spec() -> bool {
        true
    }

    open spec fn sub_req(self, rhs: SignedFractional) -> bool {
        fits_i64(self@ - rhs@)
    }

    open spec fn sub_spec(self, rhs: SignedFractional) -> SignedFractional {
        SignedFractional { bits: (self@ - rhs@) as i64 }
    }
}

impl core::ops::Mul for SignedFractional {
    type Output = SignedFractional;

    fn mul(self, rhs: SignedFractional) -> (r: SignedFractional) {
        SignedFractional { bits: checked_mul_bits(self.bits, rhs.bits).unwrap() }
    }
}

impl vstd::std_specs::ops::MulSpecImpl for SignedFractional {
    open spec fn obeys_mul_spec() -> bool {
        true
    }

    open spec fn mul_req(self, rhs: SignedFractional) -> bool {
        fits_i64(mul_bits(self@, rhs@))
    }

    open spec fn mul_spec(self, rhs: SignedFractional) -> SignedFractional {
        SignedFractional { bits: mul_bits(self@, rhs@) as i64 }
    }
}

impl core::ops::Div for SignedFractional {
    type Output = SignedFractional;

    fn div(self, rhs: SignedFractional) -> (r: SignedFractional) {
        SignedFractional { bits: checked_div_bits(self.bits, rhs.bits).unwrap() }
    }
}

impl vstd::std_specs::ops::DivSpecImpl for SignedFractional {
    open spec fn obeys_div_spec() -> bool {
        true
    }

    open spec fn div_req(self, rhs: SignedFractional) -> bool {
        rhs@ != 0 && fits_i64(div_bits(self@, rhs@))
    }

    open spec fn div_spec(self, rhs: SignedFractional) -> SignedFractional {
        SignedFractional { bits: div_bits(self@, rhs@) as i64 }
    }
}

impl From<i32> for SignedFractional {
    fn from(n: i32) -> (r: SignedFractional) {
        SignedFractional { bits: (n as i64) * 0x1_0000_0000 }
    }
}

impl vstd::std_specs::convert::FromSpecImpl<i32> for SignedFractional {
    open spec fn obeys_from_spec() -> bool {
        true
    }

    open spec fn from_spec(n: i32) -> SignedFractional {
        SignedFractional { bits: (n * one_bits()) as i64 }
    }
}

} // verus!
