//! The vector layer: a 3-dimensional vector of encoded IEEE-754 doubles,
//! with component-wise arithmetic, scalar and cross products, Euclidean
//! magnitude and guarded in-place normalization.
//!
//! Every operation is specified exactly, component by component, over the
//! scalar model: negation is a sign flip, subtraction adds the negated
//! operand, and the rounded operations appear through their names
//! `ieee_add`, `ieee_mul`, `ieee_div` and `ieee_sqrt`. The algebraic laws
//! of the type (commutativity, inverses, anti-commutativity of the cross
//! product, non-negativity of the magnitude, the normalization guard)
//! stand as further `ensures` clauses on the operations they govern.

use vstd::prelude::*;

use crate::scalar::{
    abs_bits, abs_of, add_bits, div_bits, flt_eq, flt_le, flt_lt, flt_sim, ieee_add, ieee_div,
    ieee_mul, ieee_sqrt, is_finite, is_nan, le_bits, lt_bits, mul_bits, neg_bits, neg_of, sign_of,
    sqrt_bits, ONE_BITS, TOLERANCE_BITS,
};

verus! {

/// A 3-dimensional vector. Each field holds the 64-bit encoding of an
/// IEEE-754 double-precision component. All bit patterns are valid
/// states; NaN and infinity propagate through the operations and are
/// never rejected. The type is a plain value: copies are independent.
#[derive(Clone, Copy, Debug, PartialEq, Eq, Structural)]
pub struct Vector3 {
    pub x: u64,
    pub y: u64,
    pub z: u64,
}

/// The zero vector: every component is `+0.0`.
pub open spec fn zero_spec() -> Vector3 {
    Vector3 { x: 0, y: 0, z: 0 }
}

/// Every component of `v` is finite.
pub open spec fn all_finite(v: Vector3) -> bool {
    is_finite(v.x) && is_finite(v.y) && is_finite(v.z)
}

/// No component of `v` is NaN.
pub open spec fn no_nan(v: Vector3) -> bool {
    !is_nan(v.x) && !is_nan(v.y) && !is_nan(v.z)
}

/// The components of `a` and `b` are equal as IEEE values (`-0.0` equals
/// `+0.0`; false as soon as a NaN is involved).
pub open spec fn vec_feq(a: Vector3, b: Vector3) -> bool {
    flt_eq(a.x, b.x) && flt_eq(a.y, b.y) && flt_eq(a.z, b.z)
}

/// The components of `a` and `b` are equal as IEEE values, or NaN on
/// both sides.
pub open spec fn vec_sim(a: Vector3, b: Vector3) -> bool {
    flt_sim(a.x, b.x) && flt_sim(a.y, b.y) && flt_sim(a.z, b.z)
}

/// The component-wise rounded sum of `a` and `b`.
pub open spec fn spec_add(a: Vector3, b: Vector3) -> Vector3 {
    Vector3 { x: ieee_add(a.x, b.x), y: ieee_add(a.y, b.y), z: ieee_add(a.z, b.z) }
}

/// The component-wise rounded difference of `a` and `b`: each component
/// of `b` is negated exactly, then added.
pub open spec fn spec_sub(a: Vector3, b: Vector3) -> Vector3 {
    Vector3 {
        x: ieee_add(a.x, neg_of(b.x)),
        y: ieee_add(a.y, neg_of(b.y)),
        z: ieee_add(a.z, neg_of(b.z)),
    }
}

/// The component-wise rounded product of `v` with the scalar `s`.
pub open spec fn spec_scale(v: Vector3, s: u64) -> Vector3 {
    Vector3 { x: ieee_mul(v.x, s), y: ieee_mul(v.y, s), z: ieee_mul(v.z, s) }
}

/// The component-wise rounded quotient of `v` by the scalar `s`.
pub open spec fn spec_div_scalar(v: Vector3, s: u64) -> Vector3 {
    Vector3 { x: ieee_div(v.x, s), y: ieee_div(v.y, s), z: ieee_div(v.z, s) }
}

/// The exact component-wise negation of `v`.
pub open spec fn spec_neg(v: Vector3) -> Vector3 {
    Vector3 { x: neg_of(v.x), y: neg_of(v.y), z: neg_of(v.z) }
}

/// The cross product of `a` and `b` by the standard formula
/// `(a.y b.z - a.z b.y, a.z b.x - a.x b.z, a.x b.y - a.y b.x)`,
/// each difference taken as a rounded sum with the exactly negated
/// second product.
pub open spec fn spec_cross(a: Vector3, b: Vector3) -> Vector3 {
    Vector3 {
        x: ieee_add(ieee_mul(a.y, b.z), neg_of(ieee_mul(a.z, b.y))),
        y: ieee_add(ieee_mul(a.z, b.x), neg_of(ieee_mul(a.x, b.z))),
        z: ieee_add(ieee_mul(a.x, b.y), neg_of(ieee_mul(a.y, b.x))),
    }
}

/// The scalar product of `a` and `b`: the three component products,
/// summed left to right.
pub open spec fn spec_dot(a: Vector3, b: Vector3) -> u64 {
    ieee_add(ieee_add(ieee_mul(a.x, b.x), ieee_mul(a.y, b.y)), ieee_mul(a.z, b.z))
}

/// The Euclidean magnitude of `v`: the rounded square root of the sum
/// of the squared components, summed left to right.
pub open spec fn spec_magnitude(v: Vector3) -> u64 {
    ieee_sqrt(
        ieee_add(ieee_add(ieee_mul(v.x, v.x), ieee_mul(v.y, v.y)), ieee_mul(v.z, v.z)),
    )
}

/// A component whose absolute value is below the tolerance is snapped to
/// exactly `+0.0`; anything else is kept.
pub open spec fn snap_small(c: u64) -> u64 {
    if flt_lt(abs_of(c), TOLERANCE_BITS) {
        0
    } else {
        c
    }
}

/// Normalization: components are divided by the magnitude, with the
/// magnitude replaced by `1.0` when it does not exceed the tolerance
/// (so a zero or near-zero vector is not blown up to NaN or infinity),
/// and near-zero quotients are snapped to `+0.0` afterwards.
pub open spec fn spec_normalize(v: Vector3) -> Vector3 {
    let m0 = spec_magnitude(v);
    let m = if flt_le(m0, TOLERANCE_BITS) {
        ONE_BITS
    } else {
        m0
    };
    Vector3 {
        x: snap_small(ieee_div(v.x, m)),
        y: snap_small(ieee_div(v.y, m)),
        z: snap_small(ieee_div(v.z, m)),
    }
}

/// Snap a scalar to `+0.0` when its absolute value is below the
/// tolerance.
fn snap_bits(c: u64) -> (r: u64)
    ensures
        r == snap_small(c),
{
    if lt_bits(abs_bits(c), TOLERANCE_BITS) {
        0
    } else {
        c
    }
}

impl Vector3 {
    /// The zero vector.
    pub fn zero() -> (r: Vector3)
        ensures
            r == zero_spec(),
    {
        Vector3 { x: 0, y: 0, z: 0 }
    }

    /// A vector with the given encoded components, accepted as they are.
    pub fn from_components(x: u64, y: u64, z: u64) -> (r: Vector3)
        ensures
            r.x == x,
            r.y == y,
            r.z == z,
    {
        Vector3 { x, y, z }
    }

    /// An independent duplicate with identical components.
    pub fn copy(&self) -> (r: Vector3)
        ensures
            r == *self,
    {
        Vector3 { x: self.x, y: self.y, z: self.z }
    }

    /// The component-wise sum.
    ///
    /// Laws: without NaN components the sum does not depend on the
    /// operand order; adding the zero vector returns `self` up to the
    /// sign of zero; adding the negation of a finite `self` gives the
    /// zero vector exactly.
    pub fn add(&self, rhs: &Vector3) -> (r: Vector3)
        ensures
            r == spec_add(*self, *rhs),
            no_nan(*self) && no_nan(*rhs) ==> r == spec_add(*rhs, *self),
            *rhs == zero_spec() && no_nan(*self) ==> vec_feq(r, *self),
            all_finite(*self) && *rhs == spec_neg(*self) ==> r == zero_spec(),
    {
        Vector3 {
            x: add_bits(self.x, rhs.x),
            y: add_bits(self.y, rhs.y),
            z: add_bits(self.z, rhs.z),
        }
    }

    /// Replace `self` with the component-wise sum of `self` and `rhs`.
    pub fn add_in_place(&mut self, rhs: &Vector3)
        ensures
            *final(self) == spec_add(*old(self), *rhs),
    {
        self.x = add_bits(self.x, rhs.x);
        self.y = add_bits(self.y, rhs.y);
        self.z = add_bits(self.z, rhs.z);
    }

    /// The component-wise difference.
    pub fn subtract(&self, rhs: &Vector3) -> (r: Vector3)
        ensures
            r == spec_sub(*self, *rhs),
    {
        Vector3 {
            x: add_bits(self.x, neg_bits(rhs.x)),
            y: add_bits(self.y, neg_bits(rhs.y)),
            z: add_bits(self.z, neg_bits(rhs.z)),
        }
    }

    /// Replace `self` with the component-wise difference of `self` and
    /// `rhs`.
    pub fn subtract_in_place(&mut self, rhs: &Vector3)
        ensures
            *final(self) == spec_sub(*old(self), *rhs),
    {
        self.x = add_bits(self.x, neg_bits(rhs.x));
        self.y = add_bits(self.y, neg_bits(rhs.y));
        self.z = add_bits(self.z, neg_bits(rhs.z));
    }

    /// The component-wise product with the scalar `s`. A non-finite `s`
    /// is not guarded against; the result is whatever the rounded
    /// arithmetic yields.
    pub fn scale(&self, s: u64) -> (r: Vector3)
        ensures
            r == spec_scale(*self, s),
    {
        Vector3 { x: mul_bits(self.x, s), y: mul_bits(self.y, s), z: mul_bits(self.z, s) }
    }

    /// Replace `self` with its component-wise product with the scalar
    /// `s`.
    pub fn scale_in_place(&mut self, s: u64)
        ensures
            *final(self) == spec_scale(*old(self), s),
    {
        self.x = mul_bits(self.x, s);
        self.y = mul_bits(self.y, s);
        self.z = mul_bits(self.z, s);
    }

    /// The component-wise quotient by the scalar `s`. Division by zero
    /// is not trapped: it yields infinities or NaN as the rounded
    /// arithmetic prescribes.
    pub fn divide_by_scalar(&self, s: u64) -> (r: Vector3)
        ensures
            r == spec_div_scalar(*self, s),
    {
        Vector3 { x: div_bits(self.x, s), y: div_bits(self.y, s), z: div_bits(self.z, s) }
    }

    /// Replace `self` with its component-wise quotient by the scalar
    /// `s`.
    pub fn divide_by_scalar_in_place(&mut self, s: u64)
        ensures
            *final(self) == spec_div_scalar(*old(self), s),
    {
        self.x = div_bits(self.x, s);
        self.y = div_bits(self.y, s);
        self.z = div_bits(self.z, s);
    }

    /// A new vector with every component sign-flipped. Exact: no
    /// rounding is involved, and `self` is not changed.
    pub fn negate(&self) -> (r: Vector3)
        ensures
            r == spec_neg(*self),
    {
        Vector3 { x: neg_bits(self.x), y: neg_bits(self.y), z: neg_bits(self.z) }
    }

    /// Flip the sign of every component of `self` in place.
    pub fn reverse_in_place(&mut self)
        ensures
            *final(self) == spec_neg(*old(self)),
    {
        self.x = neg_bits(self.x);
        self.y = neg_bits(self.y);
        self.z = neg_bits(self.z);
    }

    /// The vector cross product, by the standard formula; its magnitude
    /// vanishes exactly when the operands are parallel.
    ///
    /// Law: for finite operands the cross product is anti-commutative:
    /// swapping the operands negates every component, up to the sign of
    /// zero and with invalid components NaN on both sides.
    pub fn cross(&self, rhs: &Vector3) -> (r: Vector3)
        ensures
            r == spec_cross(*self, *rhs),
            all_finite(*self) && all_finite(*rhs) ==> vec_sim(
                r,
                spec_neg(spec_cross(*rhs, *self)),
            ),
    {
        let rx = add_bits(mul_bits(self.y, rhs.z), neg_bits(mul_bits(self.z, rhs.y)));
        let ry = add_bits(mul_bits(self.z, rhs.x), neg_bits(mul_bits(self.x, rhs.z)));
        let rz = add_bits(mul_bits(self.x, rhs.y), neg_bits(mul_bits(self.y, rhs.x)));
        Vector3 { x: rx, y: ry, z: rz }
    }

    /// The scalar (inner) product: the full three-term sum of the
    /// component products.
    ///
    /// Law: without NaN components the scalar product does not depend on
    /// the operand order.
    pub fn dot(&self, rhs: &Vector3) -> (r: u64)
        ensures
            r == spec_dot(*self, *rhs),
            no_nan(*self) && no_nan(*rhs) ==> r == spec_dot(*rhs, *self),
    {
        let tx = mul_bits(self.x, rhs.x);
        let ty = mul_bits(self.y, rhs.y);
        let tz = mul_bits(self.z, rhs.z);
        add_bits(add_bits(tx, ty), tz)
    }

    /// The Euclidean magnitude, `sqrt(x^2 + y^2 + z^2)`. Pure: `self` is
    /// not changed.
    ///
    /// Laws: for a finite vector the magnitude is non-negative and never
    /// NaN; the magnitude of the zero vector is exactly `+0.0`.
    pub fn magnitude(&self) -> (r: u64)
        ensures
            r == spec_magnitude(*self),
            all_finite(*self) ==> !sign_of(r) && !is_nan(r) && flt_le(0, r),
            *self == zero_spec() ==> r == 0,
    {
        let sx = mul_bits(self.x, self.x);
        let sy = mul_bits(self.y, self.y);
        let sz = mul_bits(self.z, self.z);
        sqrt_bits(add_bits(add_bits(sx, sy), sz))
    }

    /// Normalize `self` in place: divide every component by the
    /// magnitude, substituting `1.0` for a magnitude that does not
    /// exceed the tolerance, and snap near-zero quotients to `+0.0`.
    ///
    /// Law: the zero vector is left unchanged — the guard keeps it from
    /// turning into NaN.
    pub fn normalize_in_place(&mut self)
        ensures
            *final(self) == spec_normalize(*old(self)),
            *old(self) == zero_spec() ==> *final(self) == zero_spec(),
    {
        let mut m = self.magnitude();
        if le_bits(m, TOLERANCE_BITS) {
            m = ONE_BITS;
        }
        self.x = snap_bits(div_bits(self.x, m));
        self.y = snap_bits(div_bits(self.y, m));
        self.z = snap_bits(div_bits(self.z, m));
    }
}

/// The component-wise sum of two vectors, as a free function.
pub fn add(a: Vector3, b: Vector3) -> (r: Vector3)
    ensures
        r == spec_add(a, b),
{
    a.add(&b)
}

} // verus!
