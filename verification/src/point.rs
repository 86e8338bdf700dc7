//! The 3-component point/vector primitive.
//!
//! A `Point3` holds the IEEE-754 binary64 bit patterns of its three
//! coordinates. The componentwise vector operations are implemented here in
//! verified code on top of the trusted scalar layer, so each operation's
//! result is pinned exactly to a spec-level composition of the named scalar
//! operations.

use vstd::prelude::*;

use crate::scalar::{
    add_bits, div_bits, eq_bits, is_zero_bits, mul_bits, sqrt_bits, sub_bits, widen_bits,
    real_add, real_div, real_is_zero, real_mul, real_sqrt, real_sub, real_of_single,
};

verus! {

/// A point (or vector) in 3-space; each field is the bit pattern of a
/// binary64 coordinate.
#[derive(Clone, Copy, PartialEq, Eq, Structural, Debug)]
pub struct Point3 {
    pub x: u64,
    pub y: u64,
    pub z: u64,
}

impl Point3 {
    /// The origin (all coordinates 0.0).
    pub fn zero() -> (r: Point3)
        ensures
            r == (Point3 { x: crate::scalar::ZERO_BITS, y: crate::scalar::ZERO_BITS, z: crate::scalar::ZERO_BITS }),
    {
        Point3 { x: 0x0000_0000_0000_0000, y: 0x0000_0000_0000_0000, z: 0x0000_0000_0000_0000 }
    }
}

/// Componentwise sum of two points.
pub open spec fn pt_add(a: Point3, b: Point3) -> Point3 {
    Point3 { x: add_bits(a.x, b.x), y: add_bits(a.y, b.y), z: add_bits(a.z, b.z) }
}

/// Componentwise difference of two points.
pub open spec fn pt_sub(a: Point3, b: Point3) -> Point3 {
    Point3 { x: sub_bits(a.x, b.x), y: sub_bits(a.y, b.y), z: sub_bits(a.z, b.z) }
}

/// Componentwise product of a point with the scalar `s` on the right
/// (`v * s`: each component is `component * s`).
pub open spec fn pt_scale(a: Point3, s: u64) -> Point3 {
    Point3 { x: mul_bits(a.x, s), y: mul_bits(a.y, s), z: mul_bits(a.z, s) }
}

/// Componentwise product of a scalar with a point on the left
/// (`s * v`: each component is `s * component`).
pub open spec fn pt_scale_left(s: u64, a: Point3) -> Point3 {
    Point3 { x: mul_bits(s, a.x), y: mul_bits(s, a.y), z: mul_bits(s, a.z) }
}

/// Euclidean magnitude of a point: `sqrt(x*x + y*y + z*z)`.
pub open spec fn pt_norm(a: Point3) -> u64 {
    sqrt_bits(add_bits(add_bits(mul_bits(a.x, a.x), mul_bits(a.y, a.y)), mul_bits(a.z, a.z)))
}

/// IEEE-754 equality of two points, component by component. This is the
/// equality the wireframe extractor deduplicates by: bit-identical
/// coordinates are equal, the two zeros are equal, NaNs are equal to
/// nothing.
pub open spec fn pt_eq(a: Point3, b: Point3) -> bool {
    eq_bits(a.x, b.x) && eq_bits(a.y, b.y) && eq_bits(a.z, b.z)
}

/// The point `x` moved radially away from `base` by the binary32 amount
/// `shift_range`: `x + shift * (x - base) / |x - base|`. When the distance
/// is exactly zero the offset is left out (the point is returned unchanged)
/// so that no division by zero is performed.
pub open spec fn shift_point_spec(x: Point3, base: Point3, shift_range: u32) -> Point3 {
    let dist = pt_sub(x, base);
    let mag = pt_norm(dist);
    if is_zero_bits(mag) {
        x
    } else {
        let s = widen_bits(shift_range);
        Point3 {
            x: add_bits(x.x, mul_bits(s, div_bits(dist.x, mag))),
            y: add_bits(x.y, mul_bits(s, div_bits(dist.y, mag))),
            z: add_bits(x.z, mul_bits(s, div_bits(dist.z, mag))),
        }
    }
}

/// Componentwise sum of two points.
pub fn vadd(a: &Point3, b: &Point3) -> (r: Point3)
    ensures
        r == pt_add(*a, *b),
{
    Point3 { x: real_add(a.x, b.x), y: real_add(a.y, b.y), z: real_add(a.z, b.z) }
}

/// Componentwise difference of two points.
pub fn vsub(a: &Point3, b: &Point3) -> (r: Point3)
    ensures
        r == pt_sub(*a, *b),
{
    Point3 { x: real_sub(a.x, b.x), y: real_sub(a.y, b.y), z: real_sub(a.z, b.z) }
}

/// Componentwise product of a point with a scalar on the right.
pub fn vscale(a: &Point3, s: u64) -> (r: Point3)
    ensures
        r == pt_scale(*a, s),
{
    Point3 { x: real_mul(a.x, s), y: real_mul(a.y, s), z: real_mul(a.z, s) }
}

/// Componentwise product of a scalar with a point on the left.
pub fn vscale_left(s: u64, a: &Point3) -> (r: Point3)
    ensures
        r == pt_scale_left(s, *a),
{
    Point3 { x: real_mul(s, a.x), y: real_mul(s, a.y), z: real_mul(s, a.z) }
}

/// Euclidean magnitude of a point.
pub fn vnorm(a: &Point3) -> (r: u64)
    ensures
        r == pt_norm(*a),
{
    real_sqrt(real_add(real_add(real_mul(a.x, a.x), real_mul(a.y, a.y)), real_mul(a.z, a.z)))
}

/// IEEE-754 equality of two points.
pub fn point_eq(a: &Point3, b: &Point3) -> (r: bool)
    ensures
        r == pt_eq(*a, *b),
{
    crate::scalar::real_eq(a.x, b.x) && crate::scalar::real_eq(a.y, b.y)
        && crate::scalar::real_eq(a.z, b.z)
}

/// Moves `x` radially away from `base` by `shift_range` (a binary32
/// amount), guarding the zero-distance case.
pub fn shift_point_from(x: &Point3, base: &Point3, shift_range: u32) -> (r: Point3)
    ensures
        r == shift_point_spec(*x, *base, shift_range),
{
    let dist = vsub(x, base);
    let mag = vnorm(&dist);
    if real_is_zero(mag) {
        *x
    } else {
        let s = real_of_single(shift_range);
        let e = Point3 {
            x: real_div(dist.x, mag),
            y: real_div(dist.y, mag),
            z: real_div(dist.z, mag),
        };
        vadd(x, &vscale_left(s, &e))
    }
}

} // verus!
