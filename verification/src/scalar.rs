//! Scalar arithmetic on IEEE-754 bit patterns.
//!
//! Every real-valued quantity in this crate is carried as the bit pattern of
//! an IEEE-754 binary64 value inside a `u64` (binary32 inside a `u32`).
//! Arithmetic on such values goes through trusted wrappers around the
//! standard library's operations; each wrapper pins its result to an
//! uninterpreted spec function of the operand bits, so verified code can
//! reason exactly about which composition of operations produced a value
//! without restating their numerics.
//!
//! Sign tests, equality and negation need no trust: they are pure bit
//! manipulations fixed by the IEEE-754 encoding and are implemented and
//! verified here directly.

use vstd::prelude::*;

verus! {

// ---------------------------------------------------------------------------
// Bit-pattern constants (binary64).
// ---------------------------------------------------------------------------

/// Bit pattern of the binary64 value 0.0.
pub const ZERO_BITS: u64 = 0x0000_0000_0000_0000;

/// Bit pattern of the binary64 value 0.5.
pub const HALF_BITS: u64 = 0x3FE0_0000_0000_0000;

/// Bit pattern of the binary64 value 1.0.
pub const ONE_BITS: u64 = 0x3FF0_0000_0000_0000;

/// Bit pattern of the binary64 value 2.0.
pub const TWO_BITS: u64 = 0x4000_0000_0000_0000;

/// Bit pattern of the binary64 value 5.0.
pub const FIVE_BITS: u64 = 0x4014_0000_0000_0000;

/// Bit pattern of the binary64 value -1.0.
pub const NEG_ONE_BITS: u64 = 0xBFF0_0000_0000_0000;

/// Bit pattern of the binary64 value closest to pi.
pub const PI_BITS: u64 = 0x4009_21FB_5444_2D18;

// ---------------------------------------------------------------------------
// Bit-pattern constants (binary32).
// ---------------------------------------------------------------------------

/// Bit pattern of the binary32 value 0.0.
pub const ZERO_BITS_32: u32 = 0x0000_0000;

/// Bit pattern of the binary32 value closest to pi.
pub const PI_BITS_32: u32 = 0x4049_0FDB;

/// Bit pattern of the binary32 value 40.0.
pub const FORTY_BITS_32: u32 = 0x4220_0000;

/// Bit pattern of the binary32 value -1.0.
pub const NEG_ONE_BITS_32: u32 = 0xBF80_0000;

// ---------------------------------------------------------------------------
// Verified bit-level predicates and operations.
//
// The IEEE-754 encoding fixes these exactly: a binary64 value is a NaN when
// its exponent field is all ones and its significand is not zero; it denotes
// zero (of either sign) when all bits but the sign are zero; two values
// compare equal exactly when neither is a NaN and they are either
// bit-identical or both zeros; negation flips the sign bit.
// ---------------------------------------------------------------------------

/// The bit pattern `a` encodes a binary64 NaN.
pub open spec fn is_nan_bits(a: u64) -> bool {
    (a >> 52) & 0x7FF == 0x7FF && a & 0x000F_FFFF_FFFF_FFFF != 0
}

/// The bit pattern `a` encodes binary64 zero (of either sign).
pub open spec fn is_zero_bits(a: u64) -> bool {
    a & 0x7FFF_FFFF_FFFF_FFFF == 0
}

/// IEEE-754 equality of the binary64 values encoded by `a` and `b`.
pub open spec fn eq_bits(a: u64, b: u64) -> bool {
    !is_nan_bits(a) && !is_nan_bits(b) && (a == b || (is_zero_bits(a) && is_zero_bits(b)))
}

/// Bit pattern of the negation of the binary64 value encoded by `a`.
pub open spec fn neg_bits(a: u64) -> u64 {
    a ^ 0x8000_0000_0000_0000
}

/// The bit pattern `a` encodes a binary32 NaN.
pub open spec fn is_nan_bits_32(a: u32) -> bool {
    (a >> 23) & 0xFF == 0xFF && a & 0x007F_FFFF != 0
}

/// The binary32 value encoded by `a` is less than or equal to 0.0
/// (false for NaN, true for either zero).
pub open spec fn le_zero_bits_32(a: u32) -> bool {
    a & 0x7FFF_FFFF == 0 || (a >> 31 == 1 && !is_nan_bits_32(a))
}

/// Bit pattern of the negation of the binary32 value encoded by `a`.
pub open spec fn neg_bits_32(a: u32) -> u32 {
    a ^ 0x8000_0000
}

/// Tests whether `a` encodes binary64 zero, which is exactly the condition
/// under which the encoded value compares equal to 0.0.
pub fn real_is_zero(a: u64) -> (r: bool)
    ensures
        r == is_zero_bits(a),
{
    a & 0x7FFF_FFFF_FFFF_FFFF == 0
}

/// IEEE-754 equality on binary64 bit patterns.
pub fn real_eq(a: u64, b: u64) -> (r: bool)
    ensures
        r == eq_bits(a, b),
{
    let a_nan: bool = (a >> 52) & 0x7FF == 0x7FF && a & 0x000F_FFFF_FFFF_FFFF != 0;
    let b_nan: bool = (b >> 52) & 0x7FF == 0x7FF && b & 0x000F_FFFF_FFFF_FFFF != 0;
    let both_zero: bool = a & 0x7FFF_FFFF_FFFF_FFFF == 0 && b & 0x7FFF_FFFF_FFFF_FFFF == 0;
    !a_nan && !b_nan && (a == b || both_zero)
}

/// Negation of a binary64 bit pattern (sign-bit flip).
pub fn real_neg(a: u64) -> (r: u64)
    ensures
        r == neg_bits(a),
{
    a ^ 0x8000_0000_0000_0000
}

/// Tests whether the binary32 value encoded by `a` is less than or equal
/// to 0.0.
pub fn single_le_zero(a: u32) -> (r: bool)
    ensures
        r == le_zero_bits_32(a),
{
    let nan: bool = (a >> 23) & 0xFF == 0xFF && a & 0x007F_FFFF != 0;
    a & 0x7FFF_FFFF == 0 || (a >> 31 == 1 && !nan)
}

/// Negation of a binary32 bit pattern (sign-bit flip).
pub fn single_neg(a: u32) -> (r: u32)
    ensures
        r == neg_bits_32(a),
{
    a ^ 0x8000_0000
}

// ---------------------------------------------------------------------------
// Named results of the standard library's binary64 operations.
//
// Each operation below is deterministic: its result depends on the operand
// bit patterns alone. The spec functions name those results; the trusted
// wrappers state that the standard library's operation returns them.
// ---------------------------------------------------------------------------

/// Bit pattern of the binary64 sum of the values encoded by `a` and `b`.
pub uninterp spec fn add_bits(a: u64, b: u64) -> u64;

/// Bit pattern of the binary64 difference of the values encoded by `a` and `b`.
pub uninterp spec fn sub_bits(a: u64, b: u64) -> u64;

/// Bit pattern of the binary64 product of the values encoded by `a` and `b`.
pub uninterp spec fn mul_bits(a: u64, b: u64) -> u64;

/// Bit pattern of the binary64 quotient of the values encoded by `a` and `b`.
pub uninterp spec fn div_bits(a: u64, b: u64) -> u64;

/// Bit pattern of the binary64 square root of the value encoded by `a`.
pub uninterp spec fn sqrt_bits(a: u64) -> u64;

/// Bit pattern of the binary64 sine of the value encoded by `a`.
pub uninterp spec fn sin_bits(a: u64) -> u64;

/// Bit pattern of the binary64 cosine of the value encoded by `a`.
pub uninterp spec fn cos_bits(a: u64) -> u64;

/// Bit pattern of the binary64 arcsine of the value encoded by `a`.
pub uninterp spec fn asin_bits(a: u64) -> u64;

/// Bit pattern of the binary64 four-quadrant arctangent of the values
/// encoded by `y` and `x`.
pub uninterp spec fn atan2_bits(y: u64, x: u64) -> u64;

/// Bit pattern of the fractional part of the binary64 value encoded by `a`.
pub uninterp spec fn fract_bits(a: u64) -> u64;

/// Bit pattern of the binary64 value nearest to the integer `n`.
pub uninterp spec fn of_usize_bits(n: usize) -> u64;

/// Bit pattern of the binary64 value obtained by widening the binary32
/// value encoded by `a` (widening is exact).
pub uninterp spec fn widen_bits(a: u32) -> u64;

/// Bit pattern of the binary32 value nearest to the binary64 value encoded
/// by `a`.
pub uninterp spec fn narrow_bits(a: u64) -> u32;

/// Bit pattern of the binary32 sum of the values encoded by `a` and `b`.
pub uninterp spec fn add_bits_32(a: u32, b: u32) -> u32;

/// Bit pattern of the binary32 product of the values encoded by `a` and `b`.
pub uninterp spec fn mul_bits_32(a: u32, b: u32) -> u32;

/// Bit pattern of the binary32 quotient of the values encoded by `a` and `b`.
pub uninterp spec fn div_bits_32(a: u32, b: u32) -> u32;

/// Bit pattern of the binary32 value nearest to the integer `n`.
pub uninterp spec fn of_u32_bits_32(n: u32) -> u32;

// ---------------------------------------------------------------------------
// Trusted wrappers. Bit patterns are converted to values and back through
// `bytemuck::cast` and a `glam` vector lane, and the named operation is the
// only computation each body performs.
// ---------------------------------------------------------------------------

/// Relies on the standard library's binary64 addition.
#[verifier::external_body]
pub(crate) fn real_add(a: u64, b: u64) -> (r: u64)
    ensures
        r == add_bits(a, b),
{
    (glam::DVec3::splat(bytemuck::cast(a)).x + glam::DVec3::splat(bytemuck::cast(b)).x).to_bits()
}

/// Relies on the standard library's binary64 subtraction.
#[verifier::external_body]
pub(crate) fn real_sub(a: u64, b: u64) -> (r: u64)
    ensures
        r == sub_bits(a, b),
{
    (glam::DVec3::splat(bytemuck::cast(a)).x - glam::DVec3::splat(bytemuck::cast(b)).x).to_bits()
}

/// Relies on the standard library's binary64 multiplication.
#[verifier::external_body]
pub(crate) fn real_mul(a: u64, b: u64) -> (r: u64)
    ensures
        r == mul_bits(a, b),
{
    (glam::DVec3::splat(bytemuck::cast(a)).x * glam::DVec3::splat(bytemuck::cast(b)).x).to_bits()
}

/// Relies on the standard library's binary64 division. IEEE-754 division
/// is total: a zero divisor yields an infinity or a NaN, never a panic.
#[verifier::external_body]
pub(crate) fn real_div(a: u64, b: u64) -> (r: u64)
    ensures
        r == div_bits(a, b),
{
    (glam::DVec3::splat(bytemuck::cast(a)).x / glam::DVec3::splat(bytemuck::cast(b)).x).to_bits()
}

/// Relies on the standard library's `sqrt` on binary64 values.
#[verifier::external_body]
pub(crate) fn real_sqrt(a: u64) -> (r: u64)
    ensures
        r == sqrt_bits(a),
{
    glam::DVec3::splat(bytemuck::cast(a)).x.sqrt().to_bits()
}

/// Relies on the standard library's `sin` on binary64 values.
#[verifier::external_body]
pub(crate) fn real_sin(a: u64) -> (r: u64)
    ensures
        r == sin_bits(a),
{
    glam::DVec3::splat(bytemuck::cast(a)).x.sin().to_bits()
}

/// Relies on the standard library's `cos` on binary64 values.
#[verifier::external_body]
pub(crate) fn real_cos(a: u64) -> (r: u64)
    ensures
        r == cos_bits(a),
{
    glam::DVec3::splat(bytemuck::cast(a)).x.cos().to_bits()
}

/// Relies on the standard library's `asin` on binary64 values.
#[verifier::external_body]
pub(crate) fn real_asin(a: u64) -> (r: u64)
    ensures
        r == asin_bits(a),
{
    glam::DVec3::splat(bytemuck::cast(a)).x.asin().to_bits()
}

/// Relies on the standard library's `atan2` on binary64 values
/// (`y.atan2(x)`).
#[verifier::external_body]
pub(crate) fn real_atan2(y: u64, x: u64) -> (r: u64)
    ensures
        r == atan2_bits(y, x),
{
    glam::DVec3::splat(bytemuck::cast(y)).x.atan2(glam::DVec3::splat(bytemuck::cast(x)).x).to_bits()
}

/// Relies on the standard library's `fract` on binary64 values.
#[verifier::external_body]
pub(crate) fn real_fract(a: u64) -> (r: u64)
    ensures
        r == fract_bits(a),
{
    glam::DVec3::splat(bytemuck::cast(a)).x.fract().to_bits()
}

/// Relies on `glam::U64Vec3::as_dvec3`, which converts each integer lane
/// to the nearest binary64 value.
#[verifier::external_body]
pub(crate) fn real_of_usize(n: usize) -> (r: u64)
    ensures
        r == of_usize_bits(n),
{
    glam::U64Vec3::splat(n as u64).as_dvec3().x.to_bits()
}

/// Relies on `glam::Vec3::as_dvec3`, which widens each binary32 lane to
/// binary64 (an exact conversion).
#[verifier::external_body]
pub(crate) fn real_of_single(a: u32) -> (r: u64)
    ensures
        r == widen_bits(a),
{
    glam::Vec3::splat(bytemuck::cast(a)).as_dvec3().x.to_bits()
}

/// Relies on `glam::DVec3::as_vec3`, which narrows each binary64 lane to
/// the nearest binary32 value.
#[verifier::external_body]
pub(crate) fn single_of_real(a: u64) -> (r: u32)
    ensures
        r == narrow_bits(a),
{
    glam::DVec3::splat(bytemuck::cast(a)).as_vec3().x.to_bits()
}

/// Relies on the standard library's binary32 addition.
#[verifier::external_body]
pub(crate) fn single_add(a: u32, b: u32) -> (r: u32)
    ensures
        r == add_bits_32(a, b),
{
    (glam::Vec3::splat(bytemuck::cast(a)).x + glam::Vec3::splat(bytemuck::cast(b)).x).to_bits()
}

/// Relies on the standard library's binary32 multiplication.
#[verifier::external_body]
pub(crate) fn single_mul(a: u32, b: u32) -> (r: u32)
    ensures
        r == mul_bits_32(a, b),
{
    (glam::Vec3::splat(bytemuck::cast(a)).x * glam::Vec3::splat(bytemuck::cast(b)).x).to_bits()
}

/// Relies on the standard library's binary32 division (total: a zero
/// divisor yields an infinity or a NaN, never a panic).
#[verifier::external_body]
pub(crate) fn single_div(a: u32, b: u32) -> (r: u32)
    ensures
        r == div_bits_32(a, b),
{
    (glam::Vec3::splat(bytemuck::cast(a)).x / glam::Vec3::splat(bytemuck::cast(b)).x).to_bits()
}

/// Relies on `glam::UVec3::as_vec3`, which converts each integer lane to
/// the nearest binary32 value.
#[verifier::external_body]
pub(crate) fn single_of_u32(n: u32) -> (r: u32)
    ensures
        r == of_u32_bits_32(n),
{
    glam::UVec3::splat(n).as_vec3().x.to_bits()
}

} // verus!
