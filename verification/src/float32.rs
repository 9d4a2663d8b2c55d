//! Scalar layer: IEEE-754 binary32 values travel through this crate as raw
//! bit patterns (`u32`).
//!
//! The recorder and the paint converter only move these values around and
//! combine them with the arithmetic below.  The arithmetic itself is
//! delegated to a software implementation of the IEEE-754 operations
//! (`const_soft_float`, a port of the `compiler_builtins`/`libm` routines),
//! and each operation's result is named by an uninterpreted spec function:
//! an IEEE-754 operation is a pure function of its operand bit patterns, the
//! same on every machine, so the names are well defined.  Contracts then
//! state data flow through the renderer exactly, as compositions of these
//! names.

use vstd::prelude::*;

verus! {

/// The bit pattern of `0.0f32`.
pub const FP32_ZERO: u32 = 0x0000_0000;
/// The bit pattern of `1.0f32`.
pub const FP32_ONE: u32 = 0x3f80_0000;
/// The bit pattern of `-1.0f32`.
pub const FP32_NEG_ONE: u32 = 0xbf80_0000;
/// The bit pattern of `0.5f32`.
pub const FP32_HALF: u32 = 0x3f00_0000;
/// The bit pattern of `-0.5f32`.
pub const FP32_NEG_HALF: u32 = 0xbf00_0000;
/// The bit pattern of `1.0e-6f32`, the determinant threshold below which a
/// transform counts as non-invertible.
pub const FP32_INV_EPS: u32 = 0x3586_37bd;
/// The bit pattern of `-1.0e-6f32`.
pub const FP32_NEG_INV_EPS: u32 = 0xb586_37bd;
/// The bit pattern of `1.0f32 - 0.5f32 / 255.0f32`, the near-opaque stroke
/// alpha threshold used by the stroke interior pass.
pub const FP32_STROKE_THR_FULL: u32 = 0x3f7f_7f7f;

/// The IEEE-754 binary32 sum of the two operand bit patterns.
pub uninterp spec fn fp_add(a: u32, b: u32) -> u32;

/// The IEEE-754 binary32 difference of the two operand bit patterns.
pub uninterp spec fn fp_sub(a: u32, b: u32) -> u32;

/// The IEEE-754 binary32 product of the two operand bit patterns.
pub uninterp spec fn fp_mul(a: u32, b: u32) -> u32;

/// The IEEE-754 binary32 quotient of the two operand bit patterns.
pub uninterp spec fn fp_div(a: u32, b: u32) -> u32;

/// The IEEE-754 binary32 square root of the operand bit pattern.
pub uninterp spec fn fp_sqrt(a: u32) -> u32;

/// Whether the first operand compares strictly less than the second under
/// the IEEE-754 ordering (false whenever either operand is a NaN).
pub uninterp spec fn fp_lt(a: u32, b: u32) -> bool;

/// IEEE-754 negation is exactly a flip of the sign bit.
pub open spec fn fp_neg(a: u32) -> u32 {
    a ^ 0x8000_0000
}

/// Relies on const_soft_float's SoftF32::add, the IEEE-754 binary32
/// addition routine ported from compiler_builtins; the sum depends on the
/// operand bit patterns alone.
#[verifier::external_body]
pub(crate) fn fadd(a: u32, b: u32) -> (r: u32)
    ensures
        r == fp_add(a, b),
{
    const_soft_float::soft_f32::SoftF32::from_bits(a)
        .add(const_soft_float::soft_f32::SoftF32::from_bits(b))
        .to_bits()
}

/// Relies on const_soft_float's SoftF32::sub, the IEEE-754 binary32
/// subtraction routine; the difference depends on the operand bit patterns
/// alone.
#[verifier::external_body]
pub(crate) fn fsub(a: u32, b: u32) -> (r: u32)
    ensures
        r == fp_sub(a, b),
{
    const_soft_float::soft_f32::SoftF32::from_bits(a)
        .sub(const_soft_float::soft_f32::SoftF32::from_bits(b))
        .to_bits()
}

/// Relies on const_soft_float's SoftF32::mul, the IEEE-754 binary32
/// multiplication routine ported from compiler_builtins; the product
/// depends on the operand bit patterns alone.
#[verifier::external_body]
pub(crate) fn fmul(a: u32, b: u32) -> (r: u32)
    ensures
        r == fp_mul(a, b),
{
    const_soft_float::soft_f32::SoftF32::from_bits(a)
        .mul(const_soft_float::soft_f32::SoftF32::from_bits(b))
        .to_bits()
}

/// Relies on const_soft_float's SoftF32::div, the IEEE-754 binary32
/// division routine ported from compiler_builtins; the quotient depends on
/// the operand bit patterns alone.
#[verifier::external_body]
pub(crate) fn fdiv(a: u32, b: u32) -> (r: u32)
    ensures
        r == fp_div(a, b),
{
    const_soft_float::soft_f32::SoftF32::from_bits(a)
        .div(const_soft_float::soft_f32::SoftF32::from_bits(b))
        .to_bits()
}

/// Relies on const_soft_float's SoftF32::sqrt, the IEEE-754 binary32 square
/// root routine ported from libm; the root depends on the operand bit
/// pattern alone.
#[verifier::external_body]
pub(crate) fn fsqrt(a: u32) -> (r: u32)
    ensures
        r == fp_sqrt(a),
{
    const_soft_float::soft_f32::SoftF32::from_bits(a).sqrt().to_bits()
}

/// Relies on const_soft_float's SoftF32::cmp, the IEEE-754 binary32
/// comparison routine ported from compiler_builtins: it orders two non-NaN
/// values and returns no ordering when either operand is a NaN, from the
/// operand bit patterns alone.
#[verifier::external_body]
pub(crate) fn flt(a: u32, b: u32) -> (r: bool)
    ensures
        r == fp_lt(a, b),
{
    matches!(
        const_soft_float::soft_f32::SoftF32::from_bits(a)
            .cmp(const_soft_float::soft_f32::SoftF32::from_bits(b)),
        Some(core::cmp::Ordering::Less)
    )
}

/// Flips the operand's sign bit, which is IEEE-754 negation.
pub fn fneg(a: u32) -> (r: u32)
    ensures
        r == fp_neg(a),
{
    a ^ 0x8000_0000
}

} // verus!
