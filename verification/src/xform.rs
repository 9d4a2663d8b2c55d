//! Affine transform algebra over binary32 bit patterns: identity,
//! translation, scaling, composition and inversion.
//!
//! Composition order follows the row-vector convention: `multiply(a, b)`
//! is the transform that applies `a` first, then `b`.

use vstd::prelude::*;

use crate::float32::FP32_INV_EPS;
use crate::float32::FP32_NEG_INV_EPS;
use crate::float32::FP32_ONE;
use crate::float32::FP32_ZERO;
use crate::float32::fadd;
use crate::float32::fdiv;
use crate::float32::flt;
use crate::float32::fmul;
use crate::float32::fneg;
use crate::float32::fp_add;
use crate::float32::fp_div;
use crate::float32::fp_lt;
use crate::float32::fp_mul;
use crate::float32::fp_neg;
use crate::float32::fp_sub;
use crate::float32::fsub;
use crate::types::Transform;

verus! {

/// The identity transform.
pub open spec fn spec_identity() -> Transform {
    Transform {
        m0: FP32_ONE,
        m1: FP32_ZERO,
        m2: FP32_ZERO,
        m3: FP32_ONE,
        m4: FP32_ZERO,
        m5: FP32_ZERO,
    }
}

/// A translation by `(x, y)`.
pub open spec fn spec_translate(x: u32, y: u32) -> Transform {
    Transform { m0: FP32_ONE, m1: FP32_ZERO, m2: FP32_ZERO, m3: FP32_ONE, m4: x, m5: y }
}

/// A scaling by `(x, y)`.
pub open spec fn spec_scale(x: u32, y: u32) -> Transform {
    Transform { m0: x, m1: FP32_ZERO, m2: FP32_ZERO, m3: y, m4: FP32_ZERO, m5: FP32_ZERO }
}

/// The composition that applies `a` first, then `b`.
pub open spec fn spec_multiply(a: Transform, b: Transform) -> Transform {
    Transform {
        m0: fp_add(fp_mul(a.m0, b.m0), fp_mul(a.m1, b.m2)),
        m1: fp_add(fp_mul(a.m0, b.m1), fp_mul(a.m1, b.m3)),
        m2: fp_add(fp_mul(a.m2, b.m0), fp_mul(a.m3, b.m2)),
        m3: fp_add(fp_mul(a.m2, b.m1), fp_mul(a.m3, b.m3)),
        m4: fp_add(fp_add(fp_mul(a.m4, b.m0), fp_mul(a.m5, b.m2)), b.m4),
        m5: fp_add(fp_add(fp_mul(a.m4, b.m1), fp_mul(a.m5, b.m3)), b.m5),
    }
}

/// The transform's determinant.
pub open spec fn spec_det(t: Transform) -> u32 {
    fp_sub(fp_mul(t.m0, t.m3), fp_mul(t.m2, t.m1))
}

/// Whether the determinant is far enough from zero to invert: outside the
/// open interval `(-1e-6, 1e-6)`.
pub open spec fn spec_invertible(t: Transform) -> bool {
    !(fp_lt(FP32_NEG_INV_EPS, spec_det(t)) && fp_lt(spec_det(t), FP32_INV_EPS))
}

/// The inverse transform, or the identity when the determinant is too
/// close to zero.
pub open spec fn spec_inverse(t: Transform) -> Transform {
    if !spec_invertible(t) {
        spec_identity()
    } else {
        let invdet = fp_div(FP32_ONE, spec_det(t));
        Transform {
            m0: fp_mul(t.m3, invdet),
            m1: fp_mul(fp_neg(t.m1), invdet),
            m2: fp_mul(fp_neg(t.m2), invdet),
            m3: fp_mul(t.m0, invdet),
            m4: fp_mul(fp_sub(fp_mul(t.m2, t.m5), fp_mul(t.m3, t.m4)), invdet),
            m5: fp_mul(fp_sub(fp_mul(t.m1, t.m4), fp_mul(t.m0, t.m5)), invdet),
        }
    }
}

impl Transform {
    pub fn identity() -> (r: Transform)
        ensures
            r == spec_identity(),
    {
        Transform {
            m0: FP32_ONE,
            m1: FP32_ZERO,
            m2: FP32_ZERO,
            m3: FP32_ONE,
            m4: FP32_ZERO,
            m5: FP32_ZERO,
        }
    }

    pub fn translate(x: u32, y: u32) -> (r: Transform)
        ensures
            r == spec_translate(x, y),
    {
        Transform { m0: FP32_ONE, m1: FP32_ZERO, m2: FP32_ZERO, m3: FP32_ONE, m4: x, m5: y }
    }

    pub fn scale(x: u32, y: u32) -> (r: Transform)
        ensures
            r == spec_scale(x, y),
    {
        Transform { m0: x, m1: FP32_ZERO, m2: FP32_ZERO, m3: y, m4: FP32_ZERO, m5: FP32_ZERO }
    }

    /// Applies `self` first, then `other`.
    pub fn multiply(&self, other: &Transform) -> (r: Transform)
        ensures
            r == spec_multiply(*self, *other),
    {
        Transform {
            m0: fadd(fmul(self.m0, other.m0), fmul(self.m1, other.m2)),
            m1: fadd(fmul(self.m0, other.m1), fmul(self.m1, other.m3)),
            m2: fadd(fmul(self.m2, other.m0), fmul(self.m3, other.m2)),
            m3: fadd(fmul(self.m2, other.m1), fmul(self.m3, other.m3)),
            m4: fadd(fadd(fmul(self.m4, other.m0), fmul(self.m5, other.m2)), other.m4),
            m5: fadd(fadd(fmul(self.m4, other.m1), fmul(self.m5, other.m3)), other.m5),
        }
    }

    /// The inverse transform, falling back to the identity when the
    /// determinant is within `1e-6` of zero.
    pub fn inverse(&self) -> (r: Transform)
        ensures
            r == spec_inverse(*self),
    {
        let det = fsub(fmul(self.m0, self.m3), fmul(self.m2, self.m1));
        if flt(FP32_NEG_INV_EPS, det) && flt(det, FP32_INV_EPS) {
            Transform::identity()
        } else {
            let invdet = fdiv(FP32_ONE, det);
            Transform {
                m0: fmul(self.m3, invdet),
                m1: fmul(fneg(self.m1), invdet),
                m2: fmul(fneg(self.m2), invdet),
                m3: fmul(self.m0, invdet),
                m4: fmul(fsub(fmul(self.m2, self.m5), fmul(self.m3, self.m4)), invdet),
                m5: fmul(fsub(fmul(self.m1, self.m4), fmul(self.m0, self.m5)), invdet),
            }
        }
    }
}

} // verus!
