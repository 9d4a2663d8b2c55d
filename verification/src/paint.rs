//! The paint converter: a pure function from a paint, a scissor, a stroke
//! width and the antialiasing fringe width to one shader parameter block.

use vstd::prelude::*;

use crate::float32::FP32_HALF;
use crate::float32::FP32_NEG_HALF;
use crate::float32::FP32_NEG_ONE;
use crate::float32::FP32_ONE;
use crate::float32::FP32_ZERO;
use crate::float32::fadd;
use crate::float32::fdiv;
use crate::float32::flt;
use crate::float32::fmul;
use crate::float32::fp_add;
use crate::float32::fp_div;
use crate::float32::fp_lt;
use crate::float32::fp_mul;
use crate::float32::fp_sqrt;
use crate::float32::fsqrt;
use crate::texture::Texture;
use crate::texture::TextureTable;
use crate::texture::spec_lookup;
use crate::types::Color;
use crate::types::IMAGE_FLIPY;
use crate::types::IMAGE_PREMULTIPLIED;
use crate::types::Paint;
use crate::types::Scissor;
use crate::types::TextureType;
use crate::types::Transform;
use crate::types::contains_flag;
use crate::types::has_flag;
use crate::uniforms::FragUniforms;
use crate::uniforms::Mat3x4;
use crate::uniforms::ShaderType;
use crate::uniforms::mat3x4_zero;
use crate::uniforms::spec_mat3x4_zero;
use crate::uniforms::spec_shader_type_value;
use crate::uniforms::spec_xform_to_3x4;
use crate::uniforms::xform_to_3x4;
use crate::xform::spec_identity;
use crate::xform::spec_inverse;
use crate::xform::spec_multiply;
use crate::xform::spec_scale;
use crate::xform::spec_translate;

verus! {

/// A color premultiplied by its alpha: the RGB channels are scaled by
/// `a`, the alpha channel is kept.
pub open spec fn spec_premul_color(c: Color) -> Color {
    Color { r: fp_mul(c.r, c.a), g: fp_mul(c.g, c.a), b: fp_mul(c.b, c.a), a: c.a }
}

/// Exec counterpart of `spec_premul_color`.
pub fn premul_color(c: Color) -> (r: Color)
    ensures
        r == spec_premul_color(c),
{
    Color { r: fmul(c.r, c.a), g: fmul(c.g, c.a), b: fmul(c.b, c.a), a: c.a }
}

/// Whether the scissor is the no-clip sentinel: either extent dimension
/// below `-0.5`.
pub open spec fn spec_no_scissor(s: Scissor) -> bool {
    fp_lt(s.extent.width, FP32_NEG_HALF) || fp_lt(s.extent.height, FP32_NEG_HALF)
}

/// The stroke multiplier `(width*0.5 + fringe*0.5) / fringe`, the unit of
/// the shader's distance-based antialiasing.
pub open spec fn spec_stroke_mult(width: u32, fringe: u32) -> u32 {
    fp_div(fp_add(fp_mul(width, FP32_HALF), fp_mul(fringe, FP32_HALF)), fringe)
}

/// The scissor-space antialiasing scale along x: the magnitude of the
/// transform's first column vector divided by the fringe width.
pub open spec fn spec_scissor_scale_x(t: Transform, fringe: u32) -> u32 {
    fp_div(fp_sqrt(fp_add(fp_mul(t.m0, t.m0), fp_mul(t.m2, t.m2))), fringe)
}

/// The scissor-space antialiasing scale along y: the magnitude of the
/// transform's second column vector divided by the fringe width.
pub open spec fn spec_scissor_scale_y(t: Transform, fringe: u32) -> u32 {
    fp_div(fp_sqrt(fp_add(fp_mul(t.m1, t.m1), fp_mul(t.m3, t.m3))), fringe)
}

/// The paint transform of a vertically flipped image pattern: the paint
/// transform conjugated with a flip about the pattern's horizontal
/// center line.
pub open spec fn spec_flip_compose(paint_xform: Transform, extent_y: u32) -> Transform {
    let m1 = spec_multiply(spec_translate(FP32_ZERO, fp_mul(extent_y, FP32_HALF)), paint_xform);
    let m2 = spec_multiply(spec_scale(FP32_ONE, FP32_NEG_ONE), m1);
    spec_multiply(spec_translate(FP32_ZERO, fp_mul(extent_y, FP32_NEG_HALF)), m2)
}

/// The sampling tag of a texture: premultiplied RGBA, straight RGBA, or
/// single-channel alpha.
pub open spec fn spec_tex_type(t: Texture) -> u32 {
    match t.texture_type {
        TextureType::RGBA => if has_flag(t.flags, IMAGE_PREMULTIPLIED) {
            0
        } else {
            1
        },
        TextureType::Alpha => 2,
    }
}

/// The parameter block that a paint and scissor convert to, given the
/// table the paint's image handle is resolved against.
///
/// A sentinel scissor yields pass-through scissor values; otherwise the
/// inverted scissor transform, its extent and the per-axis antialiasing
/// scales are stored.  An image paint samples its texture (with the
/// vertical-flip compensation when flagged); a paint whose image handle is
/// stale keeps the gradient tag and an identity paint transform; a plain
/// paint stores its gradient parameters.  Colors are stored premultiplied.
pub open spec fn spec_convert_paint(
    m: Map<int, Texture>,
    paint: Paint,
    scissor: Scissor,
    width: u32,
    fringe: u32,
    stroke_thr: u32,
) -> FragUniforms {
    let scissor_mat = if spec_no_scissor(scissor) {
        spec_mat3x4_zero()
    } else {
        spec_xform_to_3x4(spec_inverse(scissor.xform))
    };
    let scissor_ext_x = if spec_no_scissor(scissor) {
        FP32_ONE
    } else {
        scissor.extent.width
    };
    let scissor_ext_y = if spec_no_scissor(scissor) {
        FP32_ONE
    } else {
        scissor.extent.height
    };
    let scissor_scale_x = if spec_no_scissor(scissor) {
        FP32_ONE
    } else {
        spec_scissor_scale_x(scissor.xform, fringe)
    };
    let scissor_scale_y = if spec_no_scissor(scissor) {
        FP32_ONE
    } else {
        spec_scissor_scale_y(scissor.xform, fringe)
    };
    let paint_mat = spec_xform_to_3x4(spec_paint_inverse(m, paint));
    let radius = if paint.image is None {
        paint.radius
    } else {
        FP32_ZERO
    };
    let feather = if paint.image is None {
        paint.feather
    } else {
        FP32_ZERO
    };
    let tex_type = match paint.image {
        Some(img) => match spec_lookup(m, img as int) {
            Some(tex) => spec_tex_type(tex),
            None => 0,
        },
        None => 0,
    };
    let shader_type = match paint.image {
        Some(img) => if m.dom().contains(img as int) {
            spec_shader_type_value(ShaderType::FillImage)
        } else {
            spec_shader_type_value(ShaderType::FillGradient)
        },
        None => spec_shader_type_value(ShaderType::FillGradient),
    };
    FragUniforms {
        scissor_mat,
        paint_mat,
        inner_color: spec_premul_color(paint.inner_color),
        outer_color: spec_premul_color(paint.outer_color),
        scissor_ext_x,
        scissor_ext_y,
        scissor_scale_x,
        scissor_scale_y,
        extent_x: paint.extent.width,
        extent_y: paint.extent.height,
        radius,
        feather,
        stroke_mult: spec_stroke_mult(width, fringe),
        stroke_thr,
        tex_type,
        shader_type,
    }
}

/// The inverted paint transform a conversion stores: the plain inverse
/// for a gradient, the flip-compensated inverse for a flipped image
/// pattern, and the identity for a stale image handle.
pub open spec fn spec_paint_inverse(m: Map<int, Texture>, paint: Paint) -> Transform {
    match paint.image {
        Some(img) => match spec_lookup(m, img as int) {
            Some(tex) => if has_flag(tex.flags, IMAGE_FLIPY) {
                spec_inverse(spec_flip_compose(paint.xform, paint.extent.height))
            } else {
                spec_inverse(paint.xform)
            },
            None => spec_identity(),
        },
        None => spec_inverse(paint.xform),
    }
}

/// Converts a paint and scissor to the parameter block the shader reads,
/// resolving the paint's image handle against `textures`.
#[verifier::rlimit(60)]
pub fn convert_paint(
    textures: &TextureTable,
    paint: &Paint,
    scissor: &Scissor,
    width: u32,
    fringe: u32,
    stroke_thr: u32,
) -> (r: FragUniforms)
    ensures
        r == spec_convert_paint(textures.entries(), *paint, *scissor, width, fringe, stroke_thr),
{
    let no_scissor = flt(scissor.extent.width, FP32_NEG_HALF)
        || flt(scissor.extent.height, FP32_NEG_HALF);
    let scissor_mat: Mat3x4;
    let scissor_ext_x: u32;
    let scissor_ext_y: u32;
    let scissor_scale_x: u32;
    let scissor_scale_y: u32;
    if no_scissor {
        scissor_mat = mat3x4_zero();
        scissor_ext_x = FP32_ONE;
        scissor_ext_y = FP32_ONE;
        scissor_scale_x = FP32_ONE;
        scissor_scale_y = FP32_ONE;
    } else {
        scissor_mat = xform_to_3x4(&scissor.xform.inverse());
        scissor_ext_x = scissor.extent.width;
        scissor_ext_y = scissor.extent.height;
        scissor_scale_x = fdiv(
            fsqrt(fadd(fmul(scissor.xform.m0, scissor.xform.m0), fmul(scissor.xform.m2, scissor.xform.m2))),
            fringe,
        );
        scissor_scale_y = fdiv(
            fsqrt(fadd(fmul(scissor.xform.m1, scissor.xform.m1), fmul(scissor.xform.m3, scissor.xform.m3))),
            fringe,
        );
    }

    let invxform: Transform;
    let radius: u32;
    let feather: u32;
    let tex_type: u32;
    let shader_type: u32;
    match paint.image {
        Some(img) => {
            match textures.get(img) {
                Some(tex) => {
                    if contains_flag(tex.flags, IMAGE_FLIPY) {
                        let m1 = Transform::translate(
                            FP32_ZERO,
                            fmul(paint.extent.height, FP32_HALF),
                        ).multiply(&paint.xform);
                        let m2 = Transform::scale(FP32_ONE, FP32_NEG_ONE).multiply(&m1);
                        let m3 = Transform::translate(
                            FP32_ZERO,
                            fmul(paint.extent.height, FP32_NEG_HALF),
                        ).multiply(&m2);
                        invxform = m3.inverse();
                    } else {
                        invxform = paint.xform.inverse();
                    }
                    radius = FP32_ZERO;
                    feather = FP32_ZERO;
                    tex_type = match tex.texture_type {
                        TextureType::RGBA => {
                            if contains_flag(tex.flags, IMAGE_PREMULTIPLIED) {
                                0
                            } else {
                                1
                            }
                        },
                        TextureType::Alpha => 2,
                    };
                    shader_type = ShaderType::FillImage.value();
                },
                None => {
                    invxform = Transform::identity();
                    radius = FP32_ZERO;
                    feather = FP32_ZERO;
                    tex_type = 0;
                    shader_type = ShaderType::FillGradient.value();
                },
            }
        },
        None => {
            invxform = paint.xform.inverse();
            radius = paint.radius;
            feather = paint.feather;
            tex_type = 0;
            shader_type = ShaderType::FillGradient.value();
        },
    }

    FragUniforms {
        scissor_mat,
        paint_mat: xform_to_3x4(&invxform),
        inner_color: premul_color(paint.inner_color),
        outer_color: premul_color(paint.outer_color),
        scissor_ext_x,
        scissor_ext_y,
        scissor_scale_x,
        scissor_scale_y,
        extent_x: paint.extent.width,
        extent_y: paint.extent.height,
        radius,
        feather,
        stroke_mult: fdiv(fadd(fmul(width, FP32_HALF), fmul(fringe, FP32_HALF)), fringe),
        stroke_thr,
        tex_type,
        shader_type,
    }
}

/// A no-scissor sentinel always yields pass-through scissor values: both
/// the stored extent and the per-axis scale are `(1, 1)`, whatever
/// transform the scissor carries, so the shader's scissor test is always
/// satisfied.
pub proof fn lemma_no_scissor_passthrough(
    m: Map<int, Texture>,
    paint: Paint,
    scissor: Scissor,
    width: u32,
    fringe: u32,
    stroke_thr: u32,
)
    requires
        spec_no_scissor(scissor),
    ensures
        spec_convert_paint(m, paint, scissor, width, fringe, stroke_thr).scissor_ext_x
            == FP32_ONE,
        spec_convert_paint(m, paint, scissor, width, fringe, stroke_thr).scissor_ext_y
            == FP32_ONE,
        spec_convert_paint(m, paint, scissor, width, fringe, stroke_thr).scissor_scale_x
            == FP32_ONE,
        spec_convert_paint(m, paint, scissor, width, fringe, stroke_thr).scissor_scale_y
            == FP32_ONE,
{
}

/// Converting any paint stores both colors premultiplied: the RGB
/// channels are scaled by alpha, the alpha channel is kept.
pub proof fn lemma_colors_premultiplied(
    m: Map<int, Texture>,
    paint: Paint,
    scissor: Scissor,
    width: u32,
    fringe: u32,
    stroke_thr: u32,
)
    ensures
        spec_convert_paint(m, paint, scissor, width, fringe, stroke_thr).inner_color
            == spec_premul_color(paint.inner_color),
        spec_convert_paint(m, paint, scissor, width, fringe, stroke_thr).outer_color
            == spec_premul_color(paint.outer_color),
{
}

} // verus!
