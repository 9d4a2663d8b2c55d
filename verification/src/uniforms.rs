//! The packed shader parameter block: its fields, its byte-level layout,
//! and the shader mode tags.
//!
//! A block is appended to the frame's uniform buffer as 44 little-endian
//! 32-bit words in declaration order, padded with zero bytes up to the
//! GPU's uniform-block stride, so that every block starts at a
//! stride-aligned offset.

use vstd::prelude::*;

use vstd::bytes::spec_u32_to_le_bytes;
use vstd::bytes::u32_to_le_bytes;

use crate::float32::FP32_NEG_ONE;
use crate::float32::FP32_ONE;
use crate::float32::FP32_ZERO;
use crate::types::Color;
use crate::types::Transform;

verus! {

/// The size in bytes of one packed parameter block, before stride padding.
pub const FRAG_UNIFORM_BYTES: usize = 176;

/// A column-major 3x4 matrix of binary32 bit patterns, the form in which
/// the shader receives an affine transform.
#[derive(Debug, Clone, Copy, PartialEq, Eq, Structural)]
pub struct Mat3x4 {
    pub m0: u32,
    pub m1: u32,
    pub m2: u32,
    pub m3: u32,
    pub m4: u32,
    pub m5: u32,
    pub m6: u32,
    pub m7: u32,
    pub m8: u32,
    pub m9: u32,
    pub m10: u32,
    pub m11: u32,
}

/// The 3x4 matrix holding a 2-D affine transform: each 2-entry column is
/// widened with zeros, and the last column's third entry is one.
pub open spec fn spec_xform_to_3x4(t: Transform) -> Mat3x4 {
    Mat3x4 {
        m0: t.m0,
        m1: t.m1,
        m2: FP32_ZERO,
        m3: FP32_ZERO,
        m4: t.m2,
        m5: t.m3,
        m6: FP32_ZERO,
        m7: FP32_ZERO,
        m8: t.m4,
        m9: t.m5,
        m10: FP32_ONE,
        m11: FP32_ZERO,
    }
}

/// Exec counterpart of `spec_xform_to_3x4`.
pub fn xform_to_3x4(t: &Transform) -> (r: Mat3x4)
    ensures
        r == spec_xform_to_3x4(*t),
{
    Mat3x4 {
        m0: t.m0,
        m1: t.m1,
        m2: FP32_ZERO,
        m3: FP32_ZERO,
        m4: t.m2,
        m5: t.m3,
        m6: FP32_ZERO,
        m7: FP32_ZERO,
        m8: t.m4,
        m9: t.m5,
        m10: FP32_ONE,
        m11: FP32_ZERO,
    }
}

/// The all-zero matrix.
pub open spec fn spec_mat3x4_zero() -> Mat3x4 {
    Mat3x4 {
        m0: FP32_ZERO,
        m1: FP32_ZERO,
        m2: FP32_ZERO,
        m3: FP32_ZERO,
        m4: FP32_ZERO,
        m5: FP32_ZERO,
        m6: FP32_ZERO,
        m7: FP32_ZERO,
        m8: FP32_ZERO,
        m9: FP32_ZERO,
        m10: FP32_ZERO,
        m11: FP32_ZERO,
    }
}

/// Exec counterpart of `spec_mat3x4_zero`.
pub fn mat3x4_zero() -> (r: Mat3x4)
    ensures
        r == spec_mat3x4_zero(),
{
    Mat3x4 {
        m0: FP32_ZERO,
        m1: FP32_ZERO,
        m2: FP32_ZERO,
        m3: FP32_ZERO,
        m4: FP32_ZERO,
        m5: FP32_ZERO,
        m6: FP32_ZERO,
        m7: FP32_ZERO,
        m8: FP32_ZERO,
        m9: FP32_ZERO,
        m10: FP32_ZERO,
        m11: FP32_ZERO,
    }
}

/// The fragment shader's mode tag, stored in a parameter block to select
/// its code path.
#[derive(Debug, Clone, Copy, PartialEq, Eq, Structural)]
pub enum ShaderType {
    FillGradient,
    FillImage,
    Simple,
    Image,
}

/// The numeric tag a shader mode is stored as.
pub open spec fn spec_shader_type_value(s: ShaderType) -> u32 {
    match s {
        ShaderType::FillGradient => 0,
        ShaderType::FillImage => 1,
        ShaderType::Simple => 2,
        ShaderType::Image => 3,
    }
}

impl ShaderType {
    pub fn value(self) -> (r: u32)
        ensures
            r == spec_shader_type_value(self),
    {
        match self {
            ShaderType::FillGradient => 0,
            ShaderType::FillImage => 1,
            ShaderType::Simple => 2,
            ShaderType::Image => 3,
        }
    }
}

/// One shader parameter block.  Matrices, colors and scalar parameters are
/// binary32 bit patterns; the two tags are small integers.
#[derive(Debug, Clone, Copy, PartialEq, Eq, Structural)]
pub struct FragUniforms {
    pub scissor_mat: Mat3x4,
    pub paint_mat: Mat3x4,
    pub inner_color: Color,
    pub outer_color: Color,
    pub scissor_ext_x: u32,
    pub scissor_ext_y: u32,
    pub scissor_scale_x: u32,
    pub scissor_scale_y: u32,
    pub extent_x: u32,
    pub extent_y: u32,
    pub radius: u32,
    pub feather: u32,
    pub stroke_mult: u32,
    pub stroke_thr: u32,
    pub tex_type: u32,
    pub shader_type: u32,
}

/// The block whose fields are all zero.
pub open spec fn spec_frag_zero() -> FragUniforms {
    FragUniforms {
        scissor_mat: spec_mat3x4_zero(),
        paint_mat: spec_mat3x4_zero(),
        inner_color: Color { r: FP32_ZERO, g: FP32_ZERO, b: FP32_ZERO, a: FP32_ZERO },
        outer_color: Color { r: FP32_ZERO, g: FP32_ZERO, b: FP32_ZERO, a: FP32_ZERO },
        scissor_ext_x: FP32_ZERO,
        scissor_ext_y: FP32_ZERO,
        scissor_scale_x: FP32_ZERO,
        scissor_scale_y: FP32_ZERO,
        extent_x: FP32_ZERO,
        extent_y: FP32_ZERO,
        radius: FP32_ZERO,
        feather: FP32_ZERO,
        stroke_mult: FP32_ZERO,
        stroke_thr: FP32_ZERO,
        tex_type: 0,
        shader_type: 0,
    }
}

/// The block used by a stencil-only pass: all zero but for a `-1.0`
/// stroke threshold and the `Simple` mode tag.  Color writes are disabled
/// while it is bound, so nothing else matters beyond the tag.
pub open spec fn spec_frag_simple() -> FragUniforms {
    FragUniforms {
        stroke_thr: FP32_NEG_ONE,
        shader_type: spec_shader_type_value(ShaderType::Simple),
        ..spec_frag_zero()
    }
}

/// Exec counterpart of `spec_frag_simple`.
pub fn frag_simple() -> (r: FragUniforms)
    ensures
        r == spec_frag_simple(),
{
    FragUniforms {
        scissor_mat: mat3x4_zero(),
        paint_mat: mat3x4_zero(),
        inner_color: Color { r: FP32_ZERO, g: FP32_ZERO, b: FP32_ZERO, a: FP32_ZERO },
        outer_color: Color { r: FP32_ZERO, g: FP32_ZERO, b: FP32_ZERO, a: FP32_ZERO },
        scissor_ext_x: FP32_ZERO,
        scissor_ext_y: FP32_ZERO,
        scissor_scale_x: FP32_ZERO,
        scissor_scale_y: FP32_ZERO,
        extent_x: FP32_ZERO,
        extent_y: FP32_ZERO,
        radius: FP32_ZERO,
        feather: FP32_ZERO,
        stroke_mult: FP32_ZERO,
        stroke_thr: FP32_NEG_ONE,
        tex_type: 0,
        shader_type: ShaderType::Simple.value(),
    }
}

/// The 44 words of a block, in the order they are stored.
pub open spec fn spec_frag_words(f: FragUniforms) -> Seq<u32> {
    seq![
        f.scissor_mat.m0,
        f.scissor_mat.m1,
        f.scissor_mat.m2,
        f.scissor_mat.m3,
        f.scissor_mat.m4,
        f.scissor_mat.m5,
        f.scissor_mat.m6,
        f.scissor_mat.m7,
        f.scissor_mat.m8,
        f.scissor_mat.m9,
        f.scissor_mat.m10,
        f.scissor_mat.m11,
        f.paint_mat.m0,
        f.paint_mat.m1,
        f.paint_mat.m2,
        f.paint_mat.m3,
        f.paint_mat.m4,
        f.paint_mat.m5,
        f.paint_mat.m6,
        f.paint_mat.m7,
        f.paint_mat.m8,
        f.paint_mat.m9,
        f.paint_mat.m10,
        f.paint_mat.m11,
        f.inner_color.r,
        f.inner_color.g,
        f.inner_color.b,
        f.inner_color.a,
        f.outer_color.r,
        f.outer_color.g,
        f.outer_color.b,
        f.outer_color.a,
        f.scissor_ext_x,
        f.scissor_ext_y,
        f.scissor_scale_x,
        f.scissor_scale_y,
        f.extent_x,
        f.extent_y,
        f.radius,
        f.feather,
        f.stroke_mult,
        f.stroke_thr,
        f.tex_type,
        f.shader_type,
    ]
}

/// A word sequence flattened to little-endian bytes.
pub open spec fn spec_le_bytes(words: Seq<u32>) -> Seq<u8>
    decreases words.len(),
{
    if words.len() == 0 {
        Seq::empty()
    } else {
        spec_u32_to_le_bytes(words[0]) + spec_le_bytes(words.drop_first())
    }
}

/// The packed byte image of a block.
pub open spec fn spec_frag_bytes(f: FragUniforms) -> Seq<u8> {
    spec_le_bytes(spec_frag_words(f))
}

pub proof fn lemma_le_bytes_len(words: Seq<u32>)
    ensures
        spec_le_bytes(words).len() == 4 * words.len(),
    decreases words.len(),
{
    vstd::bytes::lemma_auto_spec_u32_to_from_le_bytes();
    if words.len() > 0 {
        lemma_le_bytes_len(words.drop_first());
    }
}

/// A packed block is exactly `FRAG_UNIFORM_BYTES` bytes.
pub proof fn lemma_frag_bytes_len(f: FragUniforms)
    ensures
        spec_frag_bytes(f).len() == FRAG_UNIFORM_BYTES,
{
    lemma_le_bytes_len(spec_frag_words(f));
}

/// Appends the words' little-endian bytes to `dst`.
pub fn append_words_le(dst: &mut Vec<u8>, words: &Vec<u32>)
    ensures
        final(dst)@ == old(dst)@ + spec_le_bytes(words@),
{
    let n = words.len();
    let mut i: usize = 0;
    assert(words@.skip(0) =~= words@);
    while i < n
        invariant
            i <= n,
            n == words@.len(),
            old(dst)@ + spec_le_bytes(words@) == dst@ + spec_le_bytes(words@.skip(i as int)),
        decreases n - i,
    {
        assert(words@.skip(i as int).drop_first() =~= words@.skip(i + 1));
        assert(spec_le_bytes(words@.skip(i as int)) == spec_u32_to_le_bytes(words@[i as int])
            + spec_le_bytes(words@.skip(i + 1)));
        let mut bytes = u32_to_le_bytes(words[i]);
        dst.append(&mut bytes);
        i = i + 1;
        assert(old(dst)@ + spec_le_bytes(words@) =~= dst@ + spec_le_bytes(words@.skip(i as int)));
    }
    assert(spec_le_bytes(words@.skip(n as int)) =~= Seq::<u8>::empty());
    assert(dst@ =~= old(dst)@ + spec_le_bytes(words@));
}

/// Packs a block into its 44 words, in storage order.
#[verifier::rlimit(60)]
pub fn frag_words(f: &FragUniforms) -> (r: Vec<u32>)
    ensures
        r@ == spec_frag_words(*f),
{
    let mut w: Vec<u32> = Vec::with_capacity(44);
    w.push(f.scissor_mat.m0);
    w.push(f.scissor_mat.m1);
    w.push(f.scissor_mat.m2);
    w.push(f.scissor_mat.m3);
    w.push(f.scissor_mat.m4);
    w.push(f.scissor_mat.m5);
    w.push(f.scissor_mat.m6);
    w.push(f.scissor_mat.m7);
    w.push(f.scissor_mat.m8);
    w.push(f.scissor_mat.m9);
    w.push(f.scissor_mat.m10);
    w.push(f.scissor_mat.m11);
    w.push(f.paint_mat.m0);
    w.push(f.paint_mat.m1);
    w.push(f.paint_mat.m2);
    w.push(f.paint_mat.m3);
    w.push(f.paint_mat.m4);
    w.push(f.paint_mat.m5);
    w.push(f.paint_mat.m6);
    w.push(f.paint_mat.m7);
    w.push(f.paint_mat.m8);
    w.push(f.paint_mat.m9);
    w.push(f.paint_mat.m10);
    w.push(f.paint_mat.m11);
    w.push(f.inner_color.r);
    w.push(f.inner_color.g);
    w.push(f.inner_color.b);
    w.push(f.inner_color.a);
    w.push(f.outer_color.r);
    w.push(f.outer_color.g);
    w.push(f.outer_color.b);
    w.push(f.outer_color.a);
    w.push(f.scissor_ext_x);
    w.push(f.scissor_ext_y);
    w.push(f.scissor_scale_x);
    w.push(f.scissor_scale_y);
    w.push(f.extent_x);
    w.push(f.extent_y);
    w.push(f.radius);
    w.push(f.feather);
    w.push(f.stroke_mult);
    w.push(f.stroke_thr);
    w.push(f.tex_type);
    w.push(f.shader_type);
    assert(w@ =~= spec_frag_words(*f));
    w
}

} // verus!
