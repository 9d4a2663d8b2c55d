//! Recorded draw calls and the explicit GPU command model.
//!
//! The graphics API underneath is a global state machine; here every state
//! transition the executor relies on is an explicit `GpuOp` value.  The
//! call executor plans a sequence of these, and an unverified adapter
//! replays the sequence against the real context.  The spec functions
//! below give, per call kind, the exact planned sequence.

use vstd::prelude::*;

use crate::texture::Texture;
use crate::types::Blend;
use crate::types::Extent;
use crate::types::ImageId;

verus! {

/// The four draw-call kinds of the batching model.
#[derive(Debug, Clone, Copy, PartialEq, Eq, Structural)]
pub enum CallType {
    Fill,
    ConvexFill,
    Stroke,
    Triangles,
}

/// One recorded GPU draw operation: its kind, texture, ranges into the
/// frame's path and vertex buffers, its uniform block index, and its
/// blend factors.
#[derive(Debug, Clone, Copy, PartialEq, Eq, Structural)]
pub struct Call {
    pub call_type: CallType,
    pub image: Option<ImageId>,
    pub path_offset: usize,
    pub path_count: usize,
    pub triangle_offset: usize,
    pub triangle_count: usize,
    pub uniform_offset: usize,
    pub blend_func: Blend,
}

/// One path's ranges into the frame vertex buffer: the fill fan and the
/// antialiasing stroke strip.
#[derive(Debug, Clone, Copy, PartialEq, Eq, Structural)]
pub struct GLPath {
    pub fill_offset: usize,
    pub fill_count: usize,
    pub stroke_offset: usize,
    pub stroke_count: usize,
}

/// A stencil comparison function.
#[derive(Debug, Clone, Copy, PartialEq, Eq, Structural)]
pub enum CmpFunc {
    Always,
    Equal,
    NotEqual,
}

/// A stencil update action.
#[derive(Debug, Clone, Copy, PartialEq, Eq, Structural)]
pub enum StencilAction {
    Keep,
    Zero,
    Incr,
    IncrWrap,
    DecrWrap,
}

/// The faces a stencil action applies to.
#[derive(Debug, Clone, Copy, PartialEq, Eq, Structural)]
pub enum Face {
    Front,
    Back,
    FrontAndBack,
}

/// A rasterizer primitive mode.
#[derive(Debug, Clone, Copy, PartialEq, Eq, Structural)]
pub enum DrawKind {
    TriangleFan,
    TriangleStrip,
    Triangles,
}

/// One explicit GPU state transition or draw.  `Draw` carries a primitive
/// mode and a vertex range (offset, count) into the frame's vertex
/// buffer; `BindUniformRange` carries a uniform block index;
/// `BindTexture(None)` unbinds.
#[derive(Debug, Clone, Copy, PartialEq, Eq, Structural)]
pub enum GpuOp {
    BindProgram,
    SetBaselineState,
    UploadUniformBuffer,
    UploadVertexBuffer,
    SetViewUniform(Extent),
    SetBlend(Blend),
    EnableStencil,
    DisableStencil,
    StencilMask(u32),
    StencilFunc(CmpFunc, u32, u32),
    StencilOp(Face, StencilAction, StencilAction, StencilAction),
    ColorMask(bool),
    EnableCull,
    DisableCull,
    BindUniformRange(usize),
    BindTexture(Option<ImageId>),
    Draw(DrawKind, usize, usize),
    ResetState,
}

/// The ops that bind a call's uniform block and texture: the block index
/// is always bound; a present handle binds its texture if live (a stale
/// handle binds nothing), and an absent handle unbinds.
pub open spec fn spec_set_uniforms_ops(
    m: Map<int, Texture>,
    offset: usize,
    image: Option<ImageId>,
) -> Seq<GpuOp> {
    seq![GpuOp::BindUniformRange(offset)] + match image {
        Some(img) => if m.dom().contains(img as int) {
            seq![GpuOp::BindTexture(Some(img))]
        } else {
            Seq::empty()
        },
        None => seq![GpuOp::BindTexture(None)],
    }
}

/// One triangle-fan draw of each path's fill range, in order.
pub open spec fn spec_fan_draws(paths: Seq<GLPath>) -> Seq<GpuOp>
    decreases paths.len(),
{
    if paths.len() == 0 {
        Seq::empty()
    } else {
        seq![GpuOp::Draw(DrawKind::TriangleFan, paths[0].fill_offset, paths[0].fill_count)]
            + spec_fan_draws(paths.drop_first())
    }
}

/// One triangle-strip draw of each path's stroke range, in order.
pub open spec fn spec_strip_draws(paths: Seq<GLPath>) -> Seq<GpuOp>
    decreases paths.len(),
{
    if paths.len() == 0 {
        Seq::empty()
    } else {
        seq![GpuOp::Draw(DrawKind::TriangleStrip, paths[0].stroke_offset, paths[0].stroke_count)]
            + spec_strip_draws(paths.drop_first())
    }
}

/// Per path: its fill fan, then its fringe strip when one is present.
pub open spec fn spec_convex_draws(paths: Seq<GLPath>) -> Seq<GpuOp>
    decreases paths.len(),
{
    if paths.len() == 0 {
        Seq::empty()
    } else {
        seq![GpuOp::Draw(DrawKind::TriangleFan, paths[0].fill_offset, paths[0].fill_count)]
            + (if paths[0].stroke_count > 0 {
            seq![
                GpuOp::Draw(DrawKind::TriangleStrip, paths[0].stroke_offset, paths[0].stroke_count),
            ]
        } else {
            Seq::empty()
        }) + spec_convex_draws(paths.drop_first())
    }
}

/// The general (possibly concave, possibly self-overlapping) fill
/// sequence.
///
/// With color writes disabled, the paths' fill fans accumulate a
/// per-pixel signed winding count in the stencil buffer
/// (increment-with-wrap on front faces, decrement-with-wrap on back
/// faces, culling off).  Color writes back on, the fringe strips are
/// drawn only where the count is zero, so edge pixels are never blended
/// twice; the bounding quad then covers every nonzero-count pixel with
/// the real paint and clears the stencil as a side effect.
pub open spec fn spec_fill_ops(m: Map<int, Texture>, paths: Seq<GLPath>, call: Call) -> Seq<GpuOp> {
    seq![
        GpuOp::EnableStencil,
        GpuOp::StencilMask(0xff),
        GpuOp::StencilFunc(CmpFunc::Always, 0, 0xff),
        GpuOp::ColorMask(false),
    ] + spec_set_uniforms_ops(m, call.uniform_offset, call.image) + seq![
        GpuOp::StencilOp(
            Face::Front,
            StencilAction::Keep,
            StencilAction::Keep,
            StencilAction::IncrWrap,
        ),
        GpuOp::StencilOp(
            Face::Back,
            StencilAction::Keep,
            StencilAction::Keep,
            StencilAction::DecrWrap,
        ),
        GpuOp::DisableCull,
    ] + spec_fan_draws(paths) + seq![GpuOp::EnableCull, GpuOp::ColorMask(true)]
        + spec_set_uniforms_ops(m, (call.uniform_offset + 1) as usize, call.image) + seq![
        GpuOp::StencilFunc(CmpFunc::Equal, 0, 0xff),
        GpuOp::StencilOp(
            Face::FrontAndBack,
            StencilAction::Keep,
            StencilAction::Keep,
            StencilAction::Keep,
        ),
    ] + spec_strip_draws(paths) + seq![
        GpuOp::StencilFunc(CmpFunc::NotEqual, 0, 0xff),
        GpuOp::StencilOp(
            Face::FrontAndBack,
            StencilAction::Zero,
            StencilAction::Zero,
            StencilAction::Zero,
        ),
        GpuOp::Draw(DrawKind::TriangleStrip, call.triangle_offset, call.triangle_count),
        GpuOp::DisableStencil,
    ]
}

/// The convex fast path: no stencil, each fill fan and fringe strip is
/// drawn directly with the single uniform block.
pub open spec fn spec_convex_fill_ops(
    m: Map<int, Texture>,
    paths: Seq<GLPath>,
    call: Call,
) -> Seq<GpuOp> {
    spec_set_uniforms_ops(m, call.uniform_offset, call.image) + spec_convex_draws(paths)
}

/// The three-pass stroke sequence that never double-blends
/// self-overlapping strips: pass one draws with the near-opaque block and
/// marks touched pixels (increment on zero), pass two redraws with the
/// edge block where still untouched, pass three redraws with color
/// writes off to clear the stencil.
pub open spec fn spec_stroke_ops(
    m: Map<int, Texture>,
    paths: Seq<GLPath>,
    call: Call,
) -> Seq<GpuOp> {
    seq![
        GpuOp::EnableStencil,
        GpuOp::StencilMask(0xff),
        GpuOp::StencilFunc(CmpFunc::Equal, 0, 0xff),
        GpuOp::StencilOp(
            Face::FrontAndBack,
            StencilAction::Keep,
            StencilAction::Keep,
            StencilAction::Incr,
        ),
    ] + spec_set_uniforms_ops(m, (call.uniform_offset + 1) as usize, call.image)
        + spec_strip_draws(paths) + spec_set_uniforms_ops(m, call.uniform_offset, call.image)
        + seq![
        GpuOp::StencilFunc(CmpFunc::Equal, 0, 0xff),
        GpuOp::StencilOp(
            Face::FrontAndBack,
            StencilAction::Keep,
            StencilAction::Keep,
            StencilAction::Keep,
        ),
    ] + spec_strip_draws(paths) + seq![
        GpuOp::ColorMask(false),
        GpuOp::StencilFunc(CmpFunc::Always, 0, 0xff),
        GpuOp::StencilOp(
            Face::FrontAndBack,
            StencilAction::Zero,
            StencilAction::Zero,
            StencilAction::Zero,
        ),
    ] + spec_strip_draws(paths) + seq![GpuOp::ColorMask(true), GpuOp::DisableStencil]
}

/// The raw triangle-list blit: bind and draw.
pub open spec fn spec_triangles_ops(m: Map<int, Texture>, call: Call) -> Seq<GpuOp> {
    spec_set_uniforms_ops(m, call.uniform_offset, call.image) + seq![
        GpuOp::Draw(DrawKind::Triangles, call.triangle_offset, call.triangle_count),
    ]
}

/// One call's full sequence: its blend factors, then its kind's ops over
/// the paths in its range.
pub open spec fn spec_call_ops(m: Map<int, Texture>, paths: Seq<GLPath>, call: Call) -> Seq<GpuOp> {
    seq![GpuOp::SetBlend(call.blend_func)] + match call.call_type {
        CallType::Fill => spec_fill_ops(m, paths, call),
        CallType::ConvexFill => spec_convex_fill_ops(m, paths, call),
        CallType::Stroke => spec_stroke_ops(m, paths, call),
        CallType::Triangles => spec_triangles_ops(m, call),
    }
}

} // verus!
