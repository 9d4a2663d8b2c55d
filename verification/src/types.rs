//! Plain data records exchanged with the front-end: colors, transforms,
//! vertices, paint and scissor descriptors, and blend state.
//!
//! Every scalar that the GPU reads as a `float` is carried as its IEEE-754
//! binary32 bit pattern (`u32`); see `float32`.

use vstd::prelude::*;

verus! {

/// Identifies a texture slot in the texture table.
pub type ImageId = usize;

/// A non-premultiplied RGBA color; each channel is a binary32 bit pattern.
#[derive(Debug, Clone, Copy, PartialEq, Eq, Structural)]
pub struct Color {
    pub r: u32,
    pub g: u32,
    pub b: u32,
    pub a: u32,
}

/// A width/height pair of binary32 bit patterns.
#[derive(Debug, Clone, Copy, PartialEq, Eq, Structural)]
pub struct Extent {
    pub width: u32,
    pub height: u32,
}

/// A point; both coordinates are binary32 bit patterns.
#[derive(Debug, Clone, Copy, PartialEq, Eq, Structural)]
pub struct Point {
    pub x: u32,
    pub y: u32,
}

/// An axis-aligned rectangle given by two corners.
#[derive(Debug, Clone, Copy, PartialEq, Eq, Structural)]
pub struct Bounds {
    pub min: Point,
    pub max: Point,
}

/// A 2-D affine transform `[m0 m1 m2 m3 m4 m5]`: a point `(x, y)` maps to
/// `(m0*x + m2*y + m4, m1*x + m3*y + m5)`.  All six entries are binary32
/// bit patterns.
#[derive(Debug, Clone, Copy, PartialEq, Eq, Structural)]
pub struct Transform {
    pub m0: u32,
    pub m1: u32,
    pub m2: u32,
    pub m3: u32,
    pub m4: u32,
    pub m5: u32,
}

/// One rasterizer vertex: position `(x, y)` and texture coordinate
/// `(u, v)`, each a binary32 bit pattern.
#[derive(Debug, Clone, Copy, PartialEq, Eq, Structural)]
pub struct Vertex {
    pub x: u32,
    pub y: u32,
    pub u: u32,
    pub v: u32,
}

impl Vertex {
    pub fn new(x: u32, y: u32, u: u32, v: u32) -> (r: Vertex)
        ensures
            r == (Vertex { x, y, u, v }),
    {
        Vertex { x, y, u, v }
    }
}

/// The channel layout of a texture.
#[derive(Debug, Clone, Copy, PartialEq, Eq, Structural)]
pub enum TextureType {
    RGBA,
    Alpha,
}

/// Texture flag: build a mipmap chain at creation.
pub const IMAGE_GENERATE_MIPMAPS: u32 = 0x01;

/// Texture flag: repeat horizontally instead of clamping.
pub const IMAGE_REPEATX: u32 = 0x02;

/// Texture flag: repeat vertically instead of clamping.
pub const IMAGE_REPEATY: u32 = 0x04;

/// Texture flag: the image rows are stored upside down.
pub const IMAGE_FLIPY: u32 = 0x08;

/// Texture flag: the image data is premultiplied by alpha.
pub const IMAGE_PREMULTIPLIED: u32 = 0x10;

/// Texture flag: sample with nearest-neighbor filtering.
pub const IMAGE_NEAREST: u32 = 0x20;

/// Whether every bit of `flag` is set in `flags`.
pub open spec fn has_flag(flags: u32, flag: u32) -> bool {
    flags & flag == flag
}

/// Exec counterpart of `has_flag`.
pub fn contains_flag(flags: u32, flag: u32) -> (r: bool)
    ensures
        r == has_flag(flags, flag),
{
    flags & flag == flag
}

/// One source or destination blend weight of the compositing equation.
#[derive(Debug, Clone, Copy, PartialEq, Eq, Structural)]
pub enum BlendFactor {
    Zero,
    One,
    SrcColor,
    OneMinusSrcColor,
    DstColor,
    OneMinusDstColor,
    SrcAlpha,
    OneMinusSrcAlpha,
    DstAlpha,
    OneMinusDstAlpha,
    SrcAlphaSaturate,
}

/// A composite operation, resolved to its four blend factors.
#[derive(Debug, Clone, Copy, PartialEq, Eq, Structural)]
pub struct CompositeOperationState {
    pub src_rgb: BlendFactor,
    pub dst_rgb: BlendFactor,
    pub src_alpha: BlendFactor,
    pub dst_alpha: BlendFactor,
}

/// The per-draw blend configuration carried by a recorded call.
#[derive(Debug, Clone, Copy, PartialEq, Eq, Structural)]
pub struct Blend {
    pub src_rgb: BlendFactor,
    pub dst_rgb: BlendFactor,
    pub src_alpha: BlendFactor,
    pub dst_alpha: BlendFactor,
}

/// The blend configuration a composite operation resolves to.
pub open spec fn spec_blend(state: CompositeOperationState) -> Blend {
    Blend {
        src_rgb: state.src_rgb,
        dst_rgb: state.dst_rgb,
        src_alpha: state.src_alpha,
        dst_alpha: state.dst_alpha,
    }
}

impl Blend {
    pub fn from_state(state: CompositeOperationState) -> (r: Blend)
        ensures
            r == spec_blend(state),
    {
        Blend {
            src_rgb: state.src_rgb,
            dst_rgb: state.dst_rgb,
            src_alpha: state.src_alpha,
            dst_alpha: state.dst_alpha,
        }
    }
}

/// A clip rectangle: `xform` places a `extent`-sized box; a negative
/// extent (below `-0.5`) in either dimension is the no-scissor sentinel.
#[derive(Debug, Clone, Copy, PartialEq, Eq, Structural)]
pub struct Scissor {
    pub xform: Transform,
    pub extent: Extent,
}

/// A fill or stroke appearance: a gradient described by `xform`, `extent`,
/// `radius` and `feather` between two colors, or an image pattern when
/// `image` is set.
#[derive(Debug, Clone, Copy, PartialEq, Eq, Structural)]
pub struct Paint {
    pub xform: Transform,
    pub extent: Extent,
    pub radius: u32,
    pub feather: u32,
    pub inner_color: Color,
    pub outer_color: Color,
    pub image: Option<ImageId>,
}

/// One contour's tessellated geometry: a fill fan, an antialiasing stroke
/// strip, and the upstream convexity verdict.
#[derive(Debug, Clone)]
pub struct Path {
    pub fill: Vec<Vertex>,
    pub stroke: Vec<Vertex>,
    pub convex: bool,
}

impl Path {
    /// The fill fan vertices.
    pub fn get_fill(&self) -> (r: &[Vertex])
        ensures
            r@ == self.fill@,
    {
        self.fill.as_slice()
    }

    /// The stroke strip vertices.
    pub fn get_stroke(&self) -> (r: &[Vertex])
        ensures
            r@ == self.stroke@,
    {
        self.stroke.as_slice()
    }
}

/// A failure surfaced to the caller; no operation panics on bad input.
#[derive(Debug, Clone, Copy, PartialEq, Eq, Structural)]
pub enum RendererError {
    /// A texture operation named a handle with no live texture.
    TextureNotFound(ImageId),
}

} // verus!
