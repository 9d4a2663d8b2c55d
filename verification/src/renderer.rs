//! The renderer: texture lifecycle, the per-frame recorder for
//! `fill`/`stroke`/`triangles`, and the call executor that plans the GPU
//! command sequence at `flush`.

use vstd::prelude::*;

use vstd::arithmetic::div_mod::lemma_div_by_multiple;
use vstd::arithmetic::div_mod::lemma_fundamental_div_mod;
use vstd::arithmetic::div_mod::lemma_mod_multiples_basic;

use crate::calls::Call;
use crate::calls::CallType;
use crate::calls::DrawKind;
use crate::calls::GLPath;
use crate::calls::GpuOp;
use crate::calls::spec_call_ops;
use crate::calls::spec_convex_draws;
use crate::calls::spec_convex_fill_ops;
use crate::calls::spec_fan_draws;
use crate::calls::spec_fill_ops;
use crate::calls::spec_set_uniforms_ops;
use crate::calls::spec_stroke_ops;
use crate::calls::spec_strip_draws;
use crate::calls::spec_triangles_ops;
use crate::calls::CmpFunc;
use crate::calls::Face;
use crate::calls::StencilAction;
use crate::float32::FP32_HALF;
use crate::float32::FP32_NEG_ONE;
use crate::float32::FP32_ONE;
use crate::float32::FP32_STROKE_THR_FULL;
use crate::float32::FP32_ZERO;
use crate::paint::convert_paint;
use crate::paint::spec_convert_paint;
use crate::texture::PixelFormat;
use crate::texture::Texture;
use crate::texture::TextureTable;
use crate::texture::pixel_format;
use crate::texture::spec_lookup;
use crate::texture::spec_pixel_format;
use crate::texture::no_entries;
use crate::types::Blend;
use crate::types::Bounds;
use crate::types::CompositeOperationState;
use crate::types::Extent;
use crate::types::ImageId;
use crate::types::Paint;
use crate::types::Path;
use crate::types::RendererError;
use crate::types::Scissor;
use crate::types::TextureType;
use crate::types::Vertex;
use crate::types::spec_blend;
use crate::uniforms::FRAG_UNIFORM_BYTES;
use crate::uniforms::FragUniforms;
use crate::uniforms::ShaderType;
use crate::uniforms::frag_simple;
use crate::uniforms::frag_words;
use crate::uniforms::append_words_le;
use crate::uniforms::lemma_frag_bytes_len;
use crate::uniforms::spec_frag_bytes;
use crate::uniforms::spec_frag_simple;

verus! {

/// The renderer's mathematical state: the texture table's contents, the
/// viewport, the uniform-block stride, and the four frame-scoped buffers.
pub ghost struct RendererView {
    pub textures: Map<int, Texture>,
    pub view: Extent,
    pub frag_size: nat,
    pub calls: Seq<Call>,
    pub paths: Seq<GLPath>,
    pub vertexes: Seq<Vertex>,
    pub uniforms: Seq<u8>,
}

impl RendererView {
    /// How many uniform blocks the frame has appended.
    pub open spec fn n_blocks(self) -> int {
        self.uniforms.len() as int / self.frag_size as int
    }

    /// The state after a frame's recordings are dropped: the four buffers
    /// empty, the configuration and the texture table kept.
    pub open spec fn cleared(self) -> RendererView {
        RendererView {
            calls: Seq::empty(),
            paths: Seq::empty(),
            vertexes: Seq::empty(),
            uniforms: Seq::empty(),
            ..self
        }
    }

    /// Well-formedness: the stride covers a packed block, the uniform
    /// buffer holds whole blocks, and every recorded range indexes only
    /// into this frame's buffers.
    pub open spec fn wf(self) -> bool {
        &&& self.frag_size >= FRAG_UNIFORM_BYTES
        &&& self.uniforms.len() as int % self.frag_size as int == 0
        &&& forall|i: int|
            0 <= i < self.paths.len() ==> spec_glpath_wf(
                #[trigger] self.paths[i],
                self.vertexes.len() as int,
            )
        &&& forall|i: int|
            0 <= i < self.calls.len() ==> spec_call_wf(
                #[trigger] self.calls[i],
                self.paths.len() as int,
                self.vertexes.len() as int,
                self.n_blocks(),
            )
    }
}

/// A path's ranges lie inside the frame's vertex buffer.
pub open spec fn spec_glpath_wf(p: GLPath, n_verts: int) -> bool {
    &&& p.fill_offset + p.fill_count <= n_verts
    &&& p.stroke_offset + p.stroke_count <= n_verts
}

/// A call's ranges lie inside the frame's buffers: its path range, the
/// vertex range its kind draws, and the uniform block (or block pair) its
/// kind binds.
pub open spec fn spec_call_wf(c: Call, n_paths: int, n_verts: int, n_blocks: int) -> bool {
    &&& c.path_offset + c.path_count <= n_paths
    &&& match c.call_type {
        CallType::Fill => {
            &&& c.triangle_offset + c.triangle_count <= n_verts
            &&& c.uniform_offset + 2 <= n_blocks
        },
        CallType::ConvexFill => c.uniform_offset + 1 <= n_blocks,
        CallType::Stroke => c.uniform_offset + 2 <= n_blocks,
        CallType::Triangles => {
            &&& c.triangle_offset + c.triangle_count <= n_verts
            &&& c.uniform_offset + 1 <= n_blocks
        },
    }
}

/// The uniform-block stride for a GPU whose minimum uniform-buffer offset
/// alignment is `align`: the packed block size rounded up into whole
/// alignment units.
pub open spec fn spec_frag_stride(align: int) -> int {
    FRAG_UNIFORM_BYTES + align - FRAG_UNIFORM_BYTES as int % align
}

/// A packed block followed by the zero padding that fills its stride.
pub open spec fn spec_padded_frag(f: FragUniforms, frag_size: nat) -> Seq<u8> {
    spec_frag_bytes(f) + Seq::new((frag_size - FRAG_UNIFORM_BYTES) as nat, |i: int| 0u8)
}

/// Appending `k` whole blocks to a block-aligned buffer keeps it aligned
/// and advances the block count by `k`.
pub proof fn lemma_block_append(len: int, fs: int, k: int)
    requires
        fs > 0,
        len >= 0,
        k >= 0,
        len % fs == 0,
    ensures
        (len + k * fs) % fs == 0,
        (len + k * fs) / fs == len / fs + k,
{
    lemma_fundamental_div_mod(len, fs);
    let q = len / fs;
    assert(len + k * fs == (q + k) * fs) by (nonlinear_arith)
        requires
            len == fs * q,
    ;
    lemma_div_by_multiple(q + k, fs);
    lemma_mod_multiples_basic(q + k, fs);
}

/// The full log `flush` plans for a recorded frame: program and baseline
/// state, one upload of each buffer, the viewport, then every call's
/// sequence in submission order, then the state reset.
pub open spec fn spec_flush_ops(v: RendererView) -> Seq<GpuOp> {
    seq![
        GpuOp::BindProgram,
        GpuOp::SetBaselineState,
        GpuOp::UploadUniformBuffer,
        GpuOp::UploadVertexBuffer,
        GpuOp::SetViewUniform(v.view),
    ] + spec_calls_ops(v.textures, v.paths, v.calls) + seq![GpuOp::ResetState]
}

/// Every call's sequence, in submission order; each call sees the paths
/// in its recorded range.
pub open spec fn spec_calls_ops(
    m: Map<int, Texture>,
    paths: Seq<GLPath>,
    calls: Seq<Call>,
) -> Seq<GpuOp>
    decreases calls.len(),
{
    if calls.len() == 0 {
        Seq::empty()
    } else {
        spec_call_ops(
            m,
            paths.subrange(
                calls[0].path_offset as int,
                calls[0].path_offset + calls[0].path_count,
            ),
            calls[0],
        ) + spec_calls_ops(m, paths, calls.drop_first())
    }
}

/// The renderer: the texture table plus the frame-scoped vertex, path,
/// call and uniform buffers.  The buffers are append-only between
/// `flush`/`cancel` boundaries and never retained across them.
pub struct Renderer {
    textures: TextureTable,
    view: Extent,
    frag_size: usize,
    calls: Vec<Call>,
    paths: Vec<GLPath>,
    vertexes: Vec<Vertex>,
    uniforms: Vec<u8>,
}

/// Everything `flush` hands the GPU adapter for one frame: the vertex
/// data, the packed uniform data, and the planned command sequence.
pub struct FrameLog {
    pub vertexes: Vec<Vertex>,
    pub uniforms: Vec<u8>,
    pub ops: Vec<GpuOp>,
}

impl View for Renderer {
    type V = RendererView;

    closed spec fn view(&self) -> RendererView {
        RendererView {
            textures: self.textures.entries(),
            view: self.view,
            frag_size: self.frag_size as nat,
            calls: self.calls@,
            paths: self.paths@,
            vertexes: self.vertexes@,
            uniforms: self.uniforms@,
        }
    }
}

impl Renderer {
    /// Whether the recorder is well-formed; established at creation and
    /// preserved by every operation.
    pub open spec fn wf(self) -> bool {
        self@.wf()
    }

    /// Creates a renderer for a GPU whose minimum uniform-buffer offset
    /// alignment is `uniform_align` (the adapter queries it from the
    /// context; it is a small power of two on real hardware).
    pub fn create(uniform_align: usize) -> (r: Renderer)
        requires
            1 <= uniform_align <= 16384,
        ensures
            r.wf(),
            r@.textures == no_entries(),
            r@.view == (Extent { width: FP32_ZERO, height: FP32_ZERO }),
            r@.frag_size == spec_frag_stride(uniform_align as int),
            r@.calls.len() == 0,
            r@.paths.len() == 0,
            r@.vertexes.len() == 0,
            r@.uniforms.len() == 0,
    {
        let frag_size: usize = FRAG_UNIFORM_BYTES + uniform_align - FRAG_UNIFORM_BYTES
            % uniform_align;
        proof {
            vstd::arithmetic::div_mod::lemma_small_mod(0nat, frag_size as nat);
        }
        Renderer {
            textures: TextureTable::new(),
            view: Extent { width: FP32_ZERO, height: FP32_ZERO },
            frag_size,
            calls: Vec::new(),
            paths: Vec::new(),
            vertexes: Vec::new(),
            uniforms: Vec::new(),
        }
    }

    /// The backend renders antialiasing fringes, so the front-end should
    /// produce them.
    pub fn edge_antialias(&self) -> (r: bool)
        ensures
            r == true,
    {
        true
    }

    /// The uniform-block stride the frame's uniform buffer is laid out
    /// with.
    pub fn frag_size(&self) -> (r: usize)
        ensures
            r == self@.frag_size,
    {
        self.frag_size
    }

    /// The calls recorded so far this frame.
    pub fn calls(&self) -> (r: &Vec<Call>)
        ensures
            r@ == self@.calls,
    {
        &self.calls
    }

    /// The per-path ranges recorded so far this frame.
    pub fn paths(&self) -> (r: &Vec<GLPath>)
        ensures
            r@ == self@.paths,
    {
        &self.paths
    }

    /// The vertices recorded so far this frame.
    pub fn vertexes(&self) -> (r: &Vec<Vertex>)
        ensures
            r@ == self@.vertexes,
    {
        &self.vertexes
    }

    /// The packed uniform bytes recorded so far this frame.
    pub fn uniforms(&self) -> (r: &Vec<u8>)
        ensures
            r@ == self@.uniforms,
    {
        &self.uniforms
    }

    /// Registers a texture's metadata and returns its fresh handle.  The
    /// adapter creates the GPU image with the parameters of
    /// `upload_plan` and uploads the caller's data, if any.
    pub fn create_texture(
        &mut self,
        texture_type: TextureType,
        width: usize,
        height: usize,
        flags: u32,
    ) -> (r: Result<ImageId, RendererError>)
        requires
            old(self).wf(),
        ensures
            final(self).wf(),
            r is Ok,
            r matches Ok(id) ==> {
                &&& !old(self)@.textures.dom().contains(id as int)
                &&& final(self)@ == (RendererView {
                    textures: old(self)@.textures.insert(
                        id as int,
                        Texture { width, height, texture_type, flags },
                    ),
                    ..old(self)@
                })
            },
    {
        let id = self.textures.create(texture_type, width, height, flags);
        Ok(id)
    }

    /// Forgets the texture at `handle`.  The adapter destroys the GPU
    /// image.  An unknown handle reports `TextureNotFound`.
    pub fn delete_texture(&mut self, handle: ImageId) -> (r: Result<(), RendererError>)
        requires
            old(self).wf(),
        ensures
            final(self).wf(),
            final(self)@ == (RendererView {
                textures: old(self)@.textures.remove(handle as int),
                ..old(self)@
            }),
            r is Ok <==> old(self)@.textures.dom().contains(handle as int),
            r matches Err(e) ==> e == RendererError::TextureNotFound(handle),
    {
        match self.textures.remove(handle) {
            Ok(_) => Ok(()),
            Err(e) => Err(e),
        }
    }

    /// Validates an update of the rectangle `(x, y, width, height)` of
    /// the texture at `handle` and resolves the upload's component
    /// layout; the adapter performs the upload with the caller's data.
    /// An unknown handle reports `TextureNotFound`.
    pub fn update_texture(
        &mut self,
        handle: ImageId,
        x: usize,
        y: usize,
        width: usize,
        height: usize,
    ) -> (r: Result<PixelFormat, RendererError>)
        requires
            old(self).wf(),
        ensures
            final(self).wf(),
            final(self)@ == old(self)@,
            r == match spec_lookup(old(self)@.textures, handle as int) {
                Some(t) => Ok::<PixelFormat, RendererError>(spec_pixel_format(t.texture_type)),
                None => Err::<PixelFormat, RendererError>(RendererError::TextureNotFound(handle)),
            },
    {
        match self.textures.get(handle) {
            Some(t) => Ok(pixel_format(t.texture_type)),
            None => Err(RendererError::TextureNotFound(handle)),
        }
    }

    /// The dimensions the texture at `handle` was created with; an
    /// unknown handle reports `TextureNotFound`.
    pub fn texture_size(&self, handle: ImageId) -> (r: Result<(usize, usize), RendererError>)
        ensures
            r == match spec_lookup(self@.textures, handle as int) {
                Some(t) => Ok::<(usize, usize), RendererError>((t.width, t.height)),
                None => Err::<(usize, usize), RendererError>(
                    RendererError::TextureNotFound(handle),
                ),
            },
    {
        match self.textures.get(handle) {
            Some(t) => Ok((t.width, t.height)),
            None => Err(RendererError::TextureNotFound(handle)),
        }
    }

    /// Sets the logical canvas size the shader normalizes coordinates
    /// with.
    pub fn viewport(&mut self, extent: Extent, device_pixel_ratio: u32) -> (r: Result<
        (),
        RendererError,
    >)
        requires
            old(self).wf(),
        ensures
            final(self).wf(),
            r is Ok,
            final(self)@ == (RendererView { view: extent, ..old(self)@ }),
    {
        self.view = extent;
        Ok(())
    }

    /// Discards everything the current frame recorded without issuing any
    /// GPU work; the recorder is left as a fresh frame.
    pub fn cancel(&mut self) -> (r: Result<(), RendererError>)
        requires
            old(self).wf(),
        ensures
            final(self).wf(),
            r is Ok,
            final(self)@ == old(self)@.cleared(),
    {
        self.vertexes.clear();
        self.paths.clear();
        self.calls.clear();
        self.uniforms.clear();
        proof {
            vstd::arithmetic::div_mod::lemma_small_mod(0nat, self.frag_size as nat);
        }
        Ok(())
    }

    /// Appends one packed block and its stride padding to the frame's
    /// uniform buffer.
    fn append_uniforms(&mut self, f: FragUniforms)
        requires
            old(self).frag_size >= FRAG_UNIFORM_BYTES,
        ensures
            final(self).textures == old(self).textures,
            final(self).view == old(self).view,
            final(self).frag_size == old(self).frag_size,
            final(self).calls == old(self).calls,
            final(self).paths == old(self).paths,
            final(self).vertexes == old(self).vertexes,
            final(self).uniforms@ == old(self).uniforms@ + spec_padded_frag(
                f,
                old(self)@.frag_size,
            ),
            final(self).uniforms@.len() == old(self).uniforms@.len() + old(self)@.frag_size,
    {
        proof {
            lemma_frag_bytes_len(f);
        }
        let words = frag_words(&f);
        append_words_le(&mut self.uniforms, &words);
        let pad = self.frag_size - FRAG_UNIFORM_BYTES;
        let mut k: usize = 0;
        assert(self.uniforms@ =~= old(self).uniforms@ + spec_frag_bytes(f) + Seq::new(
            0,
            |i: int| 0u8,
        ));
        while k < pad
            invariant
                k <= pad,
                self.textures == old(self).textures,
                self.view == old(self).view,
                self.frag_size == old(self).frag_size,
                self.calls == old(self).calls,
                self.paths == old(self).paths,
                self.vertexes == old(self).vertexes,
                self.uniforms@ == old(self).uniforms@ + spec_frag_bytes(f) + Seq::new(
                    k as nat,
                    |i: int| 0u8,
                ),
            decreases pad - k,
        {
            self.uniforms.push(0u8);
            k = k + 1;
            assert(Seq::new(k as nat, |i: int| 0u8) =~= Seq::new((k - 1) as nat, |i: int| 0u8).push(
                0u8,
            ));
            assert(self.uniforms@ =~= old(self).uniforms@ + spec_frag_bytes(f) + Seq::new(
                k as nat,
                |i: int| 0u8,
            ));
        }
        proof {
            assert(self.uniforms@ =~= old(self).uniforms@ + spec_padded_frag(
                f,
                old(self)@.frag_size,
            ));
        }
    }

    /// Records a fill: each path's fan and fringe geometry, the per-path
    /// ranges, the call, and its uniform block(s).  Exactly one path
    /// marked convex takes the single-pass fast path; anything else
    /// records the general stencil fill with its bounding quad.  Nothing
    /// is drawn until `flush`.
    #[verifier::rlimit(100)]
    pub fn fill(
        &mut self,
        paint: &Paint,
        composite_operation: CompositeOperationState,
        scissor: &Scissor,
        fringe: u32,
        bounds: Bounds,
        paths: &[Path],
    ) -> (r: Result<(), RendererError>)
        requires
            old(self).wf(),
        ensures
            final(self).wf(),
            r is Ok,
            final(self)@ == spec_fill_transition(
                old(self)@,
                *paint,
                composite_operation,
                *scissor,
                fringe,
                bounds,
                paths@,
            ),
            final(self)@.calls.last().call_type == CallType::ConvexFill <==> (paths@.len() == 1
                && paths@[0].convex),
    {
        let ghost pre = old(self)@;
        let ghost rec = spec_record_fill(paths@, pre.vertexes.len() as int);

        let path_offset = self.paths.len();
        let path_count = paths.len();
        let uniform_offset = self.uniforms.len() / self.frag_size;
        let blend_func = Blend::from_state(composite_operation);
        let convex = path_count == 1 && paths[0].convex;

        proof {
            assert(paths@.skip(0) =~= paths@);
        }
        let n = paths.len();
        let mut i: usize = 0;
        while i < n
            invariant
                i <= n,
                n == paths@.len(),
                self.textures == old(self).textures,
                self.view == old(self).view,
                self.frag_size == old(self).frag_size,
                self.calls@ == old(self).calls@,
                self.uniforms@ == old(self).uniforms@,
                old(self).vertexes@.len() <= self.vertexes@.len(),
                old(self).paths@.len() <= self.paths@.len(),
                old(self).vertexes@ + spec_record_fill(
                    paths@,
                    old(self).vertexes@.len() as int,
                ).0 == self.vertexes@ + spec_record_fill(
                    paths@.skip(i as int),
                    self.vertexes@.len() as int,
                ).0,
                old(self).paths@ + spec_record_fill(
                    paths@,
                    old(self).vertexes@.len() as int,
                ).1 == self.paths@ + spec_record_fill(
                    paths@.skip(i as int),
                    self.vertexes@.len() as int,
                ).1,
                forall|j: int|
                    0 <= j < self.paths@.len() ==> spec_glpath_wf(
                        #[trigger] self.paths@[j],
                        self.vertexes@.len() as int,
                    ),
            decreases n - i,
        {
            let p = &paths[i];
            let fill_len = p.fill.len();
            let stroke_len = p.stroke.len();
            let fill_off = self.vertexes.len();
            append_vertices(&mut self.vertexes, p.get_fill());
            let stroke_off = self.vertexes.len();
            append_vertices(&mut self.vertexes, p.get_stroke());
            let gl = GLPath {
                fill_offset: if fill_len > 0 {
                    fill_off
                } else {
                    0
                },
                fill_count: fill_len,
                stroke_offset: if stroke_len > 0 {
                    stroke_off
                } else {
                    0
                },
                stroke_count: stroke_len,
            };
            self.paths.push(gl);
            proof {
                let ps = paths@;
                let k = i as int;
                assert(ps.skip(k)[0] == ps[k]);
                assert(ps.skip(k).drop_first() =~= ps.skip(k + 1));
                assert(gl == spec_glpath_fill(ps[k], fill_off as int));
                assert(spec_record_fill(ps.skip(k), fill_off as int).0 == (ps[k].fill@
                    + ps[k].stroke@) + spec_record_fill(
                    ps.skip(k + 1),
                    fill_off + (ps[k].fill@ + ps[k].stroke@).len(),
                ).0);
                assert(spec_record_fill(ps.skip(k), fill_off as int).1 == seq![
                    spec_glpath_fill(ps[k], fill_off as int),
                ] + spec_record_fill(ps.skip(k + 1), fill_off + (ps[k].fill@ + ps[k].stroke@).len()).1);
                assert(old(self).vertexes@ + spec_record_fill(
                    paths@,
                    old(self).vertexes@.len() as int,
                ).0 =~= self.vertexes@ + spec_record_fill(
                    ps.skip(k + 1),
                    self.vertexes@.len() as int,
                ).0);
                assert(old(self).paths@ + spec_record_fill(
                    paths@,
                    old(self).vertexes@.len() as int,
                ).1 =~= self.paths@ + spec_record_fill(
                    ps.skip(k + 1),
                    self.vertexes@.len() as int,
                ).1);
            }
            i = i + 1;
        }
        proof {
            assert(paths@.skip(n as int) =~= Seq::<Path>::empty());
            assert(self.vertexes@ =~= old(self).vertexes@ + rec.0);
            assert(self.paths@ =~= old(self).paths@ + rec.1);
        }

        let tri_off = self.vertexes.len();
        if !convex {
            self.vertexes.push(Vertex { x: bounds.max.x, y: bounds.max.y, u: FP32_HALF, v: FP32_ONE });
            self.vertexes.push(Vertex { x: bounds.max.x, y: bounds.min.y, u: FP32_HALF, v: FP32_ONE });
            self.vertexes.push(Vertex { x: bounds.min.x, y: bounds.max.y, u: FP32_HALF, v: FP32_ONE });
            self.vertexes.push(Vertex { x: bounds.min.x, y: bounds.min.y, u: FP32_HALF, v: FP32_ONE });
            proof {
                assert(self.vertexes@ =~= old(self).vertexes@ + rec.0 + spec_bounds_quad(bounds));
            }
            self.append_uniforms(frag_simple());
            let f = convert_paint(&self.textures, paint, scissor, fringe, fringe, FP32_NEG_ONE);
            self.append_uniforms(f);
            proof {
                assert(self.uniforms@ =~= old(self).uniforms@ + (spec_padded_frag(
                    spec_frag_simple(),
                    pre.frag_size,
                ) + spec_padded_frag(
                    spec_convert_paint(pre.textures, *paint, *scissor, fringe, fringe, FP32_NEG_ONE),
                    pre.frag_size,
                )));
            }
        } else {
            let f = convert_paint(&self.textures, paint, scissor, fringe, fringe, FP32_NEG_ONE);
            self.append_uniforms(f);
        }

        let call = Call {
            call_type: if convex {
                CallType::ConvexFill
            } else {
                CallType::Fill
            },
            image: paint.image,
            path_offset,
            path_count,
            triangle_offset: if convex {
                0
            } else {
                tri_off
            },
            triangle_count: 4,
            uniform_offset,
            blend_func,
        };
        self.calls.push(call);

        proof {
            lemma_record_fill_len(paths@, pre.vertexes.len() as int);
            assert(call == spec_fill_call(pre, *paint, composite_operation, paths@));
            let post = spec_fill_transition(
                pre,
                *paint,
                composite_operation,
                *scissor,
                fringe,
                bounds,
                paths@,
            );
            if convex {
                assert(self.vertexes@ =~= pre.vertexes + rec.0 + Seq::<Vertex>::empty());
            }
            assert(self@.calls =~= post.calls);
            assert(self@.paths =~= post.paths);
            assert(self@.vertexes =~= post.vertexes);
            assert(self@.uniforms =~= post.uniforms);
            assert(self@ == post);

            let k: int = if convex {
                1
            } else {
                2
            };
            lemma_block_append(pre.uniforms.len() as int, pre.frag_size as int, k);
            assert(self@.n_blocks() == pre.n_blocks() + k);
            assert(uniform_offset == pre.n_blocks());
            assert forall|j: int| 0 <= j < self@.calls.len() implies spec_call_wf(
                #[trigger] self@.calls[j],
                self@.paths.len() as int,
                self@.vertexes.len() as int,
                self@.n_blocks(),
            ) by {
                if j < pre.calls.len() {
                    assert(spec_call_wf(
                        pre.calls[j],
                        pre.paths.len() as int,
                        pre.vertexes.len() as int,
                        pre.n_blocks(),
                    ));
                }
            }
            assert forall|j: int| 0 <= j < self@.paths.len() implies spec_glpath_wf(
                #[trigger] self@.paths[j],
                self@.vertexes.len() as int,
            ) by {}
            assert(self@.wf());
        }
        Ok(())
    }

    /// Records a stroke: each path's stroke strip and its range, the
    /// call, and its two uniform blocks — the antialiased edge block
    /// (stroke threshold `-1.0`) and the near-opaque interior block
    /// (stroke threshold `1 - 0.5/255`).  Nothing is drawn until
    /// `flush`.
    #[verifier::rlimit(100)]
    pub fn stroke(
        &mut self,
        paint: &Paint,
        composite_operation: CompositeOperationState,
        scissor: &Scissor,
        fringe: u32,
        stroke_width: u32,
        paths: &[Path],
    ) -> (r: Result<(), RendererError>)
        requires
            old(self).wf(),
        ensures
            final(self).wf(),
            r is Ok,
            final(self)@ == spec_stroke_transition(
                old(self)@,
                *paint,
                composite_operation,
                *scissor,
                fringe,
                stroke_width,
                paths@,
            ),
    {
        let ghost pre = old(self)@;
        let ghost rec = spec_record_stroke(paths@, pre.vertexes.len() as int);

        let path_offset = self.paths.len();
        let uniform_offset = self.uniforms.len() / self.frag_size;
        let blend_func = Blend::from_state(composite_operation);

        proof {
            assert(paths@.skip(0) =~= paths@);
        }
        let n = paths.len();
        let mut i: usize = 0;
        while i < n
            invariant
                i <= n,
                n == paths@.len(),
                self.textures == old(self).textures,
                self.view == old(self).view,
                self.frag_size == old(self).frag_size,
                self.calls@ == old(self).calls@,
                self.uniforms@ == old(self).uniforms@,
                old(self).vertexes@.len() <= self.vertexes@.len(),
                old(self).paths@.len() <= self.paths@.len(),
                old(self).vertexes@ + spec_record_stroke(
                    paths@,
                    old(self).vertexes@.len() as int,
                ).0 == self.vertexes@ + spec_record_stroke(
                    paths@.skip(i as int),
                    self.vertexes@.len() as int,
                ).0,
                old(self).paths@ + spec_record_stroke(
                    paths@,
                    old(self).vertexes@.len() as int,
                ).1 == self.paths@ + spec_record_stroke(
                    paths@.skip(i as int),
                    self.vertexes@.len() as int,
                ).1,
                self.paths@.len() - old(self).paths@.len() == spec_record_stroke(
                    paths@,
                    old(self).vertexes@.len() as int,
                ).1.len() - spec_record_stroke(
                    paths@.skip(i as int),
                    self.vertexes@.len() as int,
                ).1.len(),
                forall|j: int|
                    0 <= j < self.paths@.len() ==> spec_glpath_wf(
                        #[trigger] self.paths@[j],
                        self.vertexes@.len() as int,
                    ),
            decreases n - i,
        {
            let p = &paths[i];
            let stroke_len = p.stroke.len();
            let stroke_off = self.vertexes.len();
            proof {
                let ps = paths@;
                let k = i as int;
                assert(ps.skip(k)[0] == ps[k]);
                assert(ps.skip(k).drop_first() =~= ps.skip(k + 1));
            }
            if stroke_len > 0 {
                append_vertices(&mut self.vertexes, p.get_stroke());
                let gl = GLPath {
                    fill_offset: 0,
                    fill_count: 0,
                    stroke_offset: stroke_off,
                    stroke_count: stroke_len,
                };
                self.paths.push(gl);
                proof {
                    let ps = paths@;
                    let k = i as int;
                    assert(spec_record_stroke(ps.skip(k), stroke_off as int).0 == ps[k].stroke@
                        + spec_record_stroke(ps.skip(k + 1), stroke_off + ps[k].stroke@.len()).0);
                    assert(old(self).vertexes@ + spec_record_stroke(
                        paths@,
                        old(self).vertexes@.len() as int,
                    ).0 =~= self.vertexes@ + spec_record_stroke(
                        ps.skip(k + 1),
                        self.vertexes@.len() as int,
                    ).0);
                    assert(old(self).paths@ + spec_record_stroke(
                        paths@,
                        old(self).vertexes@.len() as int,
                    ).1 =~= self.paths@ + spec_record_stroke(
                        ps.skip(k + 1),
                        self.vertexes@.len() as int,
                    ).1);
                }
            }
            i = i + 1;
        }
        proof {
            assert(paths@.skip(n as int) =~= Seq::<Path>::empty());
            assert(self.vertexes@ =~= old(self).vertexes@ + rec.0);
            assert(self.paths@ =~= old(self).paths@ + rec.1);
        }

        let path_count = self.paths.len() - path_offset;
        let f_edge = convert_paint(&self.textures, paint, scissor, stroke_width, fringe, FP32_NEG_ONE);
        self.append_uniforms(f_edge);
        let f_full = convert_paint(
            &self.textures,
            paint,
            scissor,
            stroke_width,
            fringe,
            FP32_STROKE_THR_FULL,
        );
        self.append_uniforms(f_full);

        let call = Call {
            call_type: CallType::Stroke,
            image: paint.image,
            path_offset,
            path_count,
            triangle_offset: 0,
            triangle_count: 0,
            uniform_offset,
            blend_func,
        };
        self.calls.push(call);

        proof {
            assert(call == spec_stroke_call(pre, *paint, composite_operation, paths@));
            let post = spec_stroke_transition(
                pre,
                *paint,
                composite_operation,
                *scissor,
                fringe,
                stroke_width,
                paths@,
            );
            assert(self@.calls =~= post.calls);
            assert(self@.paths =~= post.paths);
            assert(self@.vertexes =~= post.vertexes);
            assert(self@.uniforms =~= post.uniforms);
            assert(self@ == post);

            lemma_block_append(pre.uniforms.len() as int, pre.frag_size as int, 2);
            assert(self@.n_blocks() == pre.n_blocks() + 2);
            assert(uniform_offset == pre.n_blocks());
            assert forall|j: int| 0 <= j < self@.calls.len() implies spec_call_wf(
                #[trigger] self@.calls[j],
                self@.paths.len() as int,
                self@.vertexes.len() as int,
                self@.n_blocks(),
            ) by {
                if j < pre.calls.len() {
                    assert(spec_call_wf(
                        pre.calls[j],
                        pre.paths.len() as int,
                        pre.vertexes.len() as int,
                        pre.n_blocks(),
                    ));
                }
            }
            assert(self@.wf());
        }
        Ok(())
    }

    /// Records a raw triangle-list blit (glyphs, image quads): the flat
    /// vertex run, the call, and one uniform block converted from the
    /// paint and retagged with the `Image` shader mode.  Nothing is drawn
    /// until `flush`.
    #[verifier::rlimit(100)]
    pub fn triangles(
        &mut self,
        paint: &Paint,
        composite_operation: CompositeOperationState,
        scissor: &Scissor,
        vertexes: &[Vertex],
    ) -> (r: Result<(), RendererError>)
        requires
            old(self).wf(),
        ensures
            final(self).wf(),
            r is Ok,
            final(self)@ == spec_triangles_transition(
                old(self)@,
                *paint,
                composite_operation,
                *scissor,
                vertexes@,
            ),
    {
        let ghost pre = old(self)@;

        let call = Call {
            call_type: CallType::Triangles,
            image: paint.image,
            path_offset: 0,
            path_count: 0,
            triangle_offset: self.vertexes.len(),
            triangle_count: vertexes.len(),
            uniform_offset: self.uniforms.len() / self.frag_size,
            blend_func: Blend::from_state(composite_operation),
        };
        self.calls.push(call);
        append_vertices(&mut self.vertexes, vertexes);

        let mut f = convert_paint(&self.textures, paint, scissor, FP32_ONE, FP32_ONE, FP32_NEG_ONE);
        f.shader_type = ShaderType::Image.value();
        self.append_uniforms(f);

        proof {
            assert(call == spec_triangles_call(pre, *paint, composite_operation, vertexes@));
            let post = spec_triangles_transition(
                pre,
                *paint,
                composite_operation,
                *scissor,
                vertexes@,
            );
            assert(self@.calls =~= post.calls);
            assert(self@.vertexes =~= post.vertexes);
            assert(self@.uniforms =~= post.uniforms);
            assert(self@ == post);

            lemma_block_append(pre.uniforms.len() as int, pre.frag_size as int, 1);
            assert(self@.n_blocks() == pre.n_blocks() + 1);
            assert forall|j: int| 0 <= j < self@.calls.len() implies spec_call_wf(
                #[trigger] self@.calls[j],
                self@.paths.len() as int,
                self@.vertexes.len() as int,
                self@.n_blocks(),
            ) by {
                if j < pre.calls.len() {
                    assert(spec_call_wf(
                        pre.calls[j],
                        pre.paths.len() as int,
                        pre.vertexes.len() as int,
                        pre.n_blocks(),
                    ));
                }
            }
            assert forall|j: int| 0 <= j < self@.paths.len() implies spec_glpath_wf(
                #[trigger] self@.paths[j],
                self@.vertexes.len() as int,
            ) by {
                assert(spec_glpath_wf(pre.paths[j], pre.vertexes.len() as int));
            }
            assert(self@.wf());
        }
        Ok(())
    }

    /// Appends the ops that bind a call's uniform block and texture.
    fn set_uniforms(&self, ops: &mut Vec<GpuOp>, offset: usize, image: Option<ImageId>)
        ensures
            final(ops)@ == old(ops)@ + spec_set_uniforms_ops(self@.textures, offset, image),
    {
        ops.push(GpuOp::BindUniformRange(offset));
        match image {
            Some(img) => {
                if self.textures.get(img).is_some() {
                    ops.push(GpuOp::BindTexture(Some(img)));
                }
            },
            None => {
                ops.push(GpuOp::BindTexture(None));
            },
        }
        proof {
            assert(ops@ =~= old(ops)@ + spec_set_uniforms_ops(self@.textures, offset, image));
        }
    }

    /// Appends the general fill's stencil sequence for one call.
    #[verifier::rlimit(100)]
    fn do_fill(&self, ops: &mut Vec<GpuOp>, call: &Call)
        requires
            self.wf(),
            spec_call_wf(
                *call,
                self@.paths.len() as int,
                self@.vertexes.len() as int,
                self@.n_blocks(),
            ),
            call.call_type == CallType::Fill,
        ensures
            final(ops)@ == old(ops)@ + spec_fill_ops(
                self@.textures,
                self@.paths.subrange(call.path_offset as int, call.path_offset + call.path_count),
                *call,
            ),
    {
        let u_len = self.uniforms.len();
        proof {
            vstd::arithmetic::div_mod::lemma_div_nonincreasing(
                u_len as int,
                self@.frag_size as int,
            );
        }
        ops.push(GpuOp::EnableStencil);
        ops.push(GpuOp::StencilMask(0xff));
        ops.push(GpuOp::StencilFunc(CmpFunc::Always, 0, 0xff));
        ops.push(GpuOp::ColorMask(false));
        self.set_uniforms(ops, call.uniform_offset, call.image);
        ops.push(GpuOp::StencilOp(
            Face::Front,
            StencilAction::Keep,
            StencilAction::Keep,
            StencilAction::IncrWrap,
        ));
        ops.push(GpuOp::StencilOp(
            Face::Back,
            StencilAction::Keep,
            StencilAction::Keep,
            StencilAction::DecrWrap,
        ));
        ops.push(GpuOp::DisableCull);
        emit_fan_draws(ops, &self.paths, call.path_offset, call.path_count);
        ops.push(GpuOp::EnableCull);
        ops.push(GpuOp::ColorMask(true));
        self.set_uniforms(ops, call.uniform_offset + 1, call.image);
        ops.push(GpuOp::StencilFunc(CmpFunc::Equal, 0, 0xff));
        ops.push(GpuOp::StencilOp(
            Face::FrontAndBack,
            StencilAction::Keep,
            StencilAction::Keep,
            StencilAction::Keep,
        ));
        emit_strip_draws(ops, &self.paths, call.path_offset, call.path_count);
        ops.push(GpuOp::StencilFunc(CmpFunc::NotEqual, 0, 0xff));
        ops.push(GpuOp::StencilOp(
            Face::FrontAndBack,
            StencilAction::Zero,
            StencilAction::Zero,
            StencilAction::Zero,
        ));
        ops.push(GpuOp::Draw(DrawKind::TriangleStrip, call.triangle_offset, call.triangle_count));
        ops.push(GpuOp::DisableStencil);
        proof {
            assert(ops@ =~= old(ops)@ + spec_fill_ops(
                self@.textures,
                self@.paths.subrange(call.path_offset as int, call.path_offset + call.path_count),
                *call,
            ));
        }
    }

    /// Appends the convex fast path's sequence for one call.
    fn do_convex_fill(&self, ops: &mut Vec<GpuOp>, call: &Call)
        requires
            self.wf(),
            spec_call_wf(
                *call,
                self@.paths.len() as int,
                self@.vertexes.len() as int,
                self@.n_blocks(),
            ),
            call.call_type == CallType::ConvexFill,
        ensures
            final(ops)@ == old(ops)@ + spec_convex_fill_ops(
                self@.textures,
                self@.paths.subrange(call.path_offset as int, call.path_offset + call.path_count),
                *call,
            ),
    {
        self.set_uniforms(ops, call.uniform_offset, call.image);
        emit_convex_draws(ops, &self.paths, call.path_offset, call.path_count);
        proof {
            assert(ops@ =~= old(ops)@ + spec_convex_fill_ops(
                self@.textures,
                self@.paths.subrange(call.path_offset as int, call.path_offset + call.path_count),
                *call,
            ));
        }
    }

    /// Appends the three-pass stroke sequence for one call.
    #[verifier::rlimit(100)]
    fn do_stroke(&self, ops: &mut Vec<GpuOp>, call: &Call)
        requires
            self.wf(),
            spec_call_wf(
                *call,
                self@.paths.len() as int,
                self@.vertexes.len() as int,
                self@.n_blocks(),
            ),
            call.call_type == CallType::Stroke,
        ensures
            final(ops)@ == old(ops)@ + spec_stroke_ops(
                self@.textures,
                self@.paths.subrange(call.path_offset as int, call.path_offset + call.path_count),
                *call,
            ),
    {
        let u_len = self.uniforms.len();
        proof {
            vstd::arithmetic::div_mod::lemma_div_nonincreasing(
                u_len as int,
                self@.frag_size as int,
            );
        }
        ops.push(GpuOp::EnableStencil);
        ops.push(GpuOp::StencilMask(0xff));
        ops.push(GpuOp::StencilFunc(CmpFunc::Equal, 0, 0xff));
        ops.push(GpuOp::StencilOp(
            Face::FrontAndBack,
            StencilAction::Keep,
            StencilAction::Keep,
            StencilAction::Incr,
        ));
        self.set_uniforms(ops, call.uniform_offset + 1, call.image);
        emit_strip_draws(ops, &self.paths, call.path_offset, call.path_count);
        self.set_uniforms(ops, call.uniform_offset, call.image);
        ops.push(GpuOp::StencilFunc(CmpFunc::Equal, 0, 0xff));
        ops.push(GpuOp::StencilOp(
            Face::FrontAndBack,
            StencilAction::Keep,
            StencilAction::Keep,
            StencilAction::Keep,
        ));
        emit_strip_draws(ops, &self.paths, call.path_offset, call.path_count);
        ops.push(GpuOp::ColorMask(false));
        ops.push(GpuOp::StencilFunc(CmpFunc::Always, 0, 0xff));
        ops.push(GpuOp::StencilOp(
            Face::FrontAndBack,
            StencilAction::Zero,
            StencilAction::Zero,
            StencilAction::Zero,
        ));
        emit_strip_draws(ops, &self.paths, call.path_offset, call.path_count);
        ops.push(GpuOp::ColorMask(true));
        ops.push(GpuOp::DisableStencil);
        proof {
            assert(ops@ =~= old(ops)@ + spec_stroke_ops(
                self@.textures,
                self@.paths.subrange(call.path_offset as int, call.path_offset + call.path_count),
                *call,
            ));
        }
    }

    /// Appends the flat triangle-list blit for one call.
    fn do_triangles(&self, ops: &mut Vec<GpuOp>, call: &Call)
        requires
            call.call_type == CallType::Triangles,
        ensures
            final(ops)@ == old(ops)@ + spec_triangles_ops(self@.textures, *call),
    {
        self.set_uniforms(ops, call.uniform_offset, call.image);
        ops.push(GpuOp::Draw(DrawKind::Triangles, call.triangle_offset, call.triangle_count));
        proof {
            assert(ops@ =~= old(ops)@ + spec_triangles_ops(self@.textures, *call));
        }
    }

    /// Executes the frame: plans the full command sequence for every
    /// recorded call in submission order (an empty frame plans nothing),
    /// hands it back with the frame's vertex and uniform data, and leaves
    /// the recorder as a fresh frame.  The adapter uploads the two
    /// buffers once and replays the ops.
    #[verifier::rlimit(100)]
    pub fn flush(&mut self) -> (log: FrameLog)
        requires
            old(self).wf(),
        ensures
            final(self).wf(),
            final(self)@ == old(self)@.cleared(),
            log.vertexes@ == old(self)@.vertexes,
            log.uniforms@ == old(self)@.uniforms,
            old(self)@.calls.len() == 0 ==> log.ops@.len() == 0,
            old(self)@.calls.len() > 0 ==> log.ops@ == spec_flush_ops(old(self)@),
    {
        let mut ops: Vec<GpuOp> = Vec::new();
        if self.calls.len() > 0 {
            ops.push(GpuOp::BindProgram);
            ops.push(GpuOp::SetBaselineState);
            ops.push(GpuOp::UploadUniformBuffer);
            ops.push(GpuOp::UploadVertexBuffer);
            ops.push(GpuOp::SetViewUniform(self.view));
            let ghost prefix = ops@;
            proof {
                assert(self.calls@.skip(0) =~= self.calls@);
            }
            let n = self.calls.len();
            let mut c: usize = 0;
            while c < n
                invariant
                    c <= n,
                    n == self.calls@.len(),
                    *self == *old(self),
                    old(self).wf(),
                    ops@ + spec_calls_ops(self@.textures, self@.paths, self@.calls.skip(c as int))
                        == prefix + spec_calls_ops(self@.textures, self@.paths, self@.calls),
                decreases n - c,
            {
                let call = self.calls[c];
                ops.push(GpuOp::SetBlend(call.blend_func));
                proof {
                    assert(spec_call_wf(
                        self@.calls[c as int],
                        self@.paths.len() as int,
                        self@.vertexes.len() as int,
                        self@.n_blocks(),
                    ));
                }
                match call.call_type {
                    CallType::Fill => self.do_fill(&mut ops, &call),
                    CallType::ConvexFill => self.do_convex_fill(&mut ops, &call),
                    CallType::Stroke => self.do_stroke(&mut ops, &call),
                    CallType::Triangles => self.do_triangles(&mut ops, &call),
                }
                proof {
                    let k = c as int;
                    let cs = self@.calls;
                    assert(cs.skip(k)[0] == cs[k]);
                    assert(cs.skip(k).drop_first() =~= cs.skip(k + 1));
                    assert(ops@ + spec_calls_ops(self@.textures, self@.paths, cs.skip(k + 1))
                        =~= prefix + spec_calls_ops(self@.textures, self@.paths, cs));
                }
                c = c + 1;
            }
            proof {
                assert(self@.calls.skip(n as int) =~= Seq::<Call>::empty());
            }
            ops.push(GpuOp::ResetState);
            proof {
                assert(ops@ =~= spec_flush_ops(old(self)@));
            }
        }
        let mut vertexes: Vec<Vertex> = Vec::new();
        std::mem::swap(&mut vertexes, &mut self.vertexes);
        let mut uniforms: Vec<u8> = Vec::new();
        std::mem::swap(&mut uniforms, &mut self.uniforms);
        self.paths.clear();
        self.calls.clear();
        proof {
            vstd::arithmetic::div_mod::lemma_small_mod(0nat, self.frag_size as nat);
            assert(self@ == old(self)@.cleared());
        }
        FrameLog { vertexes, uniforms, ops }
    }
}

/// The ranges one path records when a fill appends its geometry starting
/// at vertex offset `off`: the fill fan first, then the fringe strip; an
/// absent sequence records a zero range.
pub open spec fn spec_glpath_fill(p: Path, off: int) -> GLPath {
    GLPath {
        fill_offset: if p.fill@.len() > 0 {
            off as usize
        } else {
            0
        },
        fill_count: p.fill@.len() as usize,
        stroke_offset: if p.stroke@.len() > 0 {
            (off + p.fill@.len()) as usize
        } else {
            0
        },
        stroke_count: p.stroke@.len() as usize,
    }
}

/// The vertices and per-path ranges a fill records for `paths`, appending
/// from vertex offset `off`.
pub open spec fn spec_record_fill(paths: Seq<Path>, off: int) -> (Seq<Vertex>, Seq<GLPath>)
    decreases paths.len(),
{
    if paths.len() == 0 {
        (Seq::<Vertex>::empty(), Seq::<GLPath>::empty())
    } else {
        let p = paths[0];
        let verts = p.fill@ + p.stroke@;
        let gl = spec_glpath_fill(p, off);
        let rest = spec_record_fill(paths.drop_first(), off + verts.len());
        (verts + rest.0, seq![gl] + rest.1)
    }
}

pub proof fn lemma_record_fill_len(paths: Seq<Path>, off: int)
    ensures
        spec_record_fill(paths, off).1.len() == paths.len(),
    decreases paths.len(),
{
    if paths.len() > 0 {
        let p = paths[0];
        lemma_record_fill_len(paths.drop_first(), off + (p.fill@ + p.stroke@).len());
    }
}

/// The vertices and per-path ranges a stroke records for `paths`,
/// appending from vertex offset `off`: only stroke strips, and a path
/// without stroke geometry records no range at all.
pub open spec fn spec_record_stroke(paths: Seq<Path>, off: int) -> (Seq<Vertex>, Seq<GLPath>)
    decreases paths.len(),
{
    if paths.len() == 0 {
        (Seq::<Vertex>::empty(), Seq::<GLPath>::empty())
    } else {
        let p = paths[0];
        if p.stroke@.len() > 0 {
            let gl = GLPath {
                fill_offset: 0,
                fill_count: 0,
                stroke_offset: off as usize,
                stroke_count: p.stroke@.len() as usize,
            };
            let rest = spec_record_stroke(paths.drop_first(), off + p.stroke@.len());
            (p.stroke@ + rest.0, seq![gl] + rest.1)
        } else {
            spec_record_stroke(paths.drop_first(), off)
        }
    }
}

/// The four corners of the bounding quad the general fill's cover pass
/// draws over `bounds`.
pub open spec fn spec_bounds_quad(b: Bounds) -> Seq<Vertex> {
    seq![
        Vertex { x: b.max.x, y: b.max.y, u: FP32_HALF, v: FP32_ONE },
        Vertex { x: b.max.x, y: b.min.y, u: FP32_HALF, v: FP32_ONE },
        Vertex { x: b.min.x, y: b.max.y, u: FP32_HALF, v: FP32_ONE },
        Vertex { x: b.min.x, y: b.min.y, u: FP32_HALF, v: FP32_ONE },
    ]
}

/// The call a fill records.  With exactly one path that the tessellator
/// marked convex, the call is downgraded to the single-pass
/// `ConvexFill`; otherwise the general stencil fill also draws the
/// bounding quad recorded after the paths' geometry.
pub open spec fn spec_fill_call(
    pre: RendererView,
    paint: Paint,
    op: CompositeOperationState,
    paths: Seq<Path>,
) -> Call {
    let convex = paths.len() == 1 && paths[0].convex;
    let rec = spec_record_fill(paths, pre.vertexes.len() as int);
    Call {
        call_type: if convex {
            CallType::ConvexFill
        } else {
            CallType::Fill
        },
        image: paint.image,
        path_offset: pre.paths.len() as usize,
        path_count: paths.len() as usize,
        triangle_offset: if convex {
            0
        } else {
            (pre.vertexes.len() + rec.0.len()) as usize
        },
        triangle_count: 4,
        uniform_offset: pre.n_blocks() as usize,
        blend_func: spec_blend(op),
    }
}

/// The state after a fill: the paths' geometry and ranges are appended,
/// the general fill adds its bounding quad and a stencil-only block
/// before the paint's block, the convex fast path adds the paint's block
/// alone, and the call is recorded last.
pub open spec fn spec_fill_transition(
    pre: RendererView,
    paint: Paint,
    op: CompositeOperationState,
    scissor: Scissor,
    fringe: u32,
    bounds: Bounds,
    paths: Seq<Path>,
) -> RendererView {
    let convex = paths.len() == 1 && paths[0].convex;
    let rec = spec_record_fill(paths, pre.vertexes.len() as int);
    let frag = spec_convert_paint(pre.textures, paint, scissor, fringe, fringe, FP32_NEG_ONE);
    RendererView {
        calls: pre.calls.push(spec_fill_call(pre, paint, op, paths)),
        paths: pre.paths + rec.1,
        vertexes: pre.vertexes + rec.0 + if convex {
            Seq::<Vertex>::empty()
        } else {
            spec_bounds_quad(bounds)
        },
        uniforms: pre.uniforms + if convex {
            spec_padded_frag(frag, pre.frag_size)
        } else {
            spec_padded_frag(spec_frag_simple(), pre.frag_size) + spec_padded_frag(
                frag,
                pre.frag_size,
            )
        },
        ..pre
    }
}

/// The call a stroke records: stroke ranges only, and two uniform blocks
/// (the antialiased edge block, then the near-opaque interior block).
pub open spec fn spec_stroke_call(
    pre: RendererView,
    paint: Paint,
    op: CompositeOperationState,
    paths: Seq<Path>,
) -> Call {
    let rec = spec_record_stroke(paths, pre.vertexes.len() as int);
    Call {
        call_type: CallType::Stroke,
        image: paint.image,
        path_offset: pre.paths.len() as usize,
        path_count: rec.1.len() as usize,
        triangle_offset: 0,
        triangle_count: 0,
        uniform_offset: pre.n_blocks() as usize,
        blend_func: spec_blend(op),
    }
}

/// The state after a stroke: the paths' stroke strips and their ranges
/// are appended, then the edge block (stroke threshold `-1.0`) and the
/// near-opaque block (stroke threshold `1 - 0.5/255`), both converted
/// from the same paint at the given stroke width.
pub open spec fn spec_stroke_transition(
    pre: RendererView,
    paint: Paint,
    op: CompositeOperationState,
    scissor: Scissor,
    fringe: u32,
    stroke_width: u32,
    paths: Seq<Path>,
) -> RendererView {
    let rec = spec_record_stroke(paths, pre.vertexes.len() as int);
    let edge = spec_convert_paint(
        pre.textures,
        paint,
        scissor,
        stroke_width,
        fringe,
        FP32_NEG_ONE,
    );
    let full = spec_convert_paint(
        pre.textures,
        paint,
        scissor,
        stroke_width,
        fringe,
        FP32_STROKE_THR_FULL,
    );
    RendererView {
        calls: pre.calls.push(spec_stroke_call(pre, paint, op, paths)),
        paths: pre.paths + rec.1,
        vertexes: pre.vertexes + rec.0,
        uniforms: pre.uniforms + spec_padded_frag(edge, pre.frag_size) + spec_padded_frag(
            full,
            pre.frag_size,
        ),
        ..pre
    }
}

/// The call a triangle blit records: a flat vertex range, no paths, one
/// uniform block.
pub open spec fn spec_triangles_call(
    pre: RendererView,
    paint: Paint,
    op: CompositeOperationState,
    verts: Seq<Vertex>,
) -> Call {
    Call {
        call_type: CallType::Triangles,
        image: paint.image,
        path_offset: 0,
        path_count: 0,
        triangle_offset: pre.vertexes.len() as usize,
        triangle_count: verts.len() as usize,
        uniform_offset: pre.n_blocks() as usize,
        blend_func: spec_blend(op),
    }
}

/// The state after a triangle blit: the vertices are appended and one
/// block is converted from the paint, retagged with the `Image` shader
/// mode.
pub open spec fn spec_triangles_transition(
    pre: RendererView,
    paint: Paint,
    op: CompositeOperationState,
    scissor: Scissor,
    verts: Seq<Vertex>,
) -> RendererView {
    let frag0 = spec_convert_paint(pre.textures, paint, scissor, FP32_ONE, FP32_ONE, FP32_NEG_ONE);
    let frag = FragUniforms {
        shader_type: crate::uniforms::spec_shader_type_value(ShaderType::Image),
        ..frag0
    };
    RendererView {
        calls: pre.calls.push(spec_triangles_call(pre, paint, op, verts)),
        vertexes: pre.vertexes + verts,
        uniforms: pre.uniforms + spec_padded_frag(frag, pre.frag_size),
        ..pre
    }
}

/// Appends one fan draw per path in `paths[off .. off + count]`.
fn emit_fan_draws(ops: &mut Vec<GpuOp>, paths: &Vec<GLPath>, off: usize, count: usize)
    requires
        off + count <= paths@.len(),
    ensures
        final(ops)@ == old(ops)@ + spec_fan_draws(
            paths@.subrange(off as int, off as int + count as int),
        ),
{
    let ghost sub = paths@.subrange(off as int, off as int + count as int);
    let total = paths.len();
    proof {
        assert(sub.skip(0) =~= sub);
    }
    let mut j: usize = 0;
    while j < count
        invariant
            j <= count,
            off + count <= paths@.len(),
            total == paths@.len(),
            sub == paths@.subrange(off as int, off as int + count as int),
            old(ops)@ + spec_fan_draws(sub) == ops@ + spec_fan_draws(sub.skip(j as int)),
        decreases count - j,
    {
        let p = paths[off + j];
        ops.push(GpuOp::Draw(DrawKind::TriangleFan, p.fill_offset, p.fill_count));
        proof {
            let k = j as int;
            assert(sub.skip(k)[0] == sub[k]);
            assert(sub[k] == paths@[off + k]);
            assert(sub.skip(k).drop_first() =~= sub.skip(k + 1));
            assert(old(ops)@ + spec_fan_draws(sub) =~= ops@ + spec_fan_draws(sub.skip(k + 1)));
        }
        j = j + 1;
    }
    proof {
        assert(sub.skip(count as int) =~= Seq::<GLPath>::empty());
        assert(ops@ =~= old(ops)@ + spec_fan_draws(sub));
    }
}

/// Appends one strip draw per path in `paths[off .. off + count]`.
fn emit_strip_draws(ops: &mut Vec<GpuOp>, paths: &Vec<GLPath>, off: usize, count: usize)
    requires
        off + count <= paths@.len(),
    ensures
        final(ops)@ == old(ops)@ + spec_strip_draws(
            paths@.subrange(off as int, off as int + count as int),
        ),
{
    let ghost sub = paths@.subrange(off as int, off as int + count as int);
    let total = paths.len();
    proof {
        assert(sub.skip(0) =~= sub);
    }
    let mut j: usize = 0;
    while j < count
        invariant
            j <= count,
            off + count <= paths@.len(),
            total == paths@.len(),
            sub == paths@.subrange(off as int, off as int + count as int),
            old(ops)@ + spec_strip_draws(sub) == ops@ + spec_strip_draws(sub.skip(j as int)),
        decreases count - j,
    {
        let p = paths[off + j];
        ops.push(GpuOp::Draw(DrawKind::TriangleStrip, p.stroke_offset, p.stroke_count));
        proof {
            let k = j as int;
            assert(sub.skip(k)[0] == sub[k]);
            assert(sub[k] == paths@[off + k]);
            assert(sub.skip(k).drop_first() =~= sub.skip(k + 1));
            assert(old(ops)@ + spec_strip_draws(sub) =~= ops@ + spec_strip_draws(sub.skip(k + 1)));
        }
        j = j + 1;
    }
    proof {
        assert(sub.skip(count as int) =~= Seq::<GLPath>::empty());
        assert(ops@ =~= old(ops)@ + spec_strip_draws(sub));
    }
}

/// Appends, per path in `paths[off .. off + count]`, its fan draw and —
/// when it has fringe geometry — its strip draw.
fn emit_convex_draws(ops: &mut Vec<GpuOp>, paths: &Vec<GLPath>, off: usize, count: usize)
    requires
        off + count <= paths@.len(),
    ensures
        final(ops)@ == old(ops)@ + spec_convex_draws(
            paths@.subrange(off as int, off as int + count as int),
        ),
{
    let ghost sub = paths@.subrange(off as int, off as int + count as int);
    let total = paths.len();
    proof {
        assert(sub.skip(0) =~= sub);
    }
    let mut j: usize = 0;
    while j < count
        invariant
            j <= count,
            off + count <= paths@.len(),
            total == paths@.len(),
            sub == paths@.subrange(off as int, off as int + count as int),
            old(ops)@ + spec_convex_draws(sub) == ops@ + spec_convex_draws(sub.skip(j as int)),
        decreases count - j,
    {
        let p = paths[off + j];
        ops.push(GpuOp::Draw(DrawKind::TriangleFan, p.fill_offset, p.fill_count));
        if p.stroke_count > 0 {
            ops.push(GpuOp::Draw(DrawKind::TriangleStrip, p.stroke_offset, p.stroke_count));
        }
        proof {
            let k = j as int;
            assert(sub.skip(k)[0] == sub[k]);
            assert(sub[k] == paths@[off + k]);
            assert(sub.skip(k).drop_first() =~= sub.skip(k + 1));
            assert(old(ops)@ + spec_convex_draws(sub) =~= ops@ + spec_convex_draws(
                sub.skip(k + 1),
            ));
        }
        j = j + 1;
    }
    proof {
        assert(sub.skip(count as int) =~= Seq::<GLPath>::empty());
        assert(ops@ =~= old(ops)@ + spec_convex_draws(sub));
    }
}

/// Appends a vertex slice to the frame vertex buffer.
fn append_vertices(dst: &mut Vec<Vertex>, src: &[Vertex])
    ensures
        final(dst)@ == old(dst)@ + src@,
{
    let n = src.len();
    let mut i: usize = 0;
    assert(old(dst)@ + src@.take(0) =~= old(dst)@);
    while i < n
        invariant
            i <= n,
            n == src@.len(),
            dst@ == old(dst)@ + src@.take(i as int),
        decreases n - i,
    {
        dst.push(src[i]);
        i = i + 1;
        assert(dst@ =~= old(dst)@ + src@.take(i as int));
    }
    assert(src@.take(n as int) =~= src@);
}

/// After `cancel`, the recorder is in the same state as after `flush`:
/// whichever of the two emptied a frame, recorders that share a
/// configuration agree exactly.
pub proof fn lemma_cancel_matches_flush(a: RendererView, b: RendererView)
    requires
        a.textures == b.textures,
        a.view == b.view,
        a.frag_size == b.frag_size,
    ensures
        a.cleared() == b.cleared(),
{
}

} // verus!
