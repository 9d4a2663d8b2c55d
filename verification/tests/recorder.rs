use nvg_gl::calls::CallType;
use nvg_gl::calls::DrawKind;
use nvg_gl::calls::GpuOp;
use nvg_gl::renderer::Renderer;
use nvg_gl::types::BlendFactor;
use nvg_gl::types::Bounds;
use nvg_gl::types::Color;
use nvg_gl::types::CompositeOperationState;
use nvg_gl::types::Extent;
use nvg_gl::types::Paint;
use nvg_gl::types::Path;
use nvg_gl::types::Point;
use nvg_gl::types::Scissor;
use nvg_gl::types::Transform;
use nvg_gl::types::Vertex;

fn bits(x: f32) -> u32 {
    x.to_bits()
}

fn identity() -> Transform {
    Transform {
        m0: bits(1.0),
        m1: bits(0.0),
        m2: bits(0.0),
        m3: bits(1.0),
        m4: bits(0.0),
        m5: bits(0.0),
    }
}

fn no_scissor() -> Scissor {
    Scissor {
        xform: identity(),
        extent: Extent { width: bits(-1.0), height: bits(-1.0) },
    }
}

fn red_paint() -> Paint {
    Paint {
        xform: identity(),
        extent: Extent { width: bits(0.0), height: bits(0.0) },
        radius: bits(0.0),
        feather: bits(1.0),
        inner_color: Color { r: bits(1.0), g: bits(0.0), b: bits(0.0), a: bits(1.0) },
        outer_color: Color { r: bits(1.0), g: bits(0.0), b: bits(0.0), a: bits(1.0) },
        image: None,
    }
}

fn src_over() -> CompositeOperationState {
    CompositeOperationState {
        src_rgb: BlendFactor::One,
        dst_rgb: BlendFactor::OneMinusSrcAlpha,
        src_alpha: BlendFactor::One,
        dst_alpha: BlendFactor::OneMinusSrcAlpha,
    }
}

fn v(x: f32, y: f32) -> Vertex {
    Vertex { x: bits(x), y: bits(y), u: bits(0.5), v: bits(1.0) }
}

fn triangle_path(convex: bool) -> Path {
    Path {
        fill: vec![v(10.0, 10.0), v(100.0, 10.0), v(55.0, 90.0)],
        stroke: vec![],
        convex,
    }
}

fn bounds() -> Bounds {
    Bounds {
        min: Point { x: bits(10.0), y: bits(10.0) },
        max: Point { x: bits(100.0), y: bits(90.0) },
    }
}

// The byte offset of the stroke threshold within a packed uniform block:
// word 41 of the 44-word layout.
const STROKE_THR_OFFSET: usize = 41 * 4;

#[test]
fn convex_path_downgrades_to_convex_fill() {
    let mut r = Renderer::create(16);
    r.fill(&red_paint(), src_over(), &no_scissor(), bits(1.0), bounds(), &[triangle_path(true)])
        .unwrap();
    assert_eq!(r.calls().len(), 1);
    assert_eq!(r.calls()[0].call_type, CallType::ConvexFill);
}

#[test]
fn non_convex_path_records_general_fill() {
    let mut r = Renderer::create(16);
    r.fill(&red_paint(), src_over(), &no_scissor(), bits(1.0), bounds(), &[triangle_path(false)])
        .unwrap();
    assert_eq!(r.calls().len(), 1);
    assert_eq!(r.calls()[0].call_type, CallType::Fill);
}

#[test]
fn two_convex_paths_still_record_general_fill() {
    let mut r = Renderer::create(16);
    r.fill(
        &red_paint(),
        src_over(),
        &no_scissor(),
        bits(1.0),
        bounds(),
        &[triangle_path(true), triangle_path(true)],
    )
    .unwrap();
    assert_eq!(r.calls()[0].call_type, CallType::Fill);
}

#[test]
fn fill_scenario_records_quad_ranges_and_two_blocks() {
    let mut r = Renderer::create(16);
    r.viewport(Extent { width: bits(800.0), height: bits(600.0) }, bits(1.0)).unwrap();
    r.fill(&red_paint(), src_over(), &no_scissor(), bits(1.0), bounds(), &[triangle_path(false)])
        .unwrap();

    assert_eq!(r.calls().len(), 1);
    let call = r.calls()[0];
    assert_eq!(call.call_type, CallType::Fill);
    assert_eq!(call.path_offset, 0);
    assert_eq!(call.path_count, 1);
    // the bounding quad's 4 vertices follow the 3 fill vertices
    assert_eq!(r.vertexes().len(), 7);
    assert_eq!(call.triangle_offset, 3);
    assert_eq!(call.triangle_count, 4);
    // one path range covering the fill fan
    assert_eq!(r.paths().len(), 1);
    let gl = r.paths()[0];
    assert_eq!(gl.fill_offset, 0);
    assert_eq!(gl.fill_count, 3);
    assert_eq!(gl.stroke_count, 0);
    // two uniform blocks: the stencil-only block, then the cover paint
    assert_eq!(r.uniforms().len(), 2 * r.frag_size());
    assert_eq!(call.uniform_offset, 0);
    let u = r.uniforms();
    let thr0 = &u[STROKE_THR_OFFSET..STROKE_THR_OFFSET + 4];
    assert_eq!(thr0, &(-1.0f32).to_bits().to_le_bytes());
    // the stencil block carries the Simple mode tag, the cover block the gradient tag
    let tag0 = &u[43 * 4..44 * 4];
    assert_eq!(tag0, &2u32.to_le_bytes());
    let tag1 = &u[r.frag_size() + 43 * 4..r.frag_size() + 44 * 4];
    assert_eq!(tag1, &0u32.to_le_bytes());
}

#[test]
fn stroke_scenario_records_two_threshold_blocks() {
    let mut r = Renderer::create(16);
    let strip: Vec<Vertex> = (0..10).map(|i| v(i as f32, 2.0 * i as f32)).collect();
    let path = Path { fill: vec![], stroke: strip, convex: false };
    r.stroke(&red_paint(), src_over(), &no_scissor(), bits(1.0), bits(3.0), &[path]).unwrap();

    assert_eq!(r.calls().len(), 1);
    let call = r.calls()[0];
    assert_eq!(call.call_type, CallType::Stroke);
    assert_eq!(call.path_count, 1);
    assert_eq!(r.vertexes().len(), 10);
    assert_eq!(r.paths().len(), 1);
    assert_eq!(r.paths()[0].stroke_offset, 0);
    assert_eq!(r.paths()[0].stroke_count, 10);

    assert_eq!(r.uniforms().len(), 2 * r.frag_size());
    let u = r.uniforms();
    let thr0 = &u[STROKE_THR_OFFSET..STROKE_THR_OFFSET + 4];
    assert_eq!(thr0, &(-1.0f32).to_bits().to_le_bytes());
    let thr1 = &u[r.frag_size() + STROKE_THR_OFFSET..r.frag_size() + STROKE_THR_OFFSET + 4];
    assert_eq!(thr1, &(1.0f32 - 0.5f32 / 255.0f32).to_bits().to_le_bytes());
}

#[test]
fn stroke_only_records_ranges_for_paths_with_geometry() {
    let mut r = Renderer::create(16);
    let empty = Path { fill: vec![], stroke: vec![], convex: false };
    let full = Path { fill: vec![], stroke: vec![v(0.0, 0.0), v(1.0, 1.0)], convex: false };
    r.stroke(&red_paint(), src_over(), &no_scissor(), bits(1.0), bits(1.0), &[empty, full])
        .unwrap();
    assert_eq!(r.paths().len(), 1);
    assert_eq!(r.calls()[0].path_count, 1);
}

#[test]
fn triangles_records_flat_run_with_image_tag() {
    let mut r = Renderer::create(16);
    let verts = vec![v(0.0, 0.0), v(1.0, 0.0), v(0.0, 1.0)];
    r.triangles(&red_paint(), src_over(), &no_scissor(), &verts).unwrap();
    assert_eq!(r.calls().len(), 1);
    let call = r.calls()[0];
    assert_eq!(call.call_type, CallType::Triangles);
    assert_eq!(call.triangle_offset, 0);
    assert_eq!(call.triangle_count, 3);
    assert_eq!(r.uniforms().len(), r.frag_size());
    // the block is retagged with the Image shader mode
    let tag = &r.uniforms()[43 * 4..44 * 4];
    assert_eq!(tag, &3u32.to_le_bytes());
}

#[test]
fn uniform_blocks_stay_stride_aligned() {
    let mut r = Renderer::create(48);
    // 176 rounded up into whole 48-byte units: 176 + 48 - (176 % 48)
    assert_eq!(r.frag_size(), 192);
    for _ in 0..3 {
        r.fill(&red_paint(), src_over(), &no_scissor(), bits(1.0), bounds(), &[triangle_path(false)])
            .unwrap();
        assert_eq!(r.uniforms().len() % r.frag_size(), 0);
    }
    r.stroke(
        &red_paint(),
        src_over(),
        &no_scissor(),
        bits(1.0),
        bits(2.0),
        &[triangle_path(false)],
    )
    .unwrap();
    assert_eq!(r.uniforms().len() % r.frag_size(), 0);
}

#[test]
fn cancel_discards_a_frame_and_flush_executes_only_the_next() {
    let mut r = Renderer::create(16);
    // frame one: a general fill and a stroke — then cancelled
    r.fill(&red_paint(), src_over(), &no_scissor(), bits(1.0), bounds(), &[triangle_path(false)])
        .unwrap();
    r.stroke(
        &red_paint(),
        src_over(),
        &no_scissor(),
        bits(1.0),
        bits(2.0),
        &[triangle_path(false)],
    )
    .unwrap();
    r.cancel().unwrap();
    assert_eq!(r.calls().len(), 0);
    assert_eq!(r.paths().len(), 0);
    assert_eq!(r.vertexes().len(), 0);
    assert_eq!(r.uniforms().len(), 0);

    // frame two: a single triangle blit
    let verts = vec![v(0.0, 0.0), v(1.0, 0.0), v(0.0, 1.0)];
    r.triangles(&red_paint(), src_over(), &no_scissor(), &verts).unwrap();
    let log = r.flush();

    // only the second frame's call executes: one blend set, one draw, and
    // it is the flat triangle draw
    let blends = log.ops.iter().filter(|o| matches!(o, GpuOp::SetBlend(_))).count();
    assert_eq!(blends, 1);
    let draws: Vec<&GpuOp> = log.ops.iter().filter(|o| matches!(o, GpuOp::Draw(..))).collect();
    assert_eq!(draws.len(), 1);
    assert_eq!(*draws[0], GpuOp::Draw(DrawKind::Triangles, 0, 3));
    assert_eq!(log.vertexes.len(), 3);
}

#[test]
fn flush_on_empty_frame_plans_nothing() {
    let mut r = Renderer::create(16);
    let log = r.flush();
    assert_eq!(log.ops.len(), 0);
    assert_eq!(log.vertexes.len(), 0);
    assert_eq!(log.uniforms.len(), 0);
}

#[test]
fn flush_clears_the_recorder_for_the_next_frame() {
    let mut r = Renderer::create(16);
    r.fill(&red_paint(), src_over(), &no_scissor(), bits(1.0), bounds(), &[triangle_path(true)])
        .unwrap();
    let log = r.flush();
    assert!(log.ops.len() > 0);
    assert_eq!(r.calls().len(), 0);
    assert_eq!(r.paths().len(), 0);
    assert_eq!(r.vertexes().len(), 0);
    assert_eq!(r.uniforms().len(), 0);
}

#[test]
fn flush_plans_the_stencil_fill_sequence_in_order() {
    let mut r = Renderer::create(16);
    r.viewport(Extent { width: bits(800.0), height: bits(600.0) }, bits(1.0)).unwrap();
    r.fill(&red_paint(), src_over(), &no_scissor(), bits(1.0), bounds(), &[triangle_path(false)])
        .unwrap();
    let log = r.flush();
    let ops = &log.ops;

    // frame prelude, in order
    assert_eq!(ops[0], GpuOp::BindProgram);
    assert_eq!(ops[1], GpuOp::SetBaselineState);
    assert_eq!(ops[2], GpuOp::UploadUniformBuffer);
    assert_eq!(ops[3], GpuOp::UploadVertexBuffer);
    assert_eq!(
        ops[4],
        GpuOp::SetViewUniform(Extent { width: bits(800.0), height: bits(600.0) })
    );
    assert_eq!(*ops.last().unwrap(), GpuOp::ResetState);

    // the stencil accumulation pass draws the fan with color writes off,
    // then the cover quad is drawn and the stencil test ends
    let fan = ops
        .iter()
        .position(|o| *o == GpuOp::Draw(DrawKind::TriangleFan, 0, 3))
        .expect("fan draw");
    let off = ops
        .iter()
        .position(|o| *o == GpuOp::ColorMask(false))
        .expect("color writes disabled");
    let on = ops.iter().position(|o| *o == GpuOp::ColorMask(true)).expect("color writes enabled");
    let quad = ops
        .iter()
        .position(|o| *o == GpuOp::Draw(DrawKind::TriangleStrip, 3, 4))
        .expect("cover quad draw");
    let end = ops.iter().position(|o| *o == GpuOp::DisableStencil).expect("stencil disabled");
    assert!(off < fan && fan < on && on < quad && quad < end);
}

#[test]
fn flush_executes_calls_in_submission_order() {
    let mut r = Renderer::create(16);
    r.fill(&red_paint(), src_over(), &no_scissor(), bits(1.0), bounds(), &[triangle_path(true)])
        .unwrap();
    let verts = vec![v(0.0, 0.0), v(1.0, 0.0), v(0.0, 1.0)];
    r.triangles(&red_paint(), src_over(), &no_scissor(), &verts).unwrap();
    let log = r.flush();
    let ops = &log.ops;
    let convex_fan = ops
        .iter()
        .position(|o| *o == GpuOp::Draw(DrawKind::TriangleFan, 0, 3))
        .expect("convex fan");
    let blit = ops
        .iter()
        .position(|o| *o == GpuOp::Draw(DrawKind::Triangles, 3, 3))
        .expect("triangle blit");
    assert!(convex_fan < blit);
}

#[test]
fn flush_plans_the_three_pass_stroke_sequence() {
    let mut r = Renderer::create(16);
    let strip: Vec<Vertex> = (0..4).map(|i| v(i as f32, i as f32)).collect();
    let path = Path { fill: vec![], stroke: strip, convex: false };
    r.stroke(&red_paint(), src_over(), &no_scissor(), bits(1.0), bits(2.0), &[path]).unwrap();
    let log = r.flush();
    let strip_draws: Vec<usize> = log
        .ops
        .iter()
        .enumerate()
        .filter(|(_, o)| **o == GpuOp::Draw(DrawKind::TriangleStrip, 0, 4))
        .map(|(i, _)| i)
        .collect();
    // the same strip is drawn three times: near-opaque fill, antialiased
    // edge, stencil clear
    assert_eq!(strip_draws.len(), 3);
    // the first pass binds the second (near-opaque) block, the second
    // pass the first (edge) block
    let bind1 = log.ops.iter().position(|o| *o == GpuOp::BindUniformRange(1)).unwrap();
    let bind0 = log.ops.iter().position(|o| *o == GpuOp::BindUniformRange(0)).unwrap();
    assert!(bind1 < strip_draws[0] && strip_draws[0] < bind0 && bind0 < strip_draws[1]);
    // the clearing pass draws with color writes disabled
    let off = log.ops.iter().position(|o| *o == GpuOp::ColorMask(false)).unwrap();
    assert!(strip_draws[1] < off && off < strip_draws[2]);
    let end = log.ops.iter().rposition(|o| *o == GpuOp::DisableStencil).unwrap();
    assert!(strip_draws[2] < end);
}
