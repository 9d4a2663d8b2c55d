use nvg_gl::paint::convert_paint;
use nvg_gl::texture::TextureTable;
use nvg_gl::types::Color;
use nvg_gl::types::Extent;
use nvg_gl::types::IMAGE_PREMULTIPLIED;
use nvg_gl::types::Paint;
use nvg_gl::types::Scissor;
use nvg_gl::types::TextureType;
use nvg_gl::types::Transform;

fn bits(x: f32) -> u32 {
    x.to_bits()
}

fn color(r: f32, g: f32, b: f32, a: f32) -> Color {
    Color { r: bits(r), g: bits(g), b: bits(b), a: bits(a) }
}

fn xform(m: [f32; 6]) -> Transform {
    Transform {
        m0: bits(m[0]),
        m1: bits(m[1]),
        m2: bits(m[2]),
        m3: bits(m[3]),
        m4: bits(m[4]),
        m5: bits(m[5]),
    }
}

fn identity() -> Transform {
    xform([1.0, 0.0, 0.0, 1.0, 0.0, 0.0])
}

fn no_scissor() -> Scissor {
    Scissor {
        xform: xform([3.0, 0.5, -2.0, 1.5, 40.0, 9.0]),
        extent: Extent { width: bits(-1.0), height: bits(-1.0) },
    }
}

fn solid_paint(c: Color) -> Paint {
    Paint {
        xform: identity(),
        extent: Extent { width: bits(0.0), height: bits(0.0) },
        radius: bits(0.0),
        feather: bits(1.0),
        inner_color: c,
        outer_color: c,
        image: None,
    }
}

#[test]
fn sentinel_scissor_yields_passthrough_values() {
    let t = TextureTable::new();
    let paint = solid_paint(color(1.0, 0.0, 0.0, 1.0));
    let frag = convert_paint(
        &t,
        &paint,
        &no_scissor(),
        bits(1.0),
        bits(1.0),
        bits(-1.0),
    );
    assert_eq!(frag.scissor_ext_x, bits(1.0));
    assert_eq!(frag.scissor_ext_y, bits(1.0));
    assert_eq!(frag.scissor_scale_x, bits(1.0));
    assert_eq!(frag.scissor_scale_y, bits(1.0));
}

#[test]
fn sentinel_triggers_on_either_dimension() {
    let t = TextureTable::new();
    let paint = solid_paint(color(0.0, 1.0, 0.0, 1.0));
    let scissor = Scissor {
        xform: identity(),
        extent: Extent { width: bits(100.0), height: bits(-2.0) },
    };
    let frag = convert_paint(&t, &paint, &scissor, bits(1.0), bits(1.0), bits(-1.0));
    assert_eq!(frag.scissor_ext_x, bits(1.0));
    assert_eq!(frag.scissor_scale_y, bits(1.0));
}

#[test]
fn real_scissor_stores_extent_and_scale() {
    let t = TextureTable::new();
    let paint = solid_paint(color(0.0, 0.0, 1.0, 1.0));
    let scissor = Scissor {
        xform: identity(),
        extent: Extent { width: bits(120.0), height: bits(80.0) },
    };
    let frag = convert_paint(&t, &paint, &scissor, bits(1.0), bits(1.0), bits(-1.0));
    assert_eq!(frag.scissor_ext_x, bits(120.0));
    assert_eq!(frag.scissor_ext_y, bits(80.0));
    // identity columns have magnitude 1; scale = sqrt(1)/fringe = 1
    assert_eq!(frag.scissor_scale_x, bits(1.0));
    assert_eq!(frag.scissor_scale_y, bits(1.0));
}

#[test]
fn colors_are_premultiplied_by_alpha() {
    let t = TextureTable::new();
    let mut paint = solid_paint(color(0.6, 0.4, 0.2, 0.5));
    paint.outer_color = color(0.1, 0.9, 0.7, 0.25);
    let frag = convert_paint(
        &t,
        &paint,
        &no_scissor(),
        bits(1.0),
        bits(1.0),
        bits(-1.0),
    );
    assert_eq!(frag.inner_color.r, bits(0.6f32 * 0.5f32));
    assert_eq!(frag.inner_color.g, bits(0.4f32 * 0.5f32));
    assert_eq!(frag.inner_color.b, bits(0.2f32 * 0.5f32));
    assert_eq!(frag.inner_color.a, bits(0.5));
    assert_eq!(frag.outer_color.r, bits(0.1f32 * 0.25f32));
    assert_eq!(frag.outer_color.g, bits(0.9f32 * 0.25f32));
    assert_eq!(frag.outer_color.b, bits(0.7f32 * 0.25f32));
    assert_eq!(frag.outer_color.a, bits(0.25));
}

#[test]
fn gradient_paint_inverts_its_transform() {
    let t = TextureTable::new();
    let mut paint = solid_paint(color(1.0, 1.0, 1.0, 1.0));
    paint.xform = xform([1.0, 0.0, 0.0, 1.0, 5.0, 7.0]);
    paint.radius = bits(4.5);
    paint.feather = bits(2.5);
    let frag = convert_paint(
        &t,
        &paint,
        &no_scissor(),
        bits(1.0),
        bits(1.0),
        bits(-1.0),
    );
    // the inverse of a translation by (5, 7) translates by (-5, -7)
    assert_eq!(frag.paint_mat.m0, bits(1.0));
    assert_eq!(frag.paint_mat.m5, bits(1.0));
    assert_eq!(frag.paint_mat.m8, bits(-5.0));
    assert_eq!(frag.paint_mat.m9, bits(-7.0));
    assert_eq!(frag.paint_mat.m10, bits(1.0));
    assert_eq!(frag.radius, bits(4.5));
    assert_eq!(frag.feather, bits(2.5));
    assert_eq!(frag.shader_type, 0); // gradient mode
    assert_eq!(frag.tex_type, 0);
}

#[test]
fn scaling_scissor_divides_fringe_into_column_magnitude() {
    let t = TextureTable::new();
    let paint = solid_paint(color(1.0, 1.0, 1.0, 1.0));
    let scissor = Scissor {
        xform: xform([3.0, 0.0, 0.0, 4.0, 0.0, 0.0]),
        extent: Extent { width: bits(10.0), height: bits(10.0) },
    };
    let frag = convert_paint(&t, &paint, &scissor, bits(1.0), bits(2.0), bits(-1.0));
    assert_eq!(frag.scissor_scale_x, bits(3.0f32 / 2.0f32));
    assert_eq!(frag.scissor_scale_y, bits(4.0f32 / 2.0f32));
}

#[test]
fn stroke_mult_combines_width_and_fringe() {
    let t = TextureTable::new();
    let paint = solid_paint(color(1.0, 1.0, 1.0, 1.0));
    let frag = convert_paint(
        &t,
        &paint,
        &no_scissor(),
        bits(3.0),
        bits(1.0),
        bits(-1.0),
    );
    assert_eq!(frag.stroke_mult, bits((3.0f32 * 0.5 + 1.0 * 0.5) / 1.0));
    assert_eq!(frag.stroke_thr, bits(-1.0));
}

#[test]
fn image_paint_selects_sampling_tag() {
    let mut t = TextureTable::new();
    let plain = t.create(TextureType::RGBA, 4, 4, 0);
    let premul = t.create(TextureType::RGBA, 4, 4, IMAGE_PREMULTIPLIED);
    let alpha = t.create(TextureType::Alpha, 4, 4, 0);

    let mut paint = solid_paint(color(1.0, 1.0, 1.0, 1.0));
    paint.image = Some(premul);
    let frag = convert_paint(
        &t,
        &paint,
        &no_scissor(),
        bits(1.0),
        bits(1.0),
        bits(-1.0),
    );
    assert_eq!(frag.shader_type, 1); // image mode
    assert_eq!(frag.tex_type, 0);

    paint.image = Some(plain);
    let frag = convert_paint(
        &t,
        &paint,
        &no_scissor(),
        bits(1.0),
        bits(1.0),
        bits(-1.0),
    );
    assert_eq!(frag.tex_type, 1);

    paint.image = Some(alpha);
    let frag = convert_paint(
        &t,
        &paint,
        &no_scissor(),
        bits(1.0),
        bits(1.0),
        bits(-1.0),
    );
    assert_eq!(frag.tex_type, 2);
}

#[test]
fn stale_image_handle_falls_back_to_gradient_tag() {
    let mut t = TextureTable::new();
    let h = t.create(TextureType::RGBA, 4, 4, 0);
    t.remove(h).unwrap();
    let mut paint = solid_paint(color(1.0, 1.0, 1.0, 1.0));
    paint.image = Some(h);
    let frag = convert_paint(
        &t,
        &paint,
        &no_scissor(),
        bits(1.0),
        bits(1.0),
        bits(-1.0),
    );
    assert_eq!(frag.shader_type, 0);
    assert_eq!(frag.tex_type, 0);
    // identity fallback for the paint matrix
    assert_eq!(frag.paint_mat.m0, bits(1.0));
    assert_eq!(frag.paint_mat.m5, bits(1.0));
    assert_eq!(frag.paint_mat.m8, bits(0.0));
}

#[test]
fn flipped_image_pattern_compensates_orientation() {
    let mut t = TextureTable::new();
    let h = t.create(TextureType::RGBA, 4, 4, nvg_gl::types::IMAGE_FLIPY);
    let mut paint = solid_paint(color(1.0, 1.0, 1.0, 1.0));
    paint.image = Some(h);
    paint.extent = Extent { width: bits(8.0), height: bits(10.0) };
    let frag = convert_paint(
        &t,
        &paint,
        &no_scissor(),
        bits(1.0),
        bits(1.0),
        bits(-1.0),
    );
    // an identity paint transform conjugated with the flip about the
    // pattern's center line inverts to [1, 0, 0, -1, 0, 10]
    assert_eq!(frag.paint_mat.m0, bits(1.0));
    assert_eq!(frag.paint_mat.m1, bits(0.0));
    assert_eq!(frag.paint_mat.m4, bits(0.0));
    assert_eq!(frag.paint_mat.m5, bits(-1.0));
    assert_eq!(frag.paint_mat.m9, bits(10.0));
    assert_eq!(frag.extent_x, bits(8.0));
    assert_eq!(frag.extent_y, bits(10.0));
    assert_eq!(frag.shader_type, 1);
}
