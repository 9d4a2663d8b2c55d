use nvg_gl::renderer::Renderer;
use nvg_gl::types::Blend;
use nvg_gl::types::BlendFactor;
use nvg_gl::types::CompositeOperationState;
use nvg_gl::types::Vertex;
use nvg_gl::types::contains_flag;
use nvg_gl::types::IMAGE_FLIPY;
use nvg_gl::types::IMAGE_NEAREST;
use nvg_gl::uniforms::ShaderType;

#[test]
fn edge_antialias_is_reported() {
    let r = Renderer::create(16);
    assert!(r.edge_antialias());
}

#[test]
fn frag_size_rounds_up_to_alignment() {
    // a packed block is 176 bytes; the stride adds one alignment unit
    // minus the remainder
    assert_eq!(Renderer::create(16).frag_size(), 192);
    assert_eq!(Renderer::create(256).frag_size(), 256);
    assert_eq!(Renderer::create(1).frag_size(), 177);
}

#[test]
fn blend_keeps_the_four_factors() {
    let state = CompositeOperationState {
        src_rgb: BlendFactor::SrcAlpha,
        dst_rgb: BlendFactor::OneMinusSrcAlpha,
        src_alpha: BlendFactor::One,
        dst_alpha: BlendFactor::SrcAlphaSaturate,
    };
    let b = Blend::from_state(state);
    assert_eq!(b.src_rgb, BlendFactor::SrcAlpha);
    assert_eq!(b.dst_rgb, BlendFactor::OneMinusSrcAlpha);
    assert_eq!(b.src_alpha, BlendFactor::One);
    assert_eq!(b.dst_alpha, BlendFactor::SrcAlphaSaturate);
}

#[test]
fn vertex_new_stores_position_and_texcoord() {
    let v = Vertex::new(1, 2, 3, 4);
    assert_eq!(v.x, 1);
    assert_eq!(v.y, 2);
    assert_eq!(v.u, 3);
    assert_eq!(v.v, 4);
}

#[test]
fn flags_are_single_bits() {
    let flags = IMAGE_FLIPY | IMAGE_NEAREST;
    assert!(contains_flag(flags, IMAGE_FLIPY));
    assert!(contains_flag(flags, IMAGE_NEAREST));
    assert!(!contains_flag(flags, nvg_gl::types::IMAGE_REPEATX));
}

#[test]
fn shader_type_tags_match_the_shader() {
    assert_eq!(ShaderType::FillGradient.value(), 0);
    assert_eq!(ShaderType::FillImage.value(), 1);
    assert_eq!(ShaderType::Simple.value(), 2);
    assert_eq!(ShaderType::Image.value(), 3);
}
