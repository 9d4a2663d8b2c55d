use nvg_gl::renderer::Renderer;
use nvg_gl::texture::FilterMode;
use nvg_gl::texture::PixelFormat;
use nvg_gl::texture::WrapMode;
use nvg_gl::texture::upload_plan;
use nvg_gl::types::IMAGE_GENERATE_MIPMAPS;
use nvg_gl::types::IMAGE_NEAREST;
use nvg_gl::types::IMAGE_REPEATX;
use nvg_gl::types::RendererError;
use nvg_gl::types::TextureType;

#[test]
fn create_then_size_returns_requested_size() {
    let mut r = Renderer::create(16);
    let a = r.create_texture(TextureType::RGBA, 640, 480, 0).unwrap();
    assert_eq!(r.texture_size(a), Ok((640, 480)));
    let b = r
        .create_texture(TextureType::Alpha, 33, 7, IMAGE_NEAREST | IMAGE_REPEATX)
        .unwrap();
    assert_eq!(r.texture_size(b), Ok((33, 7)));
    assert_eq!(r.texture_size(a), Ok((640, 480)));
}

#[test]
fn deleted_handle_fails_every_operation() {
    let mut r = Renderer::create(16);
    let h = r.create_texture(TextureType::RGBA, 8, 8, 0).unwrap();
    assert!(r.delete_texture(h).is_ok());
    assert_eq!(r.texture_size(h), Err(RendererError::TextureNotFound(h)));
    assert_eq!(
        r.update_texture(h, 0, 0, 4, 4),
        Err(RendererError::TextureNotFound(h))
    );
    assert_eq!(r.delete_texture(h), Err(RendererError::TextureNotFound(h)));
}

#[test]
fn unknown_handle_fails_every_operation() {
    let mut r = Renderer::create(16);
    assert_eq!(r.texture_size(42), Err(RendererError::TextureNotFound(42)));
    assert_eq!(
        r.update_texture(42, 0, 0, 1, 1),
        Err(RendererError::TextureNotFound(42))
    );
    assert_eq!(r.delete_texture(42), Err(RendererError::TextureNotFound(42)));
}

// Slot policy: deleted slots are recycled, so a stale handle whose slot has
// been reissued aliases the new texture; the tests document that behavior.
#[test]
fn deleted_slot_is_recycled_and_stale_handle_aliases() {
    let mut r = Renderer::create(16);
    let a = r.create_texture(TextureType::RGBA, 10, 10, 0).unwrap();
    let b = r.create_texture(TextureType::RGBA, 20, 20, 0).unwrap();
    assert_ne!(a, b);
    r.delete_texture(a).unwrap();
    let c = r.create_texture(TextureType::Alpha, 30, 31, 0).unwrap();
    assert_eq!(c, a);
    assert_eq!(r.texture_size(a), Ok((30, 31)));
    assert_eq!(r.texture_size(b), Ok((20, 20)));
}

#[test]
fn update_texture_resolves_component_layout() {
    let mut r = Renderer::create(16);
    let rgba = r.create_texture(TextureType::RGBA, 4, 4, 0).unwrap();
    let alpha = r.create_texture(TextureType::Alpha, 4, 4, 0).unwrap();
    assert_eq!(r.update_texture(rgba, 0, 0, 2, 2), Ok(PixelFormat::Rgba));
    assert_eq!(r.update_texture(alpha, 1, 1, 2, 2), Ok(PixelFormat::Red));
}

#[test]
fn upload_plan_resolves_filters_wraps_and_mipmaps() {
    let p = upload_plan(TextureType::RGBA, 0);
    assert_eq!(p.format, PixelFormat::Rgba);
    assert_eq!(p.min_filter, FilterMode::Linear);
    assert_eq!(p.mag_filter, FilterMode::Linear);
    assert_eq!(p.wrap_x, WrapMode::ClampToEdge);
    assert_eq!(p.wrap_y, WrapMode::ClampToEdge);
    assert!(!p.generate_mipmaps);

    let p = upload_plan(TextureType::Alpha, IMAGE_GENERATE_MIPMAPS | IMAGE_NEAREST);
    assert_eq!(p.format, PixelFormat::Red);
    assert_eq!(p.min_filter, FilterMode::NearestMipmapNearest);
    assert_eq!(p.mag_filter, FilterMode::Nearest);
    assert!(p.generate_mipmaps);

    let p = upload_plan(TextureType::RGBA, IMAGE_GENERATE_MIPMAPS);
    assert_eq!(p.min_filter, FilterMode::LinearMipmapLinear);
    assert_eq!(p.mag_filter, FilterMode::Linear);

    let p = upload_plan(TextureType::RGBA, IMAGE_NEAREST | IMAGE_REPEATX);
    assert_eq!(p.min_filter, FilterMode::Nearest);
    assert_eq!(p.wrap_x, WrapMode::Repeat);
    assert_eq!(p.wrap_y, WrapMode::ClampToEdge);
}
