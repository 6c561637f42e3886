use std::rc::Rc;
use sprite_renderer::coords::{PixelCoordinates, PixelDimensions, Ratio};
use sprite_renderer::error::RenderError;
use sprite_renderer::sprite::{Sprite, TextureCoordinates};
use sprite_renderer::surface::{
    rect_indices, resolve_uniforms, PixelSurface, Rotation, SpriteRotation, SurfaceState, Vertex2d,
};
use sprite_renderer::pipelines::VertexFormat;
use sprite_renderer::texture::{Texture, TextureManager};

fn dims(width: u32, height: u32) -> PixelDimensions {
    PixelDimensions { width, height }
}

fn red_sprite(manager: &mut TextureManager, width: u32, height: u32) -> Sprite {
    let rgba = [255u8, 0, 0, 255].repeat((width * height) as usize);
    let upload = manager.create_texture(rgba, dims(width, height)).unwrap();
    Sprite::from_texture(upload.texture)
}

#[test]
fn new_surface_is_clean_and_transparent() {
    let mut manager = TextureManager::create(5, 4096);
    let (surface, upload) = PixelSurface::new_pixel_surface(&mut manager, 20, 10).unwrap();
    assert_eq!(surface.state, SurfaceState::Clean);
    assert_eq!(surface.dimensions, dims(20, 10));
    assert_eq!(surface.surface_texture.id, 5);
    assert_eq!(manager.next_id, 6);
    assert_eq!(upload.rgba.len(), 20 * 10 * 4);
    assert!(upload.rgba.iter().all(|b| *b == 0));
    assert_eq!(upload.bytes_per_row, 80);
    assert_eq!(upload.rows_per_image, 10);
    assert_eq!(*upload.texture, *surface.surface_texture);
}

#[test]
fn empty_or_oversized_surface_is_refused() {
    let mut manager = TextureManager::create(0, 64);
    for (w, h) in [(0, 10), (10, 0), (65, 10), (10, 65)] {
        let r = PixelSurface::new_pixel_surface(&mut manager, w, h);
        assert_eq!(r.err().map(|e| e), Some(RenderError::Upload));
    }
    assert_eq!(manager.next_id, 0);
}

#[test]
fn clear_makes_surface_clean_again() {
    let mut manager = TextureManager::create(0, 4096);
    let sprite = red_sprite(&mut manager, 2, 2);
    let (mut surface, _) = PixelSurface::new_pixel_surface(&mut manager, 20, 20).unwrap();
    surface.draw_sprite(&sprite, None, None, None);
    assert_eq!(surface.state, SurfaceState::Populated);
    let pass = surface.clear();
    assert_eq!(pass.target, surface.surface_texture.id);
    assert_eq!(surface.state, SurfaceState::Clean);
}

#[test]
fn opaque_sprite_drawn_at_position() {
    let mut manager = TextureManager::create(0, 4096);
    let sprite = red_sprite(&mut manager, 10, 10);
    let (mut surface, _) = PixelSurface::new_pixel_surface(&mut manager, 20, 20).unwrap();
    surface.clear();
    let pass = surface.draw_sprite(&sprite, Some(PixelCoordinates { x: 5, y: 5 }), None, None);
    assert_eq!(pass.target, surface.surface_texture.id);
    assert_eq!(pass.source, sprite.texture.id);
    assert_eq!(pass.uniforms.render_target_dimensions, dims(20, 20));
    assert_eq!(pass.uniforms.position, PixelCoordinates { x: 5, y: 5 });
    assert_eq!(pass.uniforms.dimensions, dims(10, 10));
    assert_eq!(pass.uniforms.rotation, Rotation::Turn(Ratio { num: 0, den: 1 }));
    assert_eq!(pass.uniforms.rotation_center, PixelCoordinates { x: 0, y: 0 });
    assert_eq!(pass.indices, [0, 1, 2, 1, 3, 2]);
    assert_eq!(pass.vertices[0].tex_coords, TextureCoordinates::top_left());
    assert_eq!(pass.vertices[3].plane_coords.x, Ratio { num: 1, den: 1 });
    assert_eq!(pass.vertices[3].plane_coords.y, Ratio { num: 1, den: 1 });
    assert_eq!(surface.state, SurfaceState::Populated);
}

#[test]
fn later_sprite_drawn_over_earlier_at_same_place() {
    let mut manager = TextureManager::create(0, 4096);
    let a = red_sprite(&mut manager, 4, 4);
    let b = red_sprite(&mut manager, 4, 4);
    let (mut surface, _) = PixelSurface::new_pixel_surface(&mut manager, 8, 8).unwrap();
    let at = Some(PixelCoordinates { x: 2, y: 2 });
    let first = surface.draw_sprite(&a, at, Some(dims(4, 4)), None);
    let second = surface.draw_sprite(&b, at, Some(dims(4, 4)), None);
    assert_eq!(first.source, a.texture.id);
    assert_eq!(second.source, b.texture.id);
    assert_ne!(first.source, second.source);
    assert_eq!(first.uniforms, second.uniforms);
}

#[test]
fn draw_options_take_their_defaults() {
    let target = dims(40, 30);
    let source = dims(7, 9);
    let u = resolve_uniforms(target, source, None, None, None);
    assert_eq!(u.position, PixelCoordinates { x: 0, y: 0 });
    assert_eq!(u.dimensions, source);
    assert_eq!(u.rotation, Rotation::Turn(Ratio { num: 0, den: 1 }));
    let quarter = SpriteRotation::by_fraction(Ratio { num: 1, den: 4 }, None);
    let u = resolve_uniforms(target, source, Some(PixelCoordinates { x: -3, y: 4 }), Some(dims(14, 18)), Some(quarter));
    assert_eq!(u.position, PixelCoordinates { x: -3, y: 4 });
    assert_eq!(u.dimensions, dims(14, 18));
    assert_eq!(u.rotation, Rotation::Turn(Ratio { num: 1, den: 4 }));
    assert_eq!(u.rotation_center, PixelCoordinates { x: 0, y: 0 });
    let about = SpriteRotation::by_fraction(Ratio { num: 1, den: 2 }, Some(PixelCoordinates { x: 5, y: 6 }));
    let u = resolve_uniforms(target, source, None, None, Some(about));
    assert_eq!(u.rotation_center, PixelCoordinates { x: 5, y: 6 });
    assert_eq!(u.render_target_dimensions, target);
}

#[test]
fn surface_cannot_be_drawn_into_itself() {
    let mut manager = TextureManager::create(0, 4096);
    let sprite = red_sprite(&mut manager, 2, 2);
    let (mut surface, _) = PixelSurface::new_pixel_surface(&mut manager, 16, 16).unwrap();
    surface.draw_sprite(&sprite, None, None, None);
    let alias = surface.clone();
    let r = surface.draw_subsurface(&alias, None, None, None);
    assert_eq!(r.err(), Some(RenderError::Aliasing));
    assert_eq!(surface.state, SurfaceState::Populated);
    assert_eq!(surface.dimensions, dims(16, 16));
    let (mut clean, _) = PixelSurface::new_pixel_surface(&mut manager, 16, 16).unwrap();
    let alias = clean.clone();
    assert_eq!(clean.draw_subsurface(&alias, None, None, None).err(), Some(RenderError::Aliasing));
    assert_eq!(clean.state, SurfaceState::Clean);
}

#[test]
fn subsurface_drawn_whole() {
    let mut manager = TextureManager::create(0, 4096);
    let (mut target, _) = PixelSurface::new_pixel_surface(&mut manager, 32, 32).unwrap();
    let (inner, _) = PixelSurface::new_pixel_surface(&mut manager, 8, 4).unwrap();
    let pass = target.draw_subsurface(&inner, Some(PixelCoordinates { x: 1, y: 2 }), None, None).unwrap();
    assert_eq!(pass.source, inner.surface_texture.id);
    assert_eq!(pass.target, target.surface_texture.id);
    assert_eq!(pass.uniforms.dimensions, dims(8, 4));
    assert_eq!(pass.vertices[1].tex_coords, TextureCoordinates::top_right());
    assert_eq!(pass.vertices[2].tex_coords, TextureCoordinates::bottom_left());
    assert_eq!(target.state, SurfaceState::Populated);
}

#[test]
fn rect_indices_are_shared() {
    assert_eq!(rect_indices(), [0, 1, 2, 1, 3, 2]);
}

#[test]
fn sprite_from_surface_texture() {
    let mut manager = TextureManager::create(0, 4096);
    let (surface, _) = PixelSurface::new_pixel_surface(&mut manager, 16, 16).unwrap();
    let tex = Rc::new(Texture { id: 40, dimensions: dims(32, 32) });
    let sprite = surface.create_sprite(tex, None).unwrap();
    assert_eq!(sprite.dimensions, dims(32, 32));
}

#[test]
fn index_buffer_holds_indices_in_machine_order() {
    let bytes = sprite_renderer::surface::index_buffer_bytes(&[0, 1, 2, 1, 3, 0x0102]);
    assert_eq!(bytes.len(), 12);
    let back: Vec<u16> = bytes.chunks(2).map(|c| u16::from_ne_bytes([c[0], c[1]])).collect();
    assert_eq!(back, vec![0, 1, 2, 1, 3, 0x0102]);
    if u16::from_ne_bytes([1, 0]) == 1 {
        assert_eq!(bytes, vec![0, 0, 1, 0, 2, 0, 1, 0, 3, 0, 2, 1]);
    } else {
        assert_eq!(bytes, vec![0, 0, 0, 1, 0, 2, 0, 1, 0, 3, 1, 2]);
    }
}

#[test]
fn rotation_from_matrix_keeps_columns() {
    let r = |n: i64| Ratio { num: n, den: 1 };
    let m = SpriteRotation::from_matrix([[r(0), r(1)], [r(-1), r(0)]], Some(PixelCoordinates { x: 2, y: 3 }));
    assert_eq!(m.rotation, Rotation::Matrix(r(0), r(1), r(-1), r(0)));
    let u = resolve_uniforms(dims(10, 10), dims(2, 2), None, None, Some(m));
    assert_eq!(u.rotation, Rotation::Matrix(r(0), r(1), r(-1), r(0)));
    assert_eq!(u.rotation_center, PixelCoordinates { x: 2, y: 3 });
}

#[test]
fn quad_vertex_layout() {
    let l = Vertex2d::desc();
    assert_eq!(l.array_stride, 16);
    assert_eq!(l.plane_coords.offset, 0);
    assert_eq!(l.plane_coords.shader_location, 0);
    assert_eq!(l.tex_coords.offset, 8);
    assert_eq!(l.tex_coords.shader_location, 1);
    assert_eq!(l.tex_coords.format, VertexFormat::Float32x2);
}
