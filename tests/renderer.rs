use sprite_renderer::coords::{PixelCoordinates, PixelDimensions};
use sprite_renderer::error::RenderError;
use sprite_renderer::events::{
    handle_window_event, recover_from_present, EventAction, PresentRecovery, WindowEvent,
};
use sprite_renderer::pipelines::{
    BindGroupLayoutKind, BindGroupLayouts, BindingKind, BlendMode, CullMode, FrontFace, Pipelines,
    ShaderStage, TargetFormat, Topology,
};
use sprite_renderer::renderer::{
    choose_surface_format, initial_surface_dimensions, Renderer, SurfaceAcquire, WindowRefreshVertex,
};
use sprite_renderer::sprite::TextureCoordinates;
use sprite_renderer::coords::RenderPlaneCoordinates;
use sprite_renderer::surface::SurfaceState;

fn dims(width: u32, height: u32) -> PixelDimensions {
    PixelDimensions { width, height }
}

#[test]
fn empty_window_gets_fallback_size() {
    assert_eq!(initial_surface_dimensions(dims(0, 600)), dims(300, 150));
    assert_eq!(initial_surface_dimensions(dims(800, 0)), dims(300, 150));
    assert_eq!(initial_surface_dimensions(dims(800, 600)), dims(800, 600));
}

#[test]
fn renderer_starts_with_window_sized_swap_surface() {
    let (renderer, upload) = Renderer::new(dims(640, 480), 8192).unwrap();
    assert_eq!(renderer.swap_surface().dimensions, dims(640, 480));
    assert_eq!(renderer.swap_surface().state, SurfaceState::Clean);
    assert_eq!(upload.rgba.len(), 640 * 480 * 4);
    assert_eq!(*upload.texture, *renderer.swap_surface().surface_texture);
    assert_eq!(Renderer::new(dims(640, 480), 512).err().map(|e| e), Some(RenderError::Upload));
}

#[test]
fn present_shows_swap_surface() {
    let (renderer, _) = Renderer::new(dims(64, 48), 8192).unwrap();
    let pass = renderer.present(SurfaceAcquire::Ready).unwrap();
    assert_eq!(pass.output_dimensions, dims(64, 48));
    assert_eq!(pass.source, renderer.swap_surface().surface_texture.id);
    assert_eq!(pass.indices, [0, 1, 2, 1, 3, 2]);
    assert_eq!(pass.vertices[0].output_coords, RenderPlaneCoordinates::top_left());
    assert_eq!(pass.vertices[0].texture_coords, TextureCoordinates::top_left());
    assert_eq!(pass.vertices[3].output_coords, RenderPlaneCoordinates::bottom_right());
    assert_eq!(pass.vertices[3].texture_coords, TextureCoordinates::bottom_right());
}

#[test]
fn present_maps_acquire_failures() {
    let (renderer, _) = Renderer::new(dims(64, 48), 8192).unwrap();
    assert_eq!(renderer.present(SurfaceAcquire::Outdated).err(), Some(RenderError::SurfaceLost));
    assert_eq!(renderer.present(SurfaceAcquire::Lost).err(), Some(RenderError::SurfaceLost));
    assert_eq!(renderer.present(SurfaceAcquire::Timeout).err(), Some(RenderError::SurfaceLost));
    assert_eq!(renderer.present(SurfaceAcquire::OutOfMemory).err(), Some(RenderError::DeviceLost));
}

#[test]
fn present_after_window_resize_needs_resize() {
    let (mut renderer, _) = Renderer::new(dims(640, 480), 8192).unwrap();
    let old_id = renderer.swap_surface().surface_texture.id;
    renderer.window_resized(dims(800, 600));
    assert_eq!(renderer.present(SurfaceAcquire::Ready).err(), Some(RenderError::SurfaceLost));
    let upload = renderer.resize(dims(800, 600)).unwrap();
    assert_eq!(upload.texture.dimensions, dims(800, 600));
    let pass = renderer.present(SurfaceAcquire::Ready).unwrap();
    assert_eq!(pass.output_dimensions, dims(800, 600));
    assert_ne!(renderer.swap_surface().surface_texture.id, old_id);
    assert_eq!(renderer.swap_surface().dimensions, dims(800, 600));
}

#[test]
fn failed_resize_leaves_renderer_as_it_was() {
    let (mut renderer, _) = Renderer::new(dims(64, 64), 128).unwrap();
    assert_eq!(renderer.resize(dims(256, 64)).err().map(|e| e), Some(RenderError::Upload));
    assert_eq!(renderer.swap_surface().dimensions, dims(64, 64));
    assert!(renderer.present(SurfaceAcquire::Ready).is_ok());
}

#[test]
fn renderer_draws_into_swap_surface() {
    let (mut renderer, _) = Renderer::new(dims(32, 32), 8192).unwrap();
    let upload = renderer.create_subsurface(8, 8).unwrap();
    let sub = upload.0;
    let pass = renderer.draw_subsurface(&sub, Some(PixelCoordinates { x: 4, y: 4 }), None, None).unwrap();
    assert_eq!(pass.target, renderer.swap_surface().surface_texture.id);
    assert_eq!(pass.uniforms.render_target_dimensions, dims(32, 32));
    let swap = renderer.swap_surface().clone();
    assert_eq!(renderer.draw_subsurface(&swap, None, None, None).err(), Some(RenderError::Aliasing));
    let tex = renderer.create_subsurface(4, 4).unwrap().1.texture;
    let sprite = renderer.create_sprite(tex, None).unwrap();
    let pass = renderer.draw_sprite(&sprite, None, None, None);
    assert_eq!(pass.source, sprite.texture.id);
    assert_eq!(pass.uniforms.dimensions, dims(4, 4));
    renderer.clear();
    assert_eq!(renderer.swap_surface().state, SurfaceState::Clean);
}

#[test]
fn renderer_load_texture_rejects_garbage() {
    let (mut renderer, _) = Renderer::new(dims(32, 32), 8192).unwrap();
    assert_eq!(renderer.load_texture(b"not an image").err(), Some(RenderError::Decode));
}

#[test]
fn window_events_map_to_actions() {
    assert_eq!(handle_window_event(WindowEvent::RedrawRequested), EventAction::Render);
    assert_eq!(handle_window_event(WindowEvent::Resized(dims(10, 20))), EventAction::Resize(dims(10, 20)));
    assert_eq!(handle_window_event(WindowEvent::Resized(dims(0, 20))), EventAction::Ignore);
    assert_eq!(handle_window_event(WindowEvent::CloseRequested), EventAction::Exit);
    assert_eq!(handle_window_event(WindowEvent::AboutToWait), EventAction::RequestRedraw);
    assert_eq!(handle_window_event(WindowEvent::Other), EventAction::Ignore);
}

#[test]
fn pipelines_blend_and_cull() {
    let p = Pipelines::create();
    assert_eq!(p.draw_sprite.blend, BlendMode::AlphaOver);
    assert_eq!(p.draw_sprite.target, TargetFormat::Rgba8UnormSrgb);
    assert_eq!(p.window_surface_refresh.blend, BlendMode::Replace);
    assert_eq!(p.window_surface_refresh.target, TargetFormat::WindowSurface);
    assert_eq!(p.draw_sprite.front_face, FrontFace::Clockwise);
    assert_eq!(p.window_surface_refresh.cull_mode, CullMode::Back);
    assert_eq!(p.draw_sprite.bind_group_layouts, vec![BindGroupLayoutKind::Texture, BindGroupLayoutKind::SpriteUniforms]);
    assert_eq!(p.window_surface_refresh.bind_group_layouts, vec![BindGroupLayoutKind::Texture]);
    assert_eq!(p.draw_sprite.topology, Topology::TriangleList);
    assert_eq!(p.window_surface_refresh.topology, Topology::TriangleList);
    assert_eq!(p.window_surface_refresh.vertex_layout, WindowRefreshVertex::desc());
    assert_eq!(p.draw_sprite.vertex_layout, WindowRefreshVertex::desc());
}

#[test]
fn fixed_bind_group_layouts() {
    let l = BindGroupLayouts::create();
    assert_eq!(l.texture.len(), 2);
    assert_eq!(l.texture[0].binding, 0);
    assert_eq!(l.texture[0].kind, BindingKind::SampledTexture);
    assert_eq!(l.texture[1].binding, 1);
    assert_eq!(l.texture[1].kind, BindingKind::NonFilteringSampler);
    assert_eq!(l.texture[1].visibility, ShaderStage::Fragment);
    assert_eq!(l.sprite_uniforms.len(), 1);
    assert_eq!(l.sprite_uniforms[0].kind, BindingKind::UniformBuffer);
    assert_eq!(l.sprite_uniforms[0].visibility, ShaderStage::Vertex);
}

#[test]
fn device_loss_wins_over_stale_size() {
    let (mut renderer, _) = Renderer::new(dims(64, 48), 8192).unwrap();
    renderer.window_resized(dims(100, 100));
    assert_eq!(renderer.present(SurfaceAcquire::OutOfMemory).err(), Some(RenderError::DeviceLost));
    assert_eq!(renderer.present(SurfaceAcquire::Ready).err(), Some(RenderError::SurfaceLost));
}

#[test]
fn new_and_resized_swap_surfaces_are_transparent() {
    let (mut renderer, upload) = Renderer::new(dims(4, 3), 64).unwrap();
    assert!(upload.rgba.iter().all(|b| *b == 0));
    let upload = renderer.resize(dims(5, 2)).unwrap();
    assert_eq!(upload.rgba.len(), 40);
    assert!(upload.rgba.iter().all(|b| *b == 0));
}

#[test]
fn surface_format_prefers_srgb() {
    assert_eq!(choose_surface_format(&vec![false, true, true]), Some(1));
    assert_eq!(choose_surface_format(&vec![false, false]), Some(0));
    assert_eq!(choose_surface_format(&vec![true]), Some(0));
    assert_eq!(choose_surface_format(&vec![]), None);
}

#[test]
fn present_failures_recover_or_propagate() {
    assert_eq!(recover_from_present(RenderError::SurfaceLost, dims(8, 6)), PresentRecovery::Resize(dims(8, 6)));
    assert_eq!(recover_from_present(RenderError::SurfaceLost, dims(0, 6)), PresentRecovery::Skip);
    assert_eq!(recover_from_present(RenderError::DeviceLost, dims(8, 6)), PresentRecovery::Fail(RenderError::DeviceLost));
}
