//! The two fixed pipelines: compositing into surfaces, and copying the
//! frame onto the window. Both draw every quad with the same triangles,
//! which face front under the pipelines' clockwise front face.

use vstd::prelude::*;
use crate::surface::rect_index_seq;

verus! {

/// How a drawn fragment combines with what the target holds.
#[derive(Clone, Copy, Debug, PartialEq, Eq, Structural)]
pub enum BlendMode {
    /// Straight alpha, source over destination.
    AlphaOver,
    /// The source overwrites the destination.
    Replace,
}

/// The pixel format a pipeline writes.
#[derive(Clone, Copy, Debug, PartialEq, Eq, Structural)]
pub enum TargetFormat {
    /// The surfaces' own format: RGBA8 with the sRGB transfer.
    Rgba8UnormSrgb,
    /// Whatever format the window's presentable surface was configured with.
    WindowSurface,
}

/// Which winding of a triangle, as seen on screen, faces the viewer.
#[derive(Clone, Copy, Debug, PartialEq, Eq, Structural)]
pub enum FrontFace {
    Clockwise,
    CounterClockwise,
}

/// Which triangles are dropped.
#[derive(Clone, Copy, Debug, PartialEq, Eq, Structural)]
pub enum CullMode {
    Back,
    Front,
    Nothing,
}

/// How vertices are assembled into primitives.
#[derive(Clone, Copy, Debug, PartialEq, Eq, Structural)]
pub enum Topology {
    /// Every three indices make one triangle.
    TriangleList,
}

/// The shader stage that reads a binding.
#[derive(Clone, Copy, Debug, PartialEq, Eq, Structural)]
pub enum ShaderStage {
    Vertex,
    Fragment,
}

/// What a binding of a bind group holds.
#[derive(Clone, Copy, Debug, PartialEq, Eq, Structural)]
pub enum BindingKind {
    /// A 2D floating-point image that may be filtered.
    SampledTexture,
    /// A sampler that does not filter.
    NonFilteringSampler,
    /// A uniform buffer.
    UniformBuffer,
}

/// One slot of a bind-group layout.
#[derive(Clone, Copy, Debug, PartialEq, Eq, Structural)]
pub struct BindingEntry {
    pub binding: u32,
    pub visibility: ShaderStage,
    pub kind: BindingKind,
}

/// The two fixed bind-group layouts.
#[derive(Clone, Copy, Debug, PartialEq, Eq, Structural)]
pub enum BindGroupLayoutKind {
    /// 0: the sampled image, 1: its sampler.
    Texture,
    /// 0: the per-draw uniform buffer.
    SpriteUniforms,
}

/// The entries of the "texture" layout: the image at 0, the sampler at 1,
/// both read by the fragment stage.
pub open spec fn texture_layout_entries() -> Seq<BindingEntry> {
    seq![
        BindingEntry { binding: 0, visibility: ShaderStage::Fragment, kind: BindingKind::SampledTexture },
        BindingEntry {
            binding: 1,
            visibility: ShaderStage::Fragment,
            kind: BindingKind::NonFilteringSampler,
        },
    ]
}

/// The entries of the "sprite uniforms" layout: the uniform buffer at 0,
/// read by the vertex stage.
pub open spec fn sprite_uniforms_layout_entries() -> Seq<BindingEntry> {
    seq![BindingEntry { binding: 0, visibility: ShaderStage::Vertex, kind: BindingKind::UniformBuffer }]
}

/// The entries of both fixed layouts.
#[derive(Clone, Debug)]
pub struct BindGroupLayouts {
    pub texture: Vec<BindingEntry>,
    pub sprite_uniforms: Vec<BindingEntry>,
}

impl BindGroupLayouts {
    /// The "texture" layout.
    pub fn texture() -> (r: Vec<BindingEntry>)
        ensures
            r@ == texture_layout_entries(),
    {
        let r = vec![
            BindingEntry { binding: 0, visibility: ShaderStage::Fragment, kind: BindingKind::SampledTexture },
            BindingEntry {
                binding: 1,
                visibility: ShaderStage::Fragment,
                kind: BindingKind::NonFilteringSampler,
            },
        ];
        proof {
            assert(r@ =~= texture_layout_entries());
        }
        r
    }

    /// The "sprite uniforms" layout.
    pub fn sprite_uniforms() -> (r: Vec<BindingEntry>)
        ensures
            r@ == sprite_uniforms_layout_entries(),
    {
        let r = vec![
            BindingEntry { binding: 0, visibility: ShaderStage::Vertex, kind: BindingKind::UniformBuffer },
        ];
        proof {
            assert(r@ =~= sprite_uniforms_layout_entries());
        }
        r
    }

    /// Both layouts.
    pub fn create() -> (r: BindGroupLayouts)
        ensures
            r.texture@ == texture_layout_entries(),
            r.sprite_uniforms@ == sprite_uniforms_layout_entries(),
    {
        BindGroupLayouts { texture: BindGroupLayouts::texture(), sprite_uniforms: BindGroupLayouts::sprite_uniforms() }
    }
}

/// The format of a vertex attribute.
#[derive(Clone, Copy, Debug, PartialEq, Eq, Structural)]
pub enum VertexFormat {
    /// Two 32-bit floats.
    Float32x2,
}

/// One attribute of a vertex, at a byte offset within it.
#[derive(Clone, Copy, Debug, PartialEq, Eq, Structural)]
pub struct VertexAttribute {
    pub offset: u64,
    pub shader_location: u32,
    pub format: VertexFormat,
}

/// How the vertices of a quad lie in their buffer.
#[derive(Clone, Copy, Debug, PartialEq, Eq, Structural)]
pub struct VertexLayout {
    /// Bytes from one vertex to the next.
    pub array_stride: u64,
    /// The point of the plane (or of the draw's own space).
    pub plane_coords: VertexAttribute,
    /// The texture coordinates sampled there.
    pub tex_coords: VertexAttribute,
}

/// The layout of every quad vertex: its plane point as two 32-bit floats at
/// location 0, then its texture coordinates likewise at location 1.
pub open spec fn quad_vertex_layout() -> VertexLayout {
    VertexLayout {
        array_stride: 16,
        plane_coords: VertexAttribute {
            offset: 0,
            shader_location: 0,
            format: VertexFormat::Float32x2,
        },
        tex_coords: VertexAttribute { offset: 8, shader_location: 1, format: VertexFormat::Float32x2 },
    }
}

/// The quad vertex layout.
pub fn quad_vertex_layout_desc() -> (r: VertexLayout)
    ensures
        r == quad_vertex_layout(),
{
    VertexLayout {
        array_stride: 16,
        plane_coords: VertexAttribute {
            offset: 0,
            shader_location: 0,
            format: VertexFormat::Float32x2,
        },
        tex_coords: VertexAttribute { offset: 8, shader_location: 1, format: VertexFormat::Float32x2 },
    }
}

/// The settings of a pipeline that decide what it draws.
#[derive(Clone, Debug)]
pub struct PipelineDescription {
    pub blend: BlendMode,
    pub target: TargetFormat,
    pub front_face: FrontFace,
    pub cull_mode: CullMode,
    pub topology: Topology,
    /// The layouts of bind groups 0, 1, ... in order.
    pub bind_group_layouts: Vec<BindGroupLayoutKind>,
    pub vertex_layout: VertexLayout,
}

/// The compositing pipeline and the window-refresh pipeline.
#[derive(Clone, Debug)]
pub struct Pipelines {
    pub draw_sprite: PipelineDescription,
    pub window_surface_refresh: PipelineDescription,
}

impl Pipelines {
    /// Sprites blend over surfaces in the surfaces' format, reading the
    /// source through the texture layout and the draw's uniforms through
    /// the sprite-uniforms layout; the frame replaces the window image in
    /// the window's format, reading the swap surface through the texture
    /// layout. Both draw triangle lists of quad vertices, keep clockwise
    /// triangles and drop the others.
    pub fn create() -> (r: Pipelines)
        ensures
            r.draw_sprite.blend == BlendMode::AlphaOver,
            r.draw_sprite.target == TargetFormat::Rgba8UnormSrgb,
            r.draw_sprite.bind_group_layouts@ == seq![
                BindGroupLayoutKind::Texture,
                BindGroupLayoutKind::SpriteUniforms,
            ],
            r.window_surface_refresh.blend == BlendMode::Replace,
            r.window_surface_refresh.target == TargetFormat::WindowSurface,
            r.window_surface_refresh.bind_group_layouts@ == seq![BindGroupLayoutKind::Texture],
            r.draw_sprite.front_face == FrontFace::Clockwise,
            r.draw_sprite.cull_mode == CullMode::Back,
            r.draw_sprite.topology == Topology::TriangleList,
            r.draw_sprite.vertex_layout == quad_vertex_layout(),
            r.window_surface_refresh.front_face == FrontFace::Clockwise,
            r.window_surface_refresh.cull_mode == CullMode::Back,
            r.window_surface_refresh.topology == Topology::TriangleList,
            r.window_surface_refresh.vertex_layout == quad_vertex_layout(),
    {
        let sprite_layouts = vec![BindGroupLayoutKind::Texture, BindGroupLayoutKind::SpriteUniforms];
        let refresh_layouts = vec![BindGroupLayoutKind::Texture];
        proof {
            assert(sprite_layouts@ =~= seq![
                BindGroupLayoutKind::Texture,
                BindGroupLayoutKind::SpriteUniforms,
            ]);
            assert(refresh_layouts@ =~= seq![BindGroupLayoutKind::Texture]);
        }
        Pipelines {
            draw_sprite: PipelineDescription {
                blend: BlendMode::AlphaOver,
                target: TargetFormat::Rgba8UnormSrgb,
                front_face: FrontFace::Clockwise,
                cull_mode: CullMode::Back,
                topology: Topology::TriangleList,
                bind_group_layouts: sprite_layouts,
                vertex_layout: quad_vertex_layout_desc(),
            },
            window_surface_refresh: PipelineDescription {
                blend: BlendMode::Replace,
                target: TargetFormat::WindowSurface,
                front_face: FrontFace::Clockwise,
                cull_mode: CullMode::Back,
                topology: Topology::TriangleList,
                bind_group_layouts: refresh_layouts,
                vertex_layout: quad_vertex_layout_desc(),
            },
        }
    }
}

/// Twice the signed area of the triangle `a, b, c` in a plane with `y`
/// growing upward: negative exactly when the triangle turns clockwise.
pub open spec fn signed_area2(a: (int, int), b: (int, int), c: (int, int)) -> int {
    (b.0 - a.0) * (c.1 - a.1) - (b.1 - a.1) * (c.0 - a.0)
}

/// The window quad's corners on the render plane (`y` upward), in the order
/// top-left, top-right, bottom-left, bottom-right.
pub open spec fn window_corners() -> Seq<(int, int)> {
    seq![(-1, 1), (1, 1), (-1, -1), (1, -1)]
}

/// The sprite quad's corners in the draw's own space, `y` downward, in the
/// same order, flipped to `y` upward as they reach the plane.
pub open spec fn sprite_corners() -> Seq<(int, int)> {
    seq![(0, 0), (1, 0), (0, -1), (1, -1)]
}

/// Triangle `t` of the quad with corners `corners`, drawn with the shared
/// index buffer, turns clockwise.
pub open spec fn triangle_clockwise(corners: Seq<(int, int)>, t: int) -> bool {
    let i = rect_index_seq();
    signed_area2(corners[i[3 * t] as int], corners[i[3 * t + 1] as int], corners[i[3 * t + 2] as int])
        < 0
}

/// Both triangles of both quads turn clockwise, so none is culled under the
/// pipelines' clockwise front face.
pub proof fn lemma_quads_face_front()
    ensures
        forall|t: int| 0 <= t < 2 ==> #[trigger] triangle_clockwise(window_corners(), t),
        forall|t: int| 0 <= t < 2 ==> #[trigger] triangle_clockwise(sprite_corners(), t),
{
    let i = rect_index_seq();
    assert(i[0] == 0 && i[1] == 1 && i[2] == 2 && i[3] == 1 && i[4] == 3 && i[5] == 2);
    let w = window_corners();
    assert(w[0] == (-1int, 1int) && w[1] == (1int, 1int) && w[2] == (-1int, -1int));
    assert(w[3] == (1int, -1int));
    assert(signed_area2(w[0], w[1], w[2]) == -4) by (nonlinear_arith)
        requires
            w[0] == (-1int, 1int) && w[1] == (1int, 1int) && w[2] == (-1int, -1int),
    ;
    assert(signed_area2(w[1], w[3], w[2]) == -4) by (nonlinear_arith)
        requires
            w[1] == (1int, 1int) && w[3] == (1int, -1int) && w[2] == (-1int, -1int),
    ;
    assert(triangle_clockwise(window_corners(), 0));
    assert(triangle_clockwise(window_corners(), 1));
    let c = sprite_corners();
    assert(c[0] == (0int, 0int) && c[1] == (1int, 0int) && c[2] == (0int, -1int));
    assert(c[3] == (1int, -1int));
    assert(signed_area2(c[0], c[1], c[2]) == -1) by (nonlinear_arith)
        requires
            c[0] == (0int, 0int) && c[1] == (1int, 0int) && c[2] == (0int, -1int),
    ;
    assert(signed_area2(c[1], c[3], c[2]) == -1) by (nonlinear_arith)
        requires
            c[1] == (1int, 0int) && c[3] == (1int, -1int) && c[2] == (0int, -1int),
    ;
    assert(triangle_clockwise(sprite_corners(), 0));
    assert(triangle_clockwise(sprite_corners(), 1));
}

} // verus!
