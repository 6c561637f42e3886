//! Pixel surfaces: offscreen render targets that are also textures, and the
//! render passes that clear them or composite a sprite or another surface
//! into them.

use vstd::prelude::*;
use std::rc::Rc;
use crate::coords::{PixelCoordinates, PixelDimensions, Ratio, RenderPlaneCoordinates};
use crate::error::RenderError;
use crate::sprite::{full_texture_uvs, Sprite, SpriteTextureArea, TextureCoordinates};
use crate::pipelines::{quad_vertex_layout, quad_vertex_layout_desc, VertexLayout};
use crate::texture::{Texture, TextureManager, TextureUpload};

verus! {

/// A linear map of the plane turning sprites.
#[derive(Clone, Copy, Debug, PartialEq, Eq, Structural)]
pub enum Rotation {
    /// By a fraction of a full turn: `1/4` is a quarter turn.
    Turn(Ratio),
    /// By a 2x2 matrix given as its two columns, `(a, b)` then `(c, d)`,
    /// mapping `(x, y)` to `(a x + c y, b x + d y)`.
    Matrix(Ratio, Ratio, Ratio, Ratio),
}

/// A rotation of a sprite about a pixel of the target.
#[derive(Clone, Copy, Debug, PartialEq, Eq, Structural)]
pub struct SpriteRotation {
    pub rotation: Rotation,
    /// The pixel of the target to turn about; the top-left corner when `None`.
    pub rotation_center: Option<PixelCoordinates>,
}

impl SpriteRotation {
    /// A rotation by `fraction` of a full turn about `rotation_center`.
    pub fn by_fraction(fraction: Ratio, rotation_center: Option<PixelCoordinates>) -> (r:
        SpriteRotation)
        ensures
            r.rotation == Rotation::Turn(fraction),
            r.rotation_center == rotation_center,
    {
        SpriteRotation { rotation: Rotation::Turn(fraction), rotation_center }
    }

    /// The map given by `rotation_matrix`, its columns in order, about
    /// `rotation_center`.
    pub fn from_matrix(
        rotation_matrix: [[Ratio; 2]; 2],
        rotation_center: Option<PixelCoordinates>,
    ) -> (r: SpriteRotation)
        ensures
            r.rotation == Rotation::Matrix(
                rotation_matrix[0][0],
                rotation_matrix[0][1],
                rotation_matrix[1][0],
                rotation_matrix[1][1],
            ),
            r.rotation_center == rotation_center,
    {
        SpriteRotation {
            rotation: Rotation::Matrix(
                rotation_matrix[0][0],
                rotation_matrix[0][1],
                rotation_matrix[1][0],
                rotation_matrix[1][1],
            ),
            rotation_center,
        }
    }
}

/// The parameters of one draw, as the compositing shader receives them.
#[derive(Clone, Copy, Debug, PartialEq, Eq, Structural)]
pub struct SpriteUniforms {
    /// The size of the surface drawn into.
    pub render_target_dimensions: PixelDimensions,
    pub position: PixelCoordinates,
    pub dimensions: PixelDimensions,
    pub rotation_center: PixelCoordinates,
    pub rotation: Rotation,
}

/// The uniforms of a draw into a target of dimensions `target` from a source
/// of dimensions `source`, each option left out taking its default: the
/// top-left corner, the source's own size, no rotation about the top-left corner.
pub open spec fn resolved_uniforms(
    target: PixelDimensions,
    source: PixelDimensions,
    position: Option<PixelCoordinates>,
    dimensions: Option<PixelDimensions>,
    rotation: Option<SpriteRotation>,
) -> SpriteUniforms {
    let top_left = PixelCoordinates { x: 0, y: 0 };
    SpriteUniforms {
        render_target_dimensions: target,
        position: match position {
            Some(p) => p,
            None => top_left,
        },
        dimensions: match dimensions {
            Some(d) => d,
            None => source,
        },
        rotation_center: match rotation {
            Some(r) => match r.rotation_center {
                Some(c) => c,
                None => top_left,
            },
            None => top_left,
        },
        rotation: match rotation {
            Some(r) => r.rotation,
            None => Rotation::Turn(Ratio { num: 0, den: 1 }),
        },
    }
}

/// Fills in the defaults of a draw's options, once, before anything is drawn.
pub fn resolve_uniforms(
    target: PixelDimensions,
    source: PixelDimensions,
    position: Option<PixelCoordinates>,
    dimensions: Option<PixelDimensions>,
    rotation: Option<SpriteRotation>,
) -> (r: SpriteUniforms)
    ensures
        r == resolved_uniforms(target, source, position, dimensions, rotation),
{
    let position = match position {
        Some(p) => p,
        None => PixelCoordinates::top_left(),
    };
    let dimensions = match dimensions {
        Some(d) => d,
        None => source,
    };
    let (rotation, rotation_center) = match rotation {
        Some(r) => (
            r.rotation,
            match r.rotation_center {
                Some(c) => c,
                None => PixelCoordinates::top_left(),
            },
        ),
        None => (Rotation::Turn(Ratio::whole(0)), PixelCoordinates::top_left()),
    };
    SpriteUniforms {
        render_target_dimensions: target,
        position,
        dimensions,
        rotation_center,
        rotation,
    }
}

/// A corner of the unit quad, paired with the texture coordinates it samples.
#[derive(Clone, Copy, Debug, PartialEq, Eq, Structural)]
pub struct Vertex2d {
    pub plane_coords: RenderPlaneCoordinates,
    pub tex_coords: TextureCoordinates,
}

impl Vertex2d {
    /// How these vertices lie in the vertex buffer.
    pub fn desc() -> (r: VertexLayout)
        ensures
            r == quad_vertex_layout(),
    {
        quad_vertex_layout_desc()
    }
}

/// The point `(x, y)` of the plane, as whole numbers.
pub open spec fn plane_point(x: int, y: int) -> RenderPlaneCoordinates {
    RenderPlaneCoordinates { x: Ratio { num: x as i64, den: 1 }, y: Ratio { num: y as i64, den: 1 } }
}

/// The unit quad in the draw's own space, `(0, 0)` to `(1, 1)` with `y`
/// growing downward, its corners (top-left, top-right, bottom-left,
/// bottom-right) sampling `uvs` in the same order.
pub open spec fn quad_vertices(uvs: Seq<TextureCoordinates>) -> Seq<Vertex2d> {
    seq![
        Vertex2d { plane_coords: plane_point(0, 0), tex_coords: uvs[0] },
        Vertex2d { plane_coords: plane_point(1, 0), tex_coords: uvs[1] },
        Vertex2d { plane_coords: plane_point(0, 1), tex_coords: uvs[2] },
        Vertex2d { plane_coords: plane_point(1, 1), tex_coords: uvs[3] },
    ]
}

/// The two triangles of a quad whose corners come in the order top-left,
/// top-right, bottom-left, bottom-right; every quad is drawn with these.
pub open spec fn rect_index_seq() -> Seq<u16> {
    seq![0u16, 1, 2, 1, 3, 2]
}

/// The index buffer of every quad.
pub fn rect_indices() -> (r: [u16; 6])
    ensures
        r@ == rect_index_seq(),
{
    let r: [u16; 6] = [0, 1, 2, 1, 3, 2];
    proof {
        assert(r@ =~= rect_index_seq());
    }
    r
}

/// `bytes` hold `values`, two bytes each, all in one byte order: the
/// machine's own, least or most significant byte first.
pub open spec fn holds_u16s(bytes: Seq<u8>, values: Seq<u16>) -> bool {
    &&& bytes.len() == 2 * values.len()
    &&& {
        ||| forall|i: int|
            0 <= i < values.len() ==> #[trigger] values[i] == bytes[2 * i] + 256 * bytes[2 * i + 1]
        ||| forall|i: int|
            0 <= i < values.len() ==> #[trigger] values[i] == 256 * bytes[2 * i] + bytes[2 * i + 1]
    }
}

/// Relies on bytemuck::cast_slice from `u16` to `u8`, which reinterprets the
/// indices in place as their bytes in the machine's byte order; the cast
/// cannot fail, since bytes need no alignment and fit any length.
#[verifier::external_body]
fn u16_bytes(values: &[u16; 6]) -> (r: Vec<u8>)
    ensures
        holds_u16s(r@, values@),
{
    bytemuck::cast_slice::<u16, u8>(values).to_vec()
}

/// The bytes of an index buffer holding `indices`, as the GPU reads them.
pub fn index_buffer_bytes(indices: &[u16; 6]) -> (r: Vec<u8>)
    ensures
        holds_u16s(r@, indices@),
{
    u16_bytes(indices)
}

fn quad(uvs: &[TextureCoordinates; 4]) -> (r: [Vertex2d; 4])
    ensures
        r@ == quad_vertices(uvs@),
{
    let zero = Ratio::whole(0);
    let one = Ratio::whole(1);
    let r = [
        Vertex2d { plane_coords: RenderPlaneCoordinates { x: zero, y: zero }, tex_coords: uvs[0] },
        Vertex2d { plane_coords: RenderPlaneCoordinates { x: one, y: zero }, tex_coords: uvs[1] },
        Vertex2d { plane_coords: RenderPlaneCoordinates { x: zero, y: one }, tex_coords: uvs[2] },
        Vertex2d { plane_coords: RenderPlaneCoordinates { x: one, y: one }, tex_coords: uvs[3] },
    ];
    proof {
        assert(r@ =~= quad_vertices(uvs@));
    }
    r
}

/// One render pass that blends a textured quad over what a surface already
/// holds: the target's contents are loaded, not cleared.
#[derive(Clone, Copy, Debug)]
pub struct DrawPass {
    /// The texture drawn into.
    pub target: u64,
    /// The texture sampled.
    pub source: u64,
    pub uniforms: SpriteUniforms,
    pub vertices: [Vertex2d; 4],
    pub indices: [u16; 6],
}

/// One render pass that overwrites a whole surface with transparent black.
#[derive(Clone, Copy, Debug, PartialEq, Eq, Structural)]
pub struct ClearPass {
    /// The texture cleared.
    pub target: u64,
}

/// Whether a surface holds anything since it was made or last cleared.
#[derive(Clone, Copy, Debug, PartialEq, Eq, Structural)]
pub enum SurfaceState {
    Clean,
    Populated,
}

/// An offscreen render target that can also be sampled as a texture.
#[derive(Clone)]
pub struct PixelSurface {
    pub surface_texture: Rc<Texture>,
    pub dimensions: PixelDimensions,
    pub state: SurfaceState,
    /// The draws blended into the surface since it was made or last cleared,
    /// oldest first; before them it is transparent black.
    pub drawn: Ghost<Seq<DrawPass>>,
}

impl PixelSurface {
    /// The identity of the texture behind the surface.
    pub open spec fn id(self) -> u64 {
        self.surface_texture.id
    }

    /// The surface matches its texture, is clean exactly when nothing has
    /// been drawn into it, and every recorded draw targeted it.
    pub open spec fn wf(self) -> bool {
        &&& self.surface_texture.wf()
        &&& self.surface_texture.dimensions == self.dimensions
        &&& (self.state == SurfaceState::Clean <==> self.drawn@.len() == 0)
        &&& forall|i: int| 0 <= i < self.drawn@.len() ==> #[trigger] self.drawn@[i].target == self.id()
    }

    /// A transparent black surface of the given size, with the bytes to upload
    /// into its texture.
    pub fn new_pixel_surface(textures: &mut TextureManager, width: u32, height: u32) -> (r: Result<
        (PixelSurface, TextureUpload),
        RenderError,
    >)
        ensures
            !old(textures).can_create(PixelDimensions { width, height }) ==> r == Err::<
                (PixelSurface, TextureUpload),
                RenderError,
            >(RenderError::Upload) && *final(textures) == *old(textures),
            old(textures).can_create(PixelDimensions { width, height }) ==> {
                &&& r is Ok
                &&& final(textures).next_id == old(textures).next_id + 1
                &&& final(textures).max_dimension == old(textures).max_dimension
            },
            r matches Ok((s, u)) ==> {
                &&& s.wf()
                &&& u.wf()
                &&& s.id() == old(textures).next_id
                &&& s.dimensions == PixelDimensions { width, height }
                &&& s.state == SurfaceState::Clean
                &&& *u.texture == *s.surface_texture
                &&& forall|i: int| 0 <= i < u.rgba@.len() ==> u.rgba@[i] == 0u8
            },
    {
        let dimensions = PixelDimensions { width, height };
        match textures.allocate(dimensions) {
            Err(e) => Err(e),
            Ok(texture) => {
                let rgba = crate::texture::transparent_rgba8(width, height);
                let surface_texture = Rc::new(texture);
                let upload_texture = Rc::clone(&surface_texture);
                let surface = PixelSurface {
                    surface_texture,
                    dimensions,
                    state: SurfaceState::Clean,
                    drawn: Ghost(Seq::empty()),
                };
                let upload = TextureUpload {
                    texture: upload_texture,
                    rgba,
                    bytes_per_row: 4 * width,
                    rows_per_image: height,
                };
                Ok((surface, upload))
            },
        }
    }

    /// Overwrites the surface with transparent black.
    pub fn clear(&mut self) -> (r: ClearPass)
        requires
            old(self).wf(),
        ensures
            r.target == old(self).id(),
            final(self).wf(),
            final(self).surface_texture == old(self).surface_texture,
            final(self).dimensions == old(self).dimensions,
            final(self).state == SurfaceState::Clean,
            final(self).drawn@ == Seq::<DrawPass>::empty(),
    {
        self.state = SurfaceState::Clean;
        self.drawn = Ghost(Seq::empty());
        ClearPass { target: self.surface_texture.id }
    }

    /// Blends `sprite` over the surface at `position` (the top-left corner by
    /// default), scaled to `dimensions` (the sprite's own by default) and
    /// turned by `rotation` (none by default).
    pub fn draw_sprite(
        &mut self,
        sprite: &Sprite,
        position: Option<PixelCoordinates>,
        dimensions: Option<PixelDimensions>,
        rotation: Option<SpriteRotation>,
    ) -> (r: DrawPass)
        requires
            old(self).wf(),
        ensures
            r.target == old(self).id(),
            r.source == sprite.texture.id,
            r.uniforms == resolved_uniforms(
                old(self).dimensions,
                sprite.dimensions,
                position,
                dimensions,
                rotation,
            ),
            r.vertices@ == quad_vertices(sprite.vertices@),
            r.indices@ == rect_index_seq(),
            final(self).wf(),
            final(self).surface_texture == old(self).surface_texture,
            final(self).dimensions == old(self).dimensions,
            final(self).state == SurfaceState::Populated,
            final(self).drawn@ == old(self).drawn@.push(r),
    {
        let uniforms = resolve_uniforms(
            self.dimensions,
            sprite.dimensions,
            position,
            dimensions,
            rotation,
        );
        let pass = DrawPass {
            target: self.surface_texture.id,
            source: sprite.texture.id,
            uniforms,
            vertices: quad(&sprite.vertices),
            indices: rect_indices(),
        };
        self.record(pass);
        pass
    }

    /// Blends the whole of `subsurface` over this surface, with the same
    /// options as `draw_sprite`; a surface cannot be drawn into itself.
    pub fn draw_subsurface(
        &mut self,
        subsurface: &PixelSurface,
        position: Option<PixelCoordinates>,
        dimensions: Option<PixelDimensions>,
        rotation: Option<SpriteRotation>,
    ) -> (r: Result<DrawPass, RenderError>)
        requires
            old(self).wf(),
        ensures
            subsurface.id() == old(self).id() ==> r == Err::<DrawPass, RenderError>(
                RenderError::Aliasing,
            ) && *final(self) == *old(self),
            subsurface.id() != old(self).id() ==> r is Ok,
            r matches Ok(pass) ==> {
                &&& pass.target == old(self).id()
                &&& pass.source == subsurface.id()
                &&& pass.uniforms == resolved_uniforms(
                    old(self).dimensions,
                    subsurface.dimensions,
                    position,
                    dimensions,
                    rotation,
                )
                &&& pass.vertices@ == quad_vertices(full_texture_uvs())
                &&& pass.indices@ == rect_index_seq()
                &&& final(self).surface_texture == old(self).surface_texture
                &&& final(self).dimensions == old(self).dimensions
                &&& final(self).state == SurfaceState::Populated
                &&& final(self).drawn@ == old(self).drawn@.push(pass)
            },
            final(self).wf(),
    {
        if subsurface.surface_texture.id == self.surface_texture.id {
            return Err(RenderError::Aliasing);
        }
        let uniforms = resolve_uniforms(
            self.dimensions,
            subsurface.dimensions,
            position,
            dimensions,
            rotation,
        );
        let uvs = [
            TextureCoordinates::top_left(),
            TextureCoordinates::top_right(),
            TextureCoordinates::bottom_left(),
            TextureCoordinates::bottom_right(),
        ];
        proof {
            assert(uvs@ =~= full_texture_uvs());
        }
        let pass = DrawPass {
            target: self.surface_texture.id,
            source: subsurface.surface_texture.id,
            uniforms,
            vertices: quad(&uvs),
            indices: rect_indices(),
        };
        self.record(pass);
        Ok(pass)
    }

    fn record(&mut self, pass: DrawPass)
        requires
            old(self).wf(),
            pass.target == old(self).id(),
        ensures
            final(self).wf(),
            final(self).surface_texture == old(self).surface_texture,
            final(self).dimensions == old(self).dimensions,
            final(self).state == SurfaceState::Populated,
            final(self).drawn@ == old(self).drawn@.push(pass),
    {
        self.state = SurfaceState::Populated;
        self.drawn = Ghost(self.drawn@.push(pass));
        proof {
            assert forall|i: int| 0 <= i < self.drawn@.len() implies #[trigger] self.drawn@[i].target
                == self.id() by {
                if i < old(self).drawn@.len() {
                    assert(self.drawn@[i] == old(self).drawn@[i]);
                }
            }
        }
    }

    /// A sprite over `texture_area` of `texture`, or over all of it.
    pub fn create_sprite(&self, texture: Rc<Texture>, texture_area: Option<SpriteTextureArea>) -> (r:
        Result<Sprite, RenderError>)
        ensures
            match texture_area {
                Some(a) if !a.within(texture.dimensions) => r == Err::<Sprite, RenderError>(
                    RenderError::AreaOutOfBounds,
                ),
                _ => r is Ok && r->Ok_0.views(*texture, texture_area),
            },
    {
        Sprite::create(texture, texture_area)
    }
}

} // verus!
