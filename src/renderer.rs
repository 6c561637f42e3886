//! The renderer: the swap surface that holds the composed frame, the texture
//! identities, and the decisions around the window's presentable surface.

use vstd::prelude::*;
use std::rc::Rc;
use crate::coords::{PixelCoordinates, PixelDimensions, RenderPlaneCoordinates};
use crate::error::RenderError;
use crate::sprite::{full_texture_uvs, Sprite, SpriteTextureArea, TextureCoordinates};
use crate::surface::{
    plane_point, quad_vertices, rect_index_seq, rect_indices, resolved_uniforms, ClearPass,
    DrawPass, PixelSurface, SpriteRotation, SurfaceState,
};
use crate::pipelines::{quad_vertex_layout, quad_vertex_layout_desc, VertexLayout};
use crate::texture::{allocatable, decoded_size, Texture, TextureManager, TextureUpload};

verus! {

/// The side lengths used when the window reports an empty size.
pub const FALLBACK_WIDTH: u32 = 300;

pub const FALLBACK_HEIGHT: u32 = 150;

/// The size of the first swap surface for a window of size `window`.
pub open spec fn initial_dimensions_of(window: PixelDimensions) -> PixelDimensions {
    if window.non_empty() {
        window
    } else {
        PixelDimensions { width: FALLBACK_WIDTH, height: FALLBACK_HEIGHT }
    }
}

/// The window's size, or the fallback size where the window reports an empty one.
pub fn initial_surface_dimensions(window: PixelDimensions) -> (r: PixelDimensions)
    ensures
        r == initial_dimensions_of(window),
        r.non_empty(),
{
    if window.width > 0 && window.height > 0 {
        window
    } else {
        PixelDimensions { width: FALLBACK_WIDTH, height: FALLBACK_HEIGHT }
    }
}

/// What acquiring the next presentable image of the window gave.
#[derive(Clone, Copy, Debug, PartialEq, Eq, Structural)]
pub enum SurfaceAcquire {
    /// An image to draw the frame into.
    Ready,
    /// No image came in time.
    Timeout,
    /// The surface no longer matches the window.
    Outdated,
    /// The surface is gone and has to be configured again.
    Lost,
    /// The device has no memory left.
    OutOfMemory,
}

/// What presenting does: the size of the image shown, or why nothing is shown.
/// A lost device is reported first, as it cannot be recovered from; else
/// presenting needs the presentable surface configured to the window's
/// current size and an acquired image.
pub open spec fn present_outcome(
    window: PixelDimensions,
    configured: PixelDimensions,
    acquired: SurfaceAcquire,
) -> Result<PixelDimensions, RenderError> {
    if acquired == SurfaceAcquire::OutOfMemory {
        Err(RenderError::DeviceLost)
    } else if window != configured {
        Err(RenderError::SurfaceLost)
    } else if acquired == SurfaceAcquire::Ready {
        Ok(configured)
    } else {
        Err(RenderError::SurfaceLost)
    }
}

/// A corner of the window-filling quad and the swap-surface texel it shows.
#[derive(Clone, Copy, Debug, PartialEq, Eq, Structural)]
pub struct WindowRefreshVertex {
    pub output_coords: RenderPlaneCoordinates,
    pub texture_coords: TextureCoordinates,
}

impl WindowRefreshVertex {
    /// How these vertices lie in the vertex buffer.
    pub fn desc() -> (r: VertexLayout)
        ensures
            r == quad_vertex_layout(),
    {
        quad_vertex_layout_desc()
    }
}

/// The index of the format to configure the window surface with, given for
/// each offered format whether it is sRGB: the first sRGB one (the shaders
/// write linear colour and rely on the surface to encode it), else the
/// first; nothing when none is offered.
pub fn choose_surface_format(is_srgb: &Vec<bool>) -> (r: Option<usize>)
    ensures
        is_srgb@.len() == 0 <==> r is None,
        r matches Some(i) ==> {
            &&& i < is_srgb@.len()
            &&& (is_srgb@[i as int] || (forall|j: int| 0 <= j < is_srgb@.len() ==> !is_srgb@[j]))
            &&& forall|j: int| 0 <= j < i ==> !is_srgb@[j]
        },
{
    if is_srgb.len() == 0 {
        return None;
    }
    let mut i: usize = 0;
    while i < is_srgb.len()
        invariant
            i <= is_srgb@.len(),
            forall|j: int| 0 <= j < i ==> !is_srgb@[j],
        decreases is_srgb@.len() - i,
    {
        if is_srgb[i] {
            return Some(i);
        }
        i = i + 1;
    }
    Some(0)
}

/// The window-filling quad: the plane's corners (top-left, top-right,
/// bottom-left, bottom-right) showing the matching corners of the swap surface.
pub open spec fn window_quad() -> Seq<WindowRefreshVertex> {
    let uvs = full_texture_uvs();
    seq![
        WindowRefreshVertex { output_coords: plane_point(-1, 1), texture_coords: uvs[0] },
        WindowRefreshVertex { output_coords: plane_point(1, 1), texture_coords: uvs[1] },
        WindowRefreshVertex { output_coords: plane_point(-1, -1), texture_coords: uvs[2] },
        WindowRefreshVertex { output_coords: plane_point(1, -1), texture_coords: uvs[3] },
    ]
}

/// The pass that copies the swap surface over the whole window image.
#[derive(Clone, Copy, Debug)]
pub struct PresentPass {
    /// The texture shown.
    pub source: u64,
    /// The size of the window image written.
    pub output_dimensions: PixelDimensions,
    pub vertices: [WindowRefreshVertex; 4],
    pub indices: [u16; 6],
}

/// The compositing façade: a swap surface holding the frame and what is
/// known of the window it is shown in.
pub struct Renderer {
    pub textures: TextureManager,
    pub swap_surface: PixelSurface,
    /// The size the window last reported.
    pub window_dimensions: PixelDimensions,
    /// The size the window's presentable surface is configured with.
    pub configured_dimensions: PixelDimensions,
}

impl Renderer {
    /// The size of the image that presenting writes, or why it fails.
    pub open spec fn present_result(self, acquired: SurfaceAcquire) -> Result<
        PixelDimensions,
        RenderError,
    > {
        present_outcome(self.window_dimensions, self.configured_dimensions, acquired)
    }

    /// The swap surface is well formed, was handed out by the renderer's
    /// own texture manager, and has the presentable surface's size.
    pub open spec fn wf(self) -> bool {
        &&& self.swap_surface.wf()
        &&& self.swap_surface.id() < self.textures.next_id
        &&& self.swap_surface.dimensions == self.configured_dimensions
    }

    /// A renderer for a window of size `window_dimensions` on a device whose
    /// largest texture side is `max_texture_dimension`, with the bytes to
    /// upload into its swap surface.
    pub fn new(window_dimensions: PixelDimensions, max_texture_dimension: u32) -> (r: Result<
        (Renderer, TextureUpload),
        RenderError,
    >)
        ensures
            allocatable(initial_dimensions_of(window_dimensions), max_texture_dimension) <==> r is Ok,
            !allocatable(initial_dimensions_of(window_dimensions), max_texture_dimension) ==> r
                == Err::<(Renderer, TextureUpload), RenderError>(RenderError::Upload),
            r matches Ok((renderer, upload)) ==> {
                &&& renderer.wf()
                &&& renderer.window_dimensions == initial_dimensions_of(window_dimensions)
                &&& renderer.configured_dimensions == initial_dimensions_of(window_dimensions)
                &&& renderer.textures.max_dimension == max_texture_dimension
                &&& renderer.swap_surface.state == SurfaceState::Clean
                &&& upload.wf()
                &&& *upload.texture == *renderer.swap_surface.surface_texture
                &&& forall|i: int| 0 <= i < upload.rgba@.len() ==> upload.rgba@[i] == 0u8
            },
    {
        let dimensions = initial_surface_dimensions(window_dimensions);
        let mut textures = TextureManager::create(0, max_texture_dimension);
        match PixelSurface::new_pixel_surface(&mut textures, dimensions.width, dimensions.height) {
            Err(e) => Err(e),
            Ok((swap_surface, upload)) => Ok(
                (
                    Renderer {
                        textures,
                        swap_surface,
                        window_dimensions: dimensions,
                        configured_dimensions: dimensions,
                    },
                    upload,
                ),
            ),
        }
    }

    /// The surface that holds the frame being composed.
    pub fn swap_surface(&self) -> (r: &PixelSurface)
        ensures
            *r == self.swap_surface,
    {
        &self.swap_surface
    }

    /// Overwrites the frame with transparent black.
    pub fn clear(&mut self) -> (r: ClearPass)
        requires
            old(self).wf(),
        ensures
            r.target == old(self).swap_surface.id(),
            final(self).wf(),
            final(self).swap_surface.surface_texture == old(self).swap_surface.surface_texture,
            final(self).swap_surface.state == SurfaceState::Clean,
            final(self).swap_surface.drawn@ == Seq::<DrawPass>::empty(),
            final(self).textures == old(self).textures,
            final(self).window_dimensions == old(self).window_dimensions,
            final(self).configured_dimensions == old(self).configured_dimensions,
    {
        self.swap_surface.clear()
    }

    /// Blends `sprite` over the frame; see `PixelSurface::draw_sprite`.
    pub fn draw_sprite(
        &mut self,
        sprite: &Sprite,
        position: Option<PixelCoordinates>,
        dimensions: Option<PixelDimensions>,
        rotation: Option<SpriteRotation>,
    ) -> (r: DrawPass)
        requires
            old(self).wf(),
        ensures
            r.target == old(self).swap_surface.id(),
            r.source == sprite.texture.id,
            r.uniforms == resolved_uniforms(
                old(self).configured_dimensions,
                sprite.dimensions,
                position,
                dimensions,
                rotation,
            ),
            r.vertices@ == quad_vertices(sprite.vertices@),
            r.indices@ == rect_index_seq(),
            final(self).wf(),
            final(self).swap_surface.surface_texture == old(self).swap_surface.surface_texture,
            final(self).swap_surface.state == SurfaceState::Populated,
            final(self).swap_surface.drawn@ == old(self).swap_surface.drawn@.push(r),
            final(self).textures == old(self).textures,
            final(self).window_dimensions == old(self).window_dimensions,
            final(self).configured_dimensions == old(self).configured_dimensions,
    {
        self.swap_surface.draw_sprite(sprite, position, dimensions, rotation)
    }

    /// Blends `subsurface` over the frame; see `PixelSurface::draw_subsurface`.
    pub fn draw_subsurface(
        &mut self,
        subsurface: &PixelSurface,
        position: Option<PixelCoordinates>,
        dimensions: Option<PixelDimensions>,
        rotation: Option<SpriteRotation>,
    ) -> (r: Result<DrawPass, RenderError>)
        requires
            old(self).wf(),
        ensures
            subsurface.id() == old(self).swap_surface.id() ==> r == Err::<DrawPass, RenderError>(
                RenderError::Aliasing,
            ) && *final(self) == *old(self),
            subsurface.id() != old(self).swap_surface.id() ==> r is Ok,
            r matches Ok(pass) ==> {
                &&& pass.target == old(self).swap_surface.id()
                &&& pass.source == subsurface.id()
                &&& pass.uniforms == resolved_uniforms(
                    old(self).configured_dimensions,
                    subsurface.dimensions,
                    position,
                    dimensions,
                    rotation,
                )
                &&& pass.vertices@ == quad_vertices(full_texture_uvs())
                &&& pass.indices@ == rect_index_seq()
                &&& final(self).swap_surface.state == SurfaceState::Populated
                &&& final(self).swap_surface.drawn@ == old(self).swap_surface.drawn@.push(pass)
            },
            final(self).wf(),
            final(self).swap_surface.surface_texture == old(self).swap_surface.surface_texture,
            final(self).textures == old(self).textures,
            final(self).window_dimensions == old(self).window_dimensions,
            final(self).configured_dimensions == old(self).configured_dimensions,
    {
        self.swap_surface.draw_subsurface(subsurface, position, dimensions, rotation)
    }

    /// A new transparent black surface of the given size to compose into.
    pub fn create_subsurface(&mut self, width: u32, height: u32) -> (r: Result<
        (PixelSurface, TextureUpload),
        RenderError,
    >)
        requires
            old(self).wf(),
        ensures
            old(self).textures.can_create(PixelDimensions { width, height }) <==> r is Ok,
            !old(self).textures.can_create(PixelDimensions { width, height }) ==> r == Err::<
                (PixelSurface, TextureUpload),
                RenderError,
            >(RenderError::Upload),
            r matches Ok((s, u)) ==> {
                &&& s.wf()
                &&& u.wf()
                &&& s.id() == old(self).textures.next_id
                &&& s.dimensions == PixelDimensions { width, height }
                &&& s.state == SurfaceState::Clean
                &&& *u.texture == *s.surface_texture
                &&& forall|i: int| 0 <= i < u.rgba@.len() ==> u.rgba@[i] == 0u8
            },
            final(self).wf(),
            final(self).swap_surface == old(self).swap_surface,
            final(self).window_dimensions == old(self).window_dimensions,
            final(self).configured_dimensions == old(self).configured_dimensions,
    {
        PixelSurface::new_pixel_surface(&mut self.textures, width, height)
    }

    /// A texture made from the bytes of an encoded image; see
    /// `TextureManager::load_texture`.
    pub fn load_texture(&mut self, bytes: &[u8]) -> (r: Result<TextureUpload, RenderError>)
        requires
            old(self).wf(),
        ensures
            match decoded_size(bytes@) {
                None => r == Err::<TextureUpload, RenderError>(RenderError::Decode) && *final(self)
                    == *old(self),
                Some((w, h)) => old(self).textures.made(
                    final(self).textures,
                    (4 * w * h) as nat,
                    PixelDimensions { width: w, height: h },
                    r,
                ),
            },
            final(self).wf(),
            final(self).swap_surface == old(self).swap_surface,
            final(self).window_dimensions == old(self).window_dimensions,
            final(self).configured_dimensions == old(self).configured_dimensions,
    {
        self.textures.load_texture(bytes)
    }

    /// A sprite over `texture_area` of `texture`, or over all of it.
    pub fn create_sprite(&self, texture: Rc<Texture>, texture_area: Option<SpriteTextureArea>) -> (r:
        Result<Sprite, RenderError>)
        ensures
            match texture_area {
                Some(a) if !a.within(texture.dimensions) => r == Err::<Sprite, RenderError>(
                    RenderError::AreaOutOfBounds,
                ),
                _ => r is Ok && r->Ok_0.views(*texture, texture_area),
            },
    {
        Sprite::create(texture, texture_area)
    }

    /// Records that the window now has size `dimensions`; the presentable
    /// surface keeps its configuration until `resize`.
    pub fn window_resized(&mut self, dimensions: PixelDimensions)
        requires
            old(self).wf(),
        ensures
            final(self).wf(),
            final(self).window_dimensions == dimensions,
            final(self).configured_dimensions == old(self).configured_dimensions,
            final(self).swap_surface == old(self).swap_surface,
            final(self).textures == old(self).textures,
    {
        self.window_dimensions = dimensions;
    }

    /// Reconfigures the presentable surface, and replaces the swap surface by
    /// a transparent black one, to the size `new_dimensions`, returning the
    /// bytes to upload into the new swap surface.
    pub fn resize(&mut self, new_dimensions: PixelDimensions) -> (r: Result<
        TextureUpload,
        RenderError,
    >)
        requires
            old(self).wf(),
        ensures
            old(self).textures.can_create(new_dimensions) <==> r is Ok,
            !old(self).textures.can_create(new_dimensions) ==> r == Err::<
                TextureUpload,
                RenderError,
            >(RenderError::Upload) && *final(self) == *old(self),
            r matches Ok(upload) ==> {
                &&& final(self).window_dimensions == new_dimensions
                &&& final(self).configured_dimensions == new_dimensions
                &&& final(self).swap_surface.id() == old(self).textures.next_id
                &&& final(self).swap_surface.state == SurfaceState::Clean
                &&& upload.wf()
                &&& *upload.texture == *final(self).swap_surface.surface_texture
                &&& forall|i: int| 0 <= i < upload.rgba@.len() ==> upload.rgba@[i] == 0u8
            },
            final(self).wf(),
    {
        match PixelSurface::new_pixel_surface(
            &mut self.textures,
            new_dimensions.width,
            new_dimensions.height,
        ) {
            Err(e) => Err(e),
            Ok((surface, upload)) => {
                self.swap_surface = surface;
                self.window_dimensions = new_dimensions;
                self.configured_dimensions = new_dimensions;
                Ok(upload)
            },
        }
    }

    /// The pass that shows the frame in the window, given what acquiring
    /// the window's next image gave; see `present_outcome`.
    pub fn present(&self, acquired: SurfaceAcquire) -> (r: Result<PresentPass, RenderError>)
        requires
            self.wf(),
        ensures
            match self.present_result(acquired) {
                Ok(d) => r is Ok && r->Ok_0.output_dimensions == d,
                Err(e) => r == Err::<PresentPass, RenderError>(e),
            },
            r matches Ok(pass) ==> {
                &&& pass.source == self.swap_surface.id()
                &&& pass.vertices@ == window_quad()
                &&& pass.indices@ == rect_index_seq()
            },
    {
        if acquired == SurfaceAcquire::OutOfMemory {
            return Err(RenderError::DeviceLost);
        }
        if self.window_dimensions.width != self.configured_dimensions.width
            || self.window_dimensions.height != self.configured_dimensions.height {
            return Err(RenderError::SurfaceLost);
        }
        if acquired != SurfaceAcquire::Ready {
            return Err(RenderError::SurfaceLost);
        }
        let vertices = [
            WindowRefreshVertex {
                output_coords: RenderPlaneCoordinates::top_left(),
                texture_coords: TextureCoordinates::top_left(),
            },
            WindowRefreshVertex {
                output_coords: RenderPlaneCoordinates::top_right(),
                texture_coords: TextureCoordinates::top_right(),
            },
            WindowRefreshVertex {
                output_coords: RenderPlaneCoordinates::bottom_left(),
                texture_coords: TextureCoordinates::bottom_left(),
            },
            WindowRefreshVertex {
                output_coords: RenderPlaneCoordinates::bottom_right(),
                texture_coords: TextureCoordinates::bottom_right(),
            },
        ];
        proof {
            assert(vertices@ =~= window_quad());
        }
        Ok(
            PresentPass {
                source: self.swap_surface.surface_texture.id,
                output_dimensions: self.configured_dimensions,
                vertices,
                indices: rect_indices(),
            },
        )
    }
}

/// Presenting after the window changed size fails with `SurfaceLost` until
/// `resize` is called with the new size (unless the device is lost, which
/// is reported as such); after that, presenting an acquired image succeeds
/// and writes an image of the new size. `resized` is the
/// renderer once `window_resized(new_dimensions)` has run on `before`, and
/// `reconfigured` once `resize(new_dimensions)` has succeeded after that.
pub proof fn lemma_present_after_resize(
    before: Renderer,
    new_dimensions: PixelDimensions,
    resized: Renderer,
    reconfigured: Renderer,
    acquired: SurfaceAcquire,
)
    requires
        before.wf(),
        new_dimensions != before.configured_dimensions,
        resized.window_dimensions == new_dimensions,
        resized.configured_dimensions == before.configured_dimensions,
        reconfigured.window_dimensions == new_dimensions,
        reconfigured.configured_dimensions == new_dimensions,
        acquired != SurfaceAcquire::OutOfMemory,
    ensures
        resized.present_result(acquired) == Err::<PixelDimensions, RenderError>(
            RenderError::SurfaceLost,
        ),
        reconfigured.present_result(SurfaceAcquire::Ready) == Ok::<PixelDimensions, RenderError>(
            new_dimensions,
        ),
{
}

} // verus!
