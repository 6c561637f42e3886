//! Sprites: read-only views of a rectangle of a texture, given by the texture
//! coordinates of its four corners.

use vstd::prelude::*;
use std::rc::Rc;
use crate::coords::{PixelCoordinates, PixelDimensions, Ratio};
use crate::error::RenderError;
use crate::texture::Texture;

verus! {

/// A point of texture space: `[0, 1]` on each axis over the texture, `v`
/// growing downward.
#[derive(Clone, Copy, Debug, PartialEq, Eq, Structural)]
pub struct TextureCoordinates {
    pub u: Ratio,
    pub v: Ratio,
}

/// The texture coordinates `(u, v)` as whole numbers.
pub open spec fn uv(u: int, v: int) -> TextureCoordinates {
    TextureCoordinates { u: Ratio { num: u as i64, den: 1 }, v: Ratio { num: v as i64, den: 1 } }
}

/// The four corners of a whole texture: top-left, top-right, bottom-left, bottom-right.
pub open spec fn full_texture_uvs() -> Seq<TextureCoordinates> {
    seq![uv(0, 0), uv(1, 0), uv(0, 1), uv(1, 1)]
}

/// The texture coordinates of the pixel corner `(x, y)` of a texture of dimensions `d`.
pub open spec fn uv_of_pixel(x: int, y: int, d: PixelDimensions) -> TextureCoordinates {
    TextureCoordinates {
        u: Ratio { num: x as i64, den: d.width },
        v: Ratio { num: y as i64, den: d.height },
    }
}

/// The corners of `area` in a texture of dimensions `d`, in the order
/// top-left, top-right, bottom-left, bottom-right.
pub open spec fn area_uvs(area: SpriteTextureArea, d: PixelDimensions) -> Seq<TextureCoordinates> {
    let x = area.coordinates.x as int;
    let y = area.coordinates.y as int;
    let w = area.dimensions.width as int;
    let h = area.dimensions.height as int;
    seq![
        uv_of_pixel(x, y, d),
        uv_of_pixel(x + w, y, d),
        uv_of_pixel(x, y + h, d),
        uv_of_pixel(x + w, y + h, d),
    ]
}

impl TextureCoordinates {
    /// `(0, 0)`.
    pub fn top_left() -> (r: TextureCoordinates)
        ensures
            r == uv(0, 0),
    {
        TextureCoordinates { u: Ratio::whole(0), v: Ratio::whole(0) }
    }

    /// `(1, 0)`.
    pub fn top_right() -> (r: TextureCoordinates)
        ensures
            r == uv(1, 0),
    {
        TextureCoordinates { u: Ratio::whole(1), v: Ratio::whole(0) }
    }

    /// `(0, 1)`.
    pub fn bottom_left() -> (r: TextureCoordinates)
        ensures
            r == uv(0, 1),
    {
        TextureCoordinates { u: Ratio::whole(0), v: Ratio::whole(1) }
    }

    /// `(1, 1)`.
    pub fn bottom_right() -> (r: TextureCoordinates)
        ensures
            r == uv(1, 1),
    {
        TextureCoordinates { u: Ratio::whole(1), v: Ratio::whole(1) }
    }
}

/// A rectangle of a texture in pixels: an atlas cell.
#[derive(Clone, Copy, Debug, PartialEq, Eq, Structural)]
pub struct SpriteTextureArea {
    pub coordinates: PixelCoordinates,
    pub dimensions: PixelDimensions,
}

impl SpriteTextureArea {
    /// The rectangle lies inside a texture of dimensions `d`.
    pub open spec fn within(self, d: PixelDimensions) -> bool {
        &&& 0 <= self.coordinates.x
        &&& 0 <= self.coordinates.y
        &&& self.coordinates.x + self.dimensions.width <= d.width
        &&& self.coordinates.y + self.dimensions.height <= d.height
    }
}

/// A view of a rectangle of a shared texture.
pub struct Sprite {
    pub texture: Rc<Texture>,
    /// Texture coordinates of the top-left, top-right, bottom-left and
    /// bottom-right corners.
    pub vertices: [TextureCoordinates; 4],
    pub texture_area: Option<SpriteTextureArea>,
    /// The size the sprite is drawn at unless told otherwise.
    pub dimensions: PixelDimensions,
}

impl Sprite {
    /// What a sprite over `area` of `texture` (the whole texture for `None`) holds.
    pub open spec fn views(self, texture: Texture, area: Option<SpriteTextureArea>) -> bool {
        &&& *self.texture == texture
        &&& self.texture_area == area
        &&& match area {
            None => {
                &&& self.vertices@ == full_texture_uvs()
                &&& self.dimensions == texture.dimensions
            },
            Some(a) => {
                &&& self.vertices@ == area_uvs(a, texture.dimensions)
                &&& self.dimensions == a.dimensions
            },
        }
    }

    /// A sprite over `texture_area` of the texture, or over all of it; an area
    /// that reaches outside the texture is refused.
    pub fn create(texture: Rc<Texture>, texture_area: Option<SpriteTextureArea>) -> (r: Result<
        Sprite,
        RenderError,
    >)
        ensures
            match texture_area {
                Some(a) if !a.within(texture.dimensions) => r == Err::<Sprite, RenderError>(
                    RenderError::AreaOutOfBounds,
                ),
                _ => r is Ok && r->Ok_0.views(*texture, texture_area),
            },
    {
        match texture_area {
            None => Ok(Sprite::from_texture(texture)),
            Some(area) => {
                let td = texture.dimensions;
                let x = area.coordinates.x;
                let y = area.coordinates.y;
                if x < 0 || y < 0 || (x as u64) + (area.dimensions.width as u64) > (td.width as u64)
                    || (y as u64) + (area.dimensions.height as u64) > (td.height as u64) {
                    return Err(RenderError::AreaOutOfBounds);
                }
                let left = x as i64;
                let top = y as i64;
                let right = left + area.dimensions.width as i64;
                let bottom = top + area.dimensions.height as i64;
                let vertices = [
                    TextureCoordinates {
                        u: Ratio { num: left, den: td.width },
                        v: Ratio { num: top, den: td.height },
                    },
                    TextureCoordinates {
                        u: Ratio { num: right, den: td.width },
                        v: Ratio { num: top, den: td.height },
                    },
                    TextureCoordinates {
                        u: Ratio { num: left, den: td.width },
                        v: Ratio { num: bottom, den: td.height },
                    },
                    TextureCoordinates {
                        u: Ratio { num: right, den: td.width },
                        v: Ratio { num: bottom, den: td.height },
                    },
                ];
                proof {
                    assert(vertices@ =~= area_uvs(area, td));
                }
                Ok(Sprite { texture, vertices, texture_area, dimensions: area.dimensions })
            },
        }
    }

    /// A sprite over the whole texture.
    pub fn from_texture(texture: Rc<Texture>) -> (r: Sprite)
        ensures
            r.views(*texture, None),
    {
        let dimensions = texture.dimensions;
        Sprite {
            texture,
            vertices: [
                TextureCoordinates::top_left(),
                TextureCoordinates::top_right(),
                TextureCoordinates::bottom_left(),
                TextureCoordinates::bottom_right(),
            ],
            texture_area: None,
            dimensions,
        }
    }
}

} // verus!
