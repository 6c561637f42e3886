//! Textures: decoded RGBA8 images that become GPU image resources, and the
//! counter that gives each one its identity.

use vstd::prelude::*;
use std::rc::Rc;
use crate::coords::PixelDimensions;
use crate::error::RenderError;

verus! {

/// The error of image's decoding functions, which `decode_rgba8` hands back
/// as it came; the library reads nothing of it.
#[verifier::external_type_specification]
#[verifier::external_body]
pub struct ExImageError(image::ImageError);

/// The width and height of the image that `bytes` encode, or nothing where
/// they are no image that can be decoded.
pub uninterp spec fn decoded_size(bytes: Seq<u8>) -> Option<(u32, u32)>;

/// Relies on image::load_from_memory, which guesses the format from the bytes
/// and decodes them, and on DynamicImage::to_rgba8 with ImageBuffer::into_raw,
/// which turn the result into width, height and row-major RGBA8 bytes.
/// Whether decoding succeeds, and the size, depend on the bytes alone; the
/// pixel values may not (the JPEG decoder picks SIMD routines that round
/// differently by CPU), so only their count is claimed: to_rgba8 builds its
/// buffer with ImageBuffer::new(width, height), four bytes per pixel. The
/// decoders' default allocation limit (512 MiB) keeps that buffer in range.
#[verifier::external_body]
fn decode_rgba8(bytes: &[u8]) -> (r: Result<(u32, u32, Vec<u8>), image::ImageError>)
    ensures
        match r {
            Ok((w, h, px)) => decoded_size(bytes@) == Some((w, h)) && px@.len() == 4 * w * h,
            Err(_) => decoded_size(bytes@) is None,
        },
{
    let img = image::load_from_memory(bytes)?;
    let rgba = img.to_rgba8();
    let (w, h) = rgba.dimensions();
    Ok((w, h, rgba.into_raw()))
}

/// Relies on image::ImageBuffer::new (as RgbaImage), which allocates a
/// `width` by `height` image whose bytes are all zero: transparent black.
#[verifier::external_body]
pub(crate) fn transparent_rgba8(width: u32, height: u32) -> (r: Vec<u8>)
    requires
        width > 0,
        height > 0,
        4 * width * height <= usize::MAX,
    ensures
        r@.len() == 4 * width * height,
        forall|i: int| 0 <= i < r@.len() ==> r@[i] == 0u8,
{
    image::RgbaImage::new(width, height).into_raw()
}

/// The byte count of an RGBA8 image of any `u32` size fits in a `u128`.
proof fn lemma_rgba_len_bounded(w: u128, h: u128)
    requires
        w <= 0xffff_ffff,
        h <= 0xffff_ffff,
    ensures
        4 * w * h <= 4 * 0xffff_ffff * 0xffff_ffff,
{
    assert(4 * w * h <= 4 * 0xffff_ffff * 0xffff_ffff) by (nonlinear_arith)
        requires
            w <= 0xffff_ffff,
            h <= 0xffff_ffff,
    ;
}

/// A GPU image resource, known to the library by its identity and size.
#[derive(Debug, PartialEq, Eq, Structural)]
pub struct Texture {
    pub id: u64,
    pub dimensions: PixelDimensions,
}

impl Texture {
    /// Non-empty, and with rows whose byte length fits the upload layout.
    pub open spec fn wf(self) -> bool {
        self.dimensions.non_empty() && 4 * self.dimensions.width <= u32::MAX
    }
}

/// A texture together with the bytes to upload into it and their layout.
pub struct TextureUpload {
    pub texture: Rc<Texture>,
    /// Row-major RGBA8 pixels, tightly packed.
    pub rgba: Vec<u8>,
    pub bytes_per_row: u32,
    pub rows_per_image: u32,
}

impl TextureUpload {
    /// The layout that tightly packed RGBA8 pixels of the texture have.
    pub open spec fn wf(self) -> bool {
        &&& self.texture.wf()
        &&& self.bytes_per_row == 4 * self.texture.dimensions.width
        &&& self.rows_per_image == self.texture.dimensions.height
        &&& self.rgba@.len() == 4 * self.texture.dimensions.width * self.texture.dimensions.height
    }
}

/// Whether a texture of dimensions `d` can be allocated on a device whose
/// largest 2D texture side is `max_dimension`.
pub open spec fn allocatable(d: PixelDimensions, max_dimension: u32) -> bool {
    &&& d.non_empty()
    &&& d.width <= max_dimension
    &&& d.height <= max_dimension
    &&& 4 * d.width <= u32::MAX
    &&& 4 * d.width * d.height <= usize::MAX
}

/// Hands out texture identities, never twice, and knows the device's size limit.
pub struct TextureManager {
    pub next_id: u64,
    pub max_dimension: u32,
}

impl TextureManager {
    /// A manager whose first texture gets the identity `first_id`.
    pub fn create(first_id: u64, max_dimension: u32) -> (r: TextureManager)
        ensures
            r.next_id == first_id,
            r.max_dimension == max_dimension,
    {
        TextureManager { next_id: first_id, max_dimension }
    }

    /// Whether a texture of dimensions `d` can be made now.
    pub open spec fn can_create(self, d: PixelDimensions) -> bool {
        allocatable(d, self.max_dimension) && self.next_id < u64::MAX
    }

    /// The next identity, as a texture of dimensions `d`.
    pub fn allocate(&mut self, dimensions: PixelDimensions) -> (r: Result<Texture, RenderError>)
        ensures
            old(self).can_create(dimensions) ==> {
                &&& r == Ok::<Texture, RenderError>(Texture { id: old(self).next_id, dimensions })
                &&& final(self).next_id == old(self).next_id + 1
                &&& final(self).max_dimension == old(self).max_dimension
            },
            !old(self).can_create(dimensions) ==> r == Err::<Texture, RenderError>(
                RenderError::Upload,
            ) && *final(self) == *old(self),
            r is Ok ==> r->Ok_0.wf(),
    {
        let w = dimensions.width as u128;
        let h = dimensions.height as u128;
        proof {
            lemma_rgba_len_bounded(w, h);
        }
        if dimensions.width == 0 || dimensions.height == 0 || dimensions.width > self.max_dimension
            || dimensions.height > self.max_dimension || self.next_id == u64::MAX || 4 * w
            > u32::MAX as u128 || 4 * w * h > usize::MAX as u128 {
            return Err(RenderError::Upload);
        }
        let id = self.next_id;
        self.next_id = self.next_id + 1;
        Ok(Texture { id, dimensions })
    }

    /// The texture that tightly packed RGBA8 bytes, `rgba_len` of them,
    /// for an image of dimensions `d` become, or why they cannot.
    pub open spec fn texture_for(self, rgba_len: nat, d: PixelDimensions) -> Result<
        Texture,
        RenderError,
    > {
        if rgba_len != 4 * d.width * d.height {
            Err(RenderError::Decode)
        } else if !self.can_create(d) {
            Err(RenderError::Upload)
        } else {
            Ok(Texture { id: self.next_id, dimensions: d })
        }
    }

    /// What a call that made `r` from `rgba_len` bytes of an image of
    /// dimensions `d` owes: the texture `texture_for` names, the identity
    /// used up; or the error, with nothing changed.
    pub open spec fn made(
        self,
        after: TextureManager,
        rgba_len: nat,
        d: PixelDimensions,
        r: Result<TextureUpload, RenderError>,
    ) -> bool {
        match self.texture_for(rgba_len, d) {
            Ok(t) => {
                &&& r is Ok
                &&& *r->Ok_0.texture == t
                &&& r->Ok_0.wf()
                &&& after.next_id == self.next_id + 1
                &&& after.max_dimension == self.max_dimension
            },
            Err(e) => r == Err::<TextureUpload, RenderError>(e) && after == self,
        }
    }

    /// A texture made from tightly packed RGBA8 pixels of the given size,
    /// ready to be uploaded.
    pub fn create_texture(&mut self, texture_rgba: Vec<u8>, dimensions: PixelDimensions) -> (r:
        Result<TextureUpload, RenderError>)
        ensures
            old(self).made(*final(self), texture_rgba@.len(), dimensions, r),
            r is Ok ==> r->Ok_0.rgba@ == texture_rgba@,
    {
        let w = dimensions.width as u128;
        let h = dimensions.height as u128;
        proof {
            lemma_rgba_len_bounded(w, h);
        }
        if texture_rgba.len() as u128 != 4 * w * h {
            return Err(RenderError::Decode);
        }
        match self.allocate(dimensions) {
            Err(e) => Err(e),
            Ok(texture) => Ok(
                TextureUpload {
                    bytes_per_row: 4 * dimensions.width,
                    rows_per_image: dimensions.height,
                    texture: Rc::new(texture),
                    rgba: texture_rgba,
                },
            ),
        }
    }

    /// A texture made from the bytes of an encoded image (PNG, JPEG), ready
    /// to be uploaded.
    pub fn load_texture(&mut self, bytes: &[u8]) -> (r: Result<TextureUpload, RenderError>)
        ensures
            match decoded_size(bytes@) {
                None => r == Err::<TextureUpload, RenderError>(RenderError::Decode) && *final(self)
                    == *old(self),
                Some((w, h)) => old(self).made(
                    *final(self),
                    (4 * w * h) as nat,
                    PixelDimensions { width: w, height: h },
                    r,
                ),
            },
    {
        match decode_rgba8(bytes) {
            Err(_) => Err(RenderError::Decode),
            Ok((width, height, rgba)) => self.create_texture(rgba, PixelDimensions { width, height }),
        }
    }
}

} // verus!
