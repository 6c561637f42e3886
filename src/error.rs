//! The failures that the library reports to its caller.

use vstd::prelude::*;

verus! {

/// Why a request could not be carried out.
#[derive(Clone, Copy, Debug, PartialEq, Eq, Structural)]
pub enum RenderError {
    /// The bytes given as an image are not one, or do not hold the pixels they claim.
    Decode,
    /// The resource is empty or larger than the device can hold.
    Upload,
    /// A sprite area reaches outside its texture.
    AreaOutOfBounds,
    /// A surface was asked to draw itself into itself.
    Aliasing,
    /// The window's presentable surface must be reconfigured before presenting again.
    SurfaceLost,
    /// The GPU context is gone; the renderer has to be built anew.
    DeviceLost,
}

} // verus!
