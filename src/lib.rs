//! A 2D sprite-compositing core: exact coordinate conversions, sprites cut
//! from texture atlases, and the render passes that composite sprites and
//! offscreen surfaces into one another and onto the window.
//!
//! The library decides what every pass draws and when a request must be
//! refused; executing the passes on a GPU is left to the embedding program.

pub mod coords;
pub mod error;
pub mod texture;
pub mod sprite;
pub mod surface;
pub mod renderer;
pub mod pipelines;
pub mod events;
