//! Errors of the surface lifecycle and of the frame pipeline.

use vstd::prelude::*;

verus! {

/// Errors of the frame pipeline and of the surface lifecycle.
#[derive(Clone, Copy, Debug, PartialEq, Eq, Structural)]
pub enum RenderError {
    /// The presentation context could not be created over the window.
    ContextCreation,
    /// The surface could not be created over the context and window.
    SurfaceCreation,
    /// The surface refused to be resized.
    Resize,
    /// The rasterized pixmap and the surface buffer hold different numbers
    /// of pixels: the scene and the surface disagree on their size.
    PixelCountMismatch { pixmap_len: usize, surface_len: usize },
    /// The surface buffer could not be presented.
    Present,
}

} // verus!
