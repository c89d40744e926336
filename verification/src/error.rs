//! The ways in which the renderer fails.

use vstd::prelude::*;

verus! {

/// A failure of the renderer.
#[derive(Clone, Copy, Debug, PartialEq, Eq)]
pub enum RenderError {
    /// No adapter can present to the surface.
    NoAdapter,
    /// The adapter gave no device.
    NoDevice,
    /// More rectangles than the buffers were made for.
    CapacityExceeded { rects: usize, capacity: usize },
    /// More rectangles than 16-bit indices can address.
    IndexRangeExceeded { rects: usize },
    /// A draw onto a surface without pixels, as it is before the first resize.
    ZeroSizedSurface { width: u32, height: u32 },
    /// The surface's configuration no longer fits the window, and
    /// configuring it anew did not help.
    StaleSurface,
    /// No image came in time.
    SurfaceTimeout,
    /// The surface's images are gone.
    SurfaceLost,
    /// No memory is left for a new frame.
    OutOfMemory,
}

impl RenderError {
    /// Whether the renderer cannot go on after this failure. A failure that
    /// is not fatal costs one call: the renderer is as it was before, and a
    /// later batch or frame may succeed.
    pub open spec fn fatal(self) -> bool {
        match self {
            RenderError::NoAdapter => true,
            RenderError::NoDevice => true,
            RenderError::SurfaceTimeout => true,
            RenderError::SurfaceLost => true,
            RenderError::OutOfMemory => true,
            RenderError::CapacityExceeded { .. } => false,
            RenderError::IndexRangeExceeded { .. } => false,
            RenderError::ZeroSizedSurface { .. } => false,
            RenderError::StaleSurface => false,
        }
    }

    /// Tells whether the renderer cannot go on after this failure.
    pub fn is_fatal(&self) -> (r: bool)
        ensures
            r == self.fatal(),
    {
        match self {
            RenderError::NoAdapter
            | RenderError::NoDevice
            | RenderError::SurfaceTimeout
            | RenderError::SurfaceLost
            | RenderError::OutOfMemory => true,
            _ => false,
        }
    }
}

} // verus!
