use vstd::prelude::*;

verus! {

/// Edge length, in pixels, used in place of a degenerate size from the compositor.
pub const FALLBACK_EDGE: u32 = 256;

/// Pixel size of the presentation surface, as the compositor last reported it.
#[derive(Clone, Copy, Debug, PartialEq, Eq, Structural)]
pub struct SurfaceDimensions {
    pub width: u32,
    pub height: u32,
}

impl SurfaceDimensions {
    /// Both edges are non-zero, so the surface can be configured at this size.
    pub open spec fn positive(self) -> bool {
        self.width > 0 && self.height > 0
    }

    pub open spec fn fallback() -> SurfaceDimensions {
        SurfaceDimensions { width: FALLBACK_EDGE, height: FALLBACK_EDGE }
    }

    /// The size adopted for a configure event: the reported one, unless an edge
    /// is zero, in which case the fallback square.
    pub open spec fn for_configure(width: u32, height: u32) -> SurfaceDimensions {
        if width == 0 || height == 0 {
            SurfaceDimensions::fallback()
        } else {
            SurfaceDimensions { width, height }
        }
    }

    pub fn from_configure(width: u32, height: u32) -> (d: SurfaceDimensions)
        ensures
            d == SurfaceDimensions::for_configure(width, height),
            d.positive(),
    {
        if width == 0 || height == 0 {
            SurfaceDimensions { width: FALLBACK_EDGE, height: FALLBACK_EDGE }
        } else {
            SurfaceDimensions { width, height }
        }
    }
}

/// Lifecycle of the presentation surface as the render loop sees it.
#[derive(Clone, Copy, Debug, PartialEq, Eq, Structural)]
pub enum SurfaceState {
    Unconfigured,
    Configured(SurfaceDimensions),
    Destroyed,
}

} // verus!
