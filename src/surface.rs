//! The size of the presentation chain: the pixel dimensions that the
//! swap-chain descriptor carries and that projections take their aspect
//! ratio from.

use vstd::prelude::*;

verus! {

/// Width and height in physical pixels.
#[derive(Clone, Copy, Debug, PartialEq, Eq, Structural)]
pub struct SurfaceSize {
    pub width: u32,
    pub height: u32,
}

/// The aspect ratio `num / den`, kept as an exact fraction.
#[derive(Clone, Copy, Debug, PartialEq, Eq, Structural)]
pub struct AspectRatio {
    pub num: u32,
    pub den: u32,
}

impl SurfaceSize {
    /// A size of `width` by `height` pixels.
    pub fn new(width: u32, height: u32) -> (r: SurfaceSize)
        ensures
            r == (SurfaceSize { width, height }),
    {
        SurfaceSize { width, height }
    }

    /// Takes the new physical size of the window.
    pub fn resize(&mut self, width: u32, height: u32)
        ensures
            *final(self) == (SurfaceSize { width, height }),
    {
        self.width = width;
        self.height = height;
    }

    pub open spec fn aspect_spec(self) -> AspectRatio {
        AspectRatio { num: self.width, den: self.height }
    }

    /// Width over height, as a fraction.
    pub fn aspect_ratio(&self) -> (r: AspectRatio)
        ensures
            r == self.aspect_spec(),
            r.num * self.height == self.width * r.den,
    {
        AspectRatio { num: self.width, den: self.height }
    }
}

/// After a resize to `width` by `height`, the aspect ratio is
/// `width / height`.
pub proof fn lemma_resize_aspect(width: u32, height: u32)
    requires
        width > 0,
        height > 0,
    ensures
        ({
            let r = (SurfaceSize { width, height }).aspect_spec();
            r.num * height == width * r.den && r.den > 0
        }),
{
}

} // verus!
