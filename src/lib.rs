//! Integer decisions of a recursive path tracer: the order of the pixel grid,
//! the framebuffer word of a pixel, which object's hit is nearest, how a ray's
//! bounce decides its colour, and the schedule of progressive sample passes.
use vstd::prelude::*;

pub mod progress;
pub mod raster;
pub mod scene;
pub mod trace;

verus! {

/// Sum of two sizes.
pub fn add(left: usize, right: usize) -> (r: usize)
    requires
        left + right <= usize::MAX,
    ensures
        r == left + right,
{
    left + right
}

} // verus!
