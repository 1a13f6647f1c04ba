//! Pixel-space sizes and positions.
use vstd::prelude::*;

verus! {

/// A size in physical pixels.
#[derive(Debug, Clone, Copy, PartialEq, Eq, Structural, Hash, Default, PartialOrd, Ord)]
pub struct PhysicalSize<P> {
    pub width: P,
    pub height: P,
}

impl<P> PhysicalSize<P> {
    /// Builds a size from its width and height.
    pub fn new(width: P, height: P) -> (s: Self)
        ensures
            s.width == width,
            s.height == height,
    {
        PhysicalSize { width, height }
    }
}

/// A position in physical pixels.
#[derive(Debug, Clone, Copy, PartialEq, Eq, Structural, Hash, Default, PartialOrd, Ord)]
pub struct PhysicalPosition<P> {
    pub x: P,
    pub y: P,
}

impl<P> PhysicalPosition<P> {
    /// Builds a position from its coordinates.
    pub fn new(x: P, y: P) -> (p: Self)
        ensures
            p.x == x,
            p.y == y,
    {
        PhysicalPosition { x, y }
    }
}

} // verus!
