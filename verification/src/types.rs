//! Plain-data geometry types shared with the foreign runtime, field for
//! field.

use vstd::prelude::*;

verus! {

/// A point in a texture or buffer, in elements.
#[derive(Clone, Copy, Debug, PartialEq, Eq, Structural)]
pub struct MTLOrigin {
    pub x: usize,
    pub y: usize,
    pub z: usize,
}

/// An extent, in elements.
#[derive(Clone, Copy, Debug, PartialEq, Eq, Structural)]
pub struct MTLSize {
    pub width: usize,
    pub height: usize,
    pub depth: usize,
}

impl MTLSize {
    /// The extent with the given dimensions.
    pub fn new(width: usize, height: usize, depth: usize) -> (s: MTLSize)
        ensures
            s.width == width,
            s.height == height,
            s.depth == depth,
    {
        MTLSize { width, height, depth }
    }
}

/// A region: an origin and an extent.
#[derive(Clone, Copy, Debug, PartialEq, Eq, Structural)]
pub struct MTLRegion {
    pub origin: MTLOrigin,
    pub size: MTLSize,
}

impl MTLRegion {
    /// A one-dimensional region: height and depth are one, the other origin
    /// coordinates zero.
    pub fn new_1d(x: usize, width: usize) -> (r: MTLRegion)
        ensures
            r.origin == (MTLOrigin { x, y: 0, z: 0 }),
            r.size == (MTLSize { width, height: 1, depth: 1 }),
    {
        Self::new_2d(x, 0, width, 1)
    }

    /// A two-dimensional region: depth is one, the third origin coordinate
    /// zero.
    pub fn new_2d(x: usize, y: usize, width: usize, height: usize) -> (r: MTLRegion)
        ensures
            r.origin == (MTLOrigin { x, y, z: 0 }),
            r.size == (MTLSize { width, height, depth: 1 }),
    {
        Self::new_3d(x, y, 0, width, height, 1)
    }

    /// A three-dimensional region with the given origin and extent.
    pub fn new_3d(x: usize, y: usize, z: usize, width: usize, height: usize, depth: usize) -> (r:
        MTLRegion)
        ensures
            r.origin == (MTLOrigin { x, y, z }),
            r.size == (MTLSize { width, height, depth }),
    {
        MTLRegion { origin: MTLOrigin { x, y, z }, size: MTLSize { width, height, depth } }
    }
}

/// An opaque per-resource identifier, as wide as the foreign one.
#[allow(non_camel_case_types)]
#[derive(Clone, Copy, Debug, PartialEq, Eq, Structural)]
pub struct MTLResourceID {
    pub _impl: u64,
}

} // verus!
