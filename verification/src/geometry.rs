//! Small integer vector types shared by the layout, alignment and text
//! components.

use vstd::prelude::*;

verus! {

/// A point in layout space. `z` carries render depth and is never changed
/// by any computation in this crate.
#[derive(Debug, Clone, Copy, PartialEq, Eq, Structural)]
pub struct Point3 {
    pub x: i64,
    pub y: i64,
    pub z: i64,
}

/// A two-dimensional extent (a width and a height) in layout space.
#[derive(Debug, Clone, Copy, PartialEq, Eq, Structural)]
pub struct Extent2 {
    pub x: i64,
    pub y: i64,
}

impl Point3 {
    pub fn new(x: i64, y: i64, z: i64) -> (r: Point3)
        ensures
            r == (Point3 { x, y, z }),
    {
        Point3 { x, y, z }
    }
}

impl Extent2 {
    pub fn new(x: i64, y: i64) -> (r: Extent2)
        ensures
            r == (Extent2 { x, y }),
    {
        Extent2 { x, y }
    }
}

} // verus!
