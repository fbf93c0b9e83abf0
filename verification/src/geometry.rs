//! Plain geometric values used throughout the event model.
//!
//! `Point` is a position or delta in some pixel coordinate space; `Size` is
//! the fixed logical extent of the window's framebuffer.

use vstd::prelude::*;

verus! {

/// A position (or a signed delta) in a pixel coordinate space.
#[derive(Clone, Copy, Debug, PartialEq, Eq, Structural)]
pub struct Point {
    pub x: i32,
    pub y: i32,
}

impl Point {
    pub fn new(x: i32, y: i32) -> (r: Point)
        ensures
            r == (Point { x, y }),
    {
        Point { x, y }
    }
}

/// The logical width and height of the rendered framebuffer, in pixels.
#[derive(Clone, Copy, Debug, PartialEq, Eq, Structural)]
pub struct Size {
    pub width: u32,
    pub height: u32,
}

impl Size {
    pub fn new(width: u32, height: u32) -> (r: Size)
        ensures
            r == (Size { width, height }),
    {
        Size { width, height }
    }
}

} // verus!
