//! Plain integer geometry: points, vectors, sizes and rectangles.
//!
//! Coordinates are signed integers in the canvas' own unit; dimensions are
//! unsigned.
use vstd::prelude::*;

verus! {

/// Whether an unbounded integer can be stored as an `i64` coordinate.
pub open spec fn fits_i64(v: int) -> bool {
    i64::MIN <= v <= i64::MAX
}

/// A position on the canvas.
#[derive(Clone, Copy, Debug, PartialEq, Eq, Structural)]
pub struct Point {
    pub x: i64,
    pub y: i64,
}

impl Point {
    pub fn new(x: i64, y: i64) -> (r: Point)
        ensures
            r.x == x,
            r.y == y,
    {
        Point { x, y }
    }
}

/// A displacement on the canvas.
#[derive(Clone, Copy, Debug, PartialEq, Eq, Structural)]
pub struct Vector {
    pub x: i64,
    pub y: i64,
}

impl Vector {
    pub fn new(x: i64, y: i64) -> (r: Vector)
        ensures
            r.x == x,
            r.y == y,
    {
        Vector { x, y }
    }
}

/// The dimensions of a drawing surface or of a rectangle.
#[derive(Clone, Copy, Debug, PartialEq, Eq, Structural)]
pub struct Size {
    pub width: u32,
    pub height: u32,
}

impl Size {
    pub fn new(width: u32, height: u32) -> (r: Size)
        ensures
            r.width == width,
            r.height == height,
    {
        Size { width, height }
    }
}

/// An axis-aligned rectangle given by its top-left corner and its size.
#[derive(Clone, Copy, Debug, PartialEq, Eq, Structural)]
pub struct Rectangle {
    pub x: i64,
    pub y: i64,
    pub width: u32,
    pub height: u32,
}

impl Rectangle {
    pub fn new(top_left: Point, size: Size) -> (r: Rectangle)
        ensures
            r.x == top_left.x,
            r.y == top_left.y,
            r.width == size.width,
            r.height == size.height,
    {
        Rectangle { x: top_left.x, y: top_left.y, width: size.width, height: size.height }
    }

    /// The rectangle of the given size whose top-left corner is the origin.
    pub fn with_size(size: Size) -> (r: Rectangle)
        ensures
            r.x == 0,
            r.y == 0,
            r.width == size.width,
            r.height == size.height,
    {
        Rectangle { x: 0, y: 0, width: size.width, height: size.height }
    }

    pub fn size(&self) -> (r: Size)
        ensures
            r.width == self.width,
            r.height == self.height,
    {
        Size { width: self.width, height: self.height }
    }

    /// The displacement from the origin to the top-left corner.
    pub fn offset(&self) -> (r: Vector)
        ensures
            r.x == self.x,
            r.y == self.y,
    {
        Vector { x: self.x, y: self.y }
    }
}

} // verus!
