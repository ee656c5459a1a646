//! Positions, sizes and lengths, in whole units.
use vstd::prelude::*;

verus! {

/// A position, in whole units from the top left corner of the window.
#[derive(Clone, Copy, Debug, PartialEq, Eq, Structural)]
pub struct Point {
    pub x: i32,
    pub y: i32,
}

impl Point {
    /// Creates the point at `x` and `y`.
    pub fn new(x: i32, y: i32) -> (point: Point)
        ensures
            point == (Point { x, y }),
    {
        Point { x, y }
    }
}

/// An amount of space, in whole units.
#[derive(Clone, Copy, Debug, PartialEq, Eq, Structural)]
pub struct Size {
    pub width: u32,
    pub height: u32,
}

impl Size {
    /// Creates the size of `width` by `height`.
    pub fn new(width: u32, height: u32) -> (size: Size)
        ensures
            size == (Size { width, height }),
    {
        Size { width, height }
    }
}

/// The place a widget was given by its layout.
#[derive(Clone, Copy, Debug, PartialEq, Eq, Structural)]
pub struct Rectangle {
    pub x: i32,
    pub y: i32,
    pub width: u32,
    pub height: u32,
}

impl Rectangle {
    /// Creates the rectangle of `size` with its top left corner at `top_left`.
    pub fn new(top_left: Point, size: Size) -> (rectangle: Rectangle)
        ensures
            rectangle == (Rectangle {
                x: top_left.x,
                y: top_left.y,
                width: size.width,
                height: size.height,
            }),
    {
        Rectangle { x: top_left.x, y: top_left.y, width: size.width, height: size.height }
    }

    /// The size of the rectangle.
    pub open spec fn extent(self) -> Size {
        Size { width: self.width, height: self.height }
    }

    /// Returns the size of the rectangle.
    pub fn size(&self) -> (size: Size)
        ensures
            size == self.extent(),
    {
        Size { width: self.width, height: self.height }
    }
}

/// How a widget asks for space along one axis.
#[derive(Clone, Copy, Debug, PartialEq, Eq, Structural)]
pub enum Length {
    /// All the space there is.
    Fill,
    /// A share of the space that is left, in proportion to the number. One
    /// widget alone gets all of it.
    FillPortion(u16),
    /// As little space as possible.
    Shrink,
    /// This many units.
    Units(u16),
}

} // verus!
