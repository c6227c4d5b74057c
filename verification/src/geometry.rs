use vstd::prelude::*;

verus! {

/// An axis-aligned rectangle measured in whole units.
#[derive(Debug)]
pub struct Rectangle {
    pub width: u32,
    pub height: u32,
}

impl Rectangle {
    /// Builds the rectangle with the given sides.
    pub fn create(width: u32, height: u32) -> (r: Rectangle)
        ensures
            r.width == width,
            r.height == height,
    {
        Rectangle { width, height }
    }

    /// The exact area, asked for only when it fits in a `u32`.
    pub fn area(&self) -> (r: u32)
        requires
            self.width * self.height <= u32::MAX,
        ensures
            r == self.width * self.height,
    {
        self.width * self.height
    }

    /// Whether `self` is strictly wider than `rect`.
    pub fn wider(&self, rect: &Rectangle) -> (r: bool)
        ensures
            r == (self.width > rect.width),
    {
        self.width > rect.width
    }
}

} // verus!
