//! Rectangles with their area and a few tests on their sides.
use vstd::prelude::*;

verus! {

/// A rectangle with sides of whole length.
#[derive(Clone, Copy, Debug, PartialEq, Eq, Structural)]
pub struct Rectangle {
    pub width: u32,
    pub height: u32,
}

impl Rectangle {
    /// The area, as a mathematical integer.
    pub open spec fn spec_area(self) -> int {
        self.width * self.height
    }

    /// The area of the rectangle.
    pub fn area(&self) -> (a: u32)
        requires
            self.spec_area() <= u32::MAX,
        ensures
            a == self.spec_area(),
    {
        self.width * self.height
    }

    /// Whether the rectangle has a width at all.
    pub fn width(&self) -> (b: bool)
        ensures
            b == (self.width > 0),
    {
        self.width > 0
    }

    /// Whether `other` fits inside `self` with room to spare on both sides.
    pub fn can_hold(&self, other: &Rectangle) -> (b: bool)
        ensures
            b == (self.width > other.width && self.height > other.height),
    {
        self.width > other.width && self.height > other.height
    }

    /// The square with sides of length `size`.
    pub fn square(size: u32) -> (r: Rectangle)
        ensures
            r == (Rectangle { width: size, height: size }),
    {
        Rectangle { width: size, height: size }
    }
}

} // verus!
