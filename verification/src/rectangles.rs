//! Areas of axis-aligned rectangles measured in whole pixels.

use vstd::prelude::*;

verus! {

/// Area of a `width` by `height` rectangle.
pub fn area(width: u32, height: u32) -> (a: u32)
    requires
        width * height <= u32::MAX,
    ensures
        a == width * height,
{
    width * height
}

/// Area of a rectangle given as a `(width, height)` pair.
pub fn area2(rectangle: (u32, u32)) -> (a: u32)
    requires
        rectangle.0 * rectangle.1 <= u32::MAX,
    ensures
        a == rectangle.0 * rectangle.1,
{
    rectangle.0 * rectangle.1
}

#[derive(Debug)]
pub struct Rectangle {
    pub width: u32,
    pub height: u32,
}

impl Rectangle {
    /// The mathematical area, free of any machine limit.
    pub open spec fn spec_area(&self) -> int {
        self.width * self.height
    }

    /// Whether `other` fits inside `self` without rotation.
    pub open spec fn spec_can_hold(&self, other: &Rectangle) -> bool {
        self.width >= other.width && self.height >= other.height
    }

    /// A rectangle whose sides both measure `size`.
    pub fn square(size: u32) -> (r: Rectangle)
        ensures
            r.width == size,
            r.height == size,
    {
        Rectangle { width: size, height: size }
    }

    pub fn area(&self) -> (a: u32)
        requires
            self.spec_area() <= u32::MAX,
        ensures
            a == self.spec_area(),
    {
        self.width * self.height
    }

    pub fn can_hold(&self, other: &Rectangle) -> (b: bool)
        ensures
            b == self.spec_can_hold(other),
    {
        self.width >= other.width && self.height >= other.height
    }
}

} // verus!
