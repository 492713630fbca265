//! Rectangles: area, containment, squares, and a hand-written equality
//! with a proved meaning.

use vstd::prelude::*;

verus! {

/// An axis-aligned rectangle, measured in whole units.
#[derive(Debug)]
pub struct Rectangle {
    pub width: u32,
    pub height: u32,
}

impl Rectangle {
    /// The rectangle's area, defined whenever it fits in `u32`.
    pub fn calc_area(&self) -> (r: u32)
        requires
            self.width * self.height <= u32::MAX,
        ensures
            r == self.width * self.height,
    {
        self.width * self.height
    }

    /// Whether `other` fits strictly inside `self` in both dimensions.
    pub fn can_hold(&self, other: &Rectangle) -> (r: bool)
        ensures
            r == (self.width > other.width && self.height > other.height),
    {
        self.width > other.width && self.height > other.height
    }

    /// A square with the given side length.
    pub fn square(size: u32) -> (r: Rectangle)
        ensures
            r.width == size && r.height == size,
    {
        Rectangle { width: size, height: size }
    }
}

impl PartialEq for Rectangle {
    fn eq(&self, other: &Rectangle) -> (r: bool) {
        self.width == other.width && self.height == other.height
    }
}

impl vstd::std_specs::cmp::PartialEqSpecImpl for Rectangle {
    open spec fn obeys_eq_spec() -> bool {
        true
    }

    open spec fn eq_spec(&self, other: &Rectangle) -> bool {
        self.width == other.width && self.height == other.height
    }
}

/// The rectangle's area, as a free function.
pub fn calc_area(rectangle: &Rectangle) -> (r: u32)
    requires
        rectangle.width * rectangle.height <= u32::MAX,
    ensures
        r == rectangle.width * rectangle.height,
{
    rectangle.width * rectangle.height
}

} // verus!
