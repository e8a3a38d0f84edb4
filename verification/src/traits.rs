//! Traits with associated types, with type parameters, and with operators
//! overloaded through them.

pub mod assoc;
pub mod generic;

use std::ops::Add;
use vstd::prelude::*;

verus! {

/// A source of items that never has one.
pub struct Foo {}

/// A point in the plane.
#[derive(Debug, PartialEq, Eq, Structural)]
pub struct Point {
    pub x: i32,
    pub y: i32,
}

impl vstd::std_specs::ops::AddSpecImpl for Point {
    open spec fn obeys_add_spec() -> bool {
        true
    }

    open spec fn add_req(self, other: Point) -> bool {
        &&& i32::MIN <= self.x + other.x <= i32::MAX
        &&& i32::MIN <= self.y + other.y <= i32::MAX
    }

    open spec fn add_spec(self, other: Point) -> Point {
        Point { x: (self.x + other.x) as i32, y: (self.y + other.y) as i32 }
    }
}

impl Add for Point {
    type Output = Point;

    /// Adds two points coordinate by coordinate.
    fn add(self, other: Point) -> Point {
        Point { x: self.x + other.x, y: self.y + other.y }
    }
}

/// A length in millimetres.
#[derive(Debug, PartialEq, Eq, Structural)]
pub struct Milimeters(pub u32);

/// A length in metres.
pub struct Meters(pub u32);

impl vstd::std_specs::ops::AddSpecImpl<Meters> for Milimeters {
    open spec fn obeys_add_spec() -> bool {
        true
    }

    open spec fn add_req(self, other: Meters) -> bool {
        self.0 + other.0 * 1000 <= u32::MAX
    }

    open spec fn add_spec(self, other: Meters) -> Milimeters {
        Milimeters((self.0 + other.0 * 1000) as u32)
    }
}

impl Add<Meters> for Milimeters {
    type Output = Milimeters;

    /// Adds a length in metres to one in millimetres.
    fn add(self, other: Meters) -> Milimeters {
        Milimeters(self.0 + other.0 * 1000)
    }
}

/// Adds two points, and a length in metres to one in millimetres, with the
/// `+` operator, and holds each sum against the value it must have.
pub fn default_type_param_and_op_overload() {
    let a = Point { x: -2, y: 3 };
    let b = Point { x: 1, y: 2 };
    let sum = a + b;
    assert(sum == Point { x: -1i32, y: 5i32 });

    let a = Milimeters(42);
    let b = Meters(2);
    let total = a + b;
    assert(total == Milimeters(2042u32));
}

} // verus!
