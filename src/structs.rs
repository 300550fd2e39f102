use vstd::prelude::*;

verus! {

/// A plain rectangle-like object given by its two sides.
pub struct Object {
    pub width: u32,
    pub height: u32,
}

impl Object {
    pub fn new(width: u32, height: u32) -> (r: Self)
        ensures
            r.width == width,
            r.height == height,
    {
        Self { width, height }
    }
}

/// The area of an object, which must fit in a `u32`.
pub fn area(obj: Object) -> (r: u32)
    requires
        obj.width * obj.height <= u32::MAX,
    ensures
        r == obj.width * obj.height,
{
    obj.width * obj.height
}

/// A struct without fields: all its values are equal.
pub struct AlwaysEqual;

/// Builds a value of a unit-like struct.
pub fn unit_like_structs() {
    let _subject = AlwaysEqual;
}

/// The area of a rectangle given as a pair of its sides.
pub fn tuple_area(dimensions: (u32, u32)) -> (r: u32)
    requires
        dimensions.0 * dimensions.1 <= u32::MAX,
    ensures
        r == dimensions.0 * dimensions.1,
{
    dimensions.0 * dimensions.1
}

/// A rectangle given by its named sides.
#[derive(Debug)]
pub struct Rectangle {
    pub width: u32,
    pub height: u32,
}

/// The area of a rectangle, read through a reference.
pub fn area1(rectangle: &Rectangle) -> (r: u32)
    requires
        rectangle.width * rectangle.height <= u32::MAX,
    ensures
        r == rectangle.width * rectangle.height,
{
    rectangle.width * rectangle.height
}

} // verus!
