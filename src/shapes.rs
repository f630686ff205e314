//! Rectangles that may hold one another, and a bounded guess.
use vstd::prelude::*;

verus! {

pub struct Rectangle {
    pub x: i32,
    pub y: i32,
}

/// Whether `rect1` is strictly larger than `rect2` on both sides.
pub fn can_hold(rect1: &Rectangle, rect2: &Rectangle) -> (r: bool)
    ensures
        r == (rect1.x > rect2.x && rect1.y > rect2.y),
{
    rect1.x > rect2.x && rect1.y > rect2.y
}

/// A guess between 1 and 100.
pub struct Guess {
    pub value: i32,
}

impl Guess {
    /// A guess of `value`, which must lie between 1 and 100.
    pub fn new(value: i32) -> (r: Self)
        requires
            1 <= value <= 100,
        ensures
            r.value == value,
    {
        Guess { value }
    }
}

} // verus!
