//! Integer 2D vector used as a pixel position (top-left anchor of a sprite).

use vstd::prelude::*;

verus! {

#[derive(Debug, Clone, Copy, PartialEq, Eq, Structural)]
pub struct Vec2 {
    pub x: i32,
    pub y: i32,
}

impl Vec2 {
    pub fn new(x: i32, y: i32) -> (v: Vec2)
        ensures
            v.x == x,
            v.y == y,
    {
        Self { x, y }
    }
}

} // verus!
