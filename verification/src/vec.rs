//! Small integer vector types used by the document schema: a planar pair and
//! a spatial triple of 32-bit coordinates.

use vstd::prelude::*;

verus! {

/// A pair of 32-bit integer coordinates.
#[derive(Debug, Clone, Copy, PartialEq, Eq)]
pub struct Vec2I(pub [i32; 2]);

impl Vec2I {
    pub fn new(x: i32, y: i32) -> (r: Self)
        ensures
            r.0@ == seq![x, y],
    {
        Vec2I([x, y])
    }

    pub fn x(&self) -> (r: i32)
        ensures
            r == self.0@[0],
    {
        self.0[0]
    }

    pub fn y(&self) -> (r: i32)
        ensures
            r == self.0@[1],
    {
        self.0[1]
    }
}

/// A triple of 32-bit integer coordinates.
#[derive(Debug, Clone, Copy, PartialEq, Eq)]
pub struct Vec3I(pub [i32; 3]);

impl Vec3I {
    pub fn new(x: i32, y: i32, z: i32) -> (r: Self)
        ensures
            r.0@ == seq![x, y, z],
    {
        Vec3I([x, y, z])
    }

    pub fn x(&self) -> (r: i32)
        ensures
            r == self.0@[0],
    {
        self.0[0]
    }

    pub fn y(&self) -> (r: i32)
        ensures
            r == self.0@[1],
    {
        self.0[1]
    }

    pub fn z(&self) -> (r: i32)
        ensures
            r == self.0@[2],
    {
        self.0[2]
    }
}

} // verus!
