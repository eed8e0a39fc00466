//! Axis-aligned bounding box stored as six 32-bit integers: the minimum
//! corner followed by the maximum corner, in x, y, z order.

use crate::vec::Vec3I;
use vstd::prelude::*;

verus! {

/// A box given by its minimum and maximum corners, packed as
/// `[min_x, min_y, min_z, max_x, max_y, max_z]`.
#[derive(Debug, Clone, Copy, PartialEq, Eq)]
pub struct BoundingBox(pub [i32; 6]);

impl BoundingBox {
    pub fn new(min_pos: Vec3I, max_pos: Vec3I) -> (r: Self)
        ensures
            r.0@ == seq![
                min_pos.0@[0],
                min_pos.0@[1],
                min_pos.0@[2],
                max_pos.0@[0],
                max_pos.0@[1],
                max_pos.0@[2],
            ],
    {
        BoundingBox(
            [
                min_pos.x(),
                min_pos.y(),
                min_pos.z(),
                max_pos.x(),
                max_pos.y(),
                max_pos.z(),
            ],
        )
    }

    pub fn min_pos(&self) -> (r: Vec3I)
        ensures
            r.0@ == seq![self.0@[0], self.0@[1], self.0@[2]],
    {
        Vec3I::new(self.0[0], self.0[1], self.0[2])
    }

    pub fn max_pos(&self) -> (r: Vec3I)
        ensures
            r.0@ == seq![self.0@[3], self.0@[4], self.0@[5]],
    {
        Vec3I::new(self.0[3], self.0[4], self.0[5])
    }
}

} // verus!
