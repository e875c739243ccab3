use vstd::prelude::*;

verus! {

/// Per-component result of comparing two 4-component vectors.
#[derive(Clone, Copy, Debug, PartialEq, Eq, Structural)]
pub struct BVec4 {
    pub x: bool,
    pub y: bool,
    pub z: bool,
    pub w: bool,
}

impl BVec4 {
    pub fn new(x: bool, y: bool, z: bool, w: bool) -> (r: BVec4)
        ensures
            r.x == x && r.y == y && r.z == z && r.w == w,
    {
        BVec4 { x, y, z, w }
    }

    /// True when at least one component is set.
    pub fn any(&self) -> (r: bool)
        ensures
            r == (self.x || self.y || self.z || self.w),
    {
        self.x || self.y || self.z || self.w
    }

    /// True when every component is set.
    pub fn all(&self) -> (r: bool)
        ensures
            r == (self.x && self.y && self.z && self.w),
    {
        self.x && self.y && self.z && self.w
    }
}

} // verus!
