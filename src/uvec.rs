use vstd::prelude::*;
use vstd::string::StringExecFns;
use crate::arith::{
    greater, lesser, narrow_u32, wide_product_u32, wrap_u32, wrapping_difference_u32,
};
use crate::mask::BVec4;
use crate::text::{decimal, joined4, push_unsigned4};

verus! {

/// A 2-component vector of `u32`.
#[derive(Clone, Copy, Debug, PartialEq, Eq, Structural)]
pub struct UVec2 {
    pub x: u32,
    pub y: u32,
}

/// A 3-component vector of `u32`.
#[derive(Clone, Copy, Debug, PartialEq, Eq, Structural)]
pub struct UVec3 {
    pub x: u32,
    pub y: u32,
    pub z: u32,
}

/// A 4-component vector of `u32`.
#[derive(Clone, Copy, Debug, PartialEq, Eq, Structural)]
pub struct UVec4 {
    pub x: u32,
    pub y: u32,
    pub z: u32,
    pub w: u32,
}

pub open spec fn uvec4_of(x: u32, y: u32, z: u32, w: u32) -> UVec4 {
    UVec4 { x, y, z, w }
}

/// The vector whose components are the tuple's, in order.
pub open spec fn uvec4_of_tuple(t: (u32, u32, u32, u32)) -> UVec4 {
    uvec4_of(t.0, t.1, t.2, t.3)
}

/// The components of `v` as a tuple, in x, y, z, w order.
pub open spec fn tuple_of_uvec4(v: UVec4) -> (u32, u32, u32, u32) {
    (v.x, v.y, v.z, v.w)
}

/// `v` with `w` appended as its fourth component.
pub open spec fn uvec3_extended(v: UVec3, w: u32) -> UVec4 {
    uvec4_of(v.x, v.y, v.z, w)
}

/// `v` with its last component dropped.
pub open spec fn uvec4_truncated(v: UVec4) -> UVec3 {
    UVec3 { x: v.x, y: v.y, z: v.z }
}

/// The exact (unwrapped) dot product.
pub open spec fn uvec4_dot(a: UVec4, b: UVec4) -> int {
    a.x * b.x + a.y * b.y + a.z * b.z + a.w * b.w
}

/// Component-wise sum, each wrapped to 32 bits.
pub open spec fn uvec4_sum(a: UVec4, b: UVec4) -> UVec4 {
    uvec4_of(
        wrap_u32(a.x + b.x),
        wrap_u32(a.y + b.y),
        wrap_u32(a.z + b.z),
        wrap_u32(a.w + b.w),
    )
}

/// Component-wise difference, each wrapped to 32 bits.
pub open spec fn uvec4_difference(a: UVec4, b: UVec4) -> UVec4 {
    uvec4_of(
        wrap_u32(a.x - b.x),
        wrap_u32(a.y - b.y),
        wrap_u32(a.z - b.z),
        wrap_u32(a.w - b.w),
    )
}

/// Component-wise product, each wrapped to 32 bits.
pub open spec fn uvec4_product(a: UVec4, b: UVec4) -> UVec4 {
    uvec4_of(
        wrap_u32(a.x * b.x),
        wrap_u32(a.y * b.y),
        wrap_u32(a.z * b.z),
        wrap_u32(a.w * b.w),
    )
}

/// Display form: `[x, y, z, w]`.
pub open spec fn uvec4_display(v: UVec4) -> Seq<char> {
    seq!['['] + joined4(
        decimal(v.x as nat),
        decimal(v.y as nat),
        decimal(v.z as nat),
        decimal(v.w as nat),
    ) + seq![']']
}

/// Debug form: `UVec4(x, y, z, w)`.
pub open spec fn uvec4_debug(v: UVec4) -> Seq<char> {
    seq!['U', 'V', 'e', 'c', '4', '('] + joined4(
        decimal(v.x as nat),
        decimal(v.y as nat),
        decimal(v.z as nat),
        decimal(v.w as nat),
    ) + seq![')']
}

impl UVec2 {
    pub fn new(x: u32, y: u32) -> (r: UVec2)
        ensures
            r == (UVec2 { x, y }),
    {
        UVec2 { x, y }
    }
}

impl UVec3 {
    pub fn new(x: u32, y: u32, z: u32) -> (r: UVec3)
        ensures
            r == (UVec3 { x, y, z }),
    {
        UVec3 { x, y, z }
    }

    /// Appends `w` as a fourth component.
    pub fn extend(self, w: u32) -> (r: UVec4)
        ensures
            r == uvec3_extended(self, w),
    {
        UVec4 { x: self.x, y: self.y, z: self.z, w }
    }
}

/// Creates a 4-component vector.
pub fn uvec4(x: u32, y: u32, z: u32, w: u32) -> (r: UVec4)
    ensures
        r == uvec4_of(x, y, z, w),
{
    UVec4::new(x, y, z, w)
}

impl UVec4 {
    pub fn new(x: u32, y: u32, z: u32, w: u32) -> (r: UVec4)
        ensures
            r == uvec4_of(x, y, z, w),
    {
        UVec4 { x, y, z, w }
    }

    /// All components zero.
    pub fn zero() -> (r: UVec4)
        ensures
            r == uvec4_of(0, 0, 0, 0),
    {
        UVec4 { x: 0, y: 0, z: 0, w: 0 }
    }

    /// All components one.
    pub fn one() -> (r: UVec4)
        ensures
            r == uvec4_of(1, 1, 1, 1),
    {
        UVec4 { x: 1, y: 1, z: 1, w: 1 }
    }

    pub fn unit_x() -> (r: UVec4)
        ensures
            r == uvec4_of(1, 0, 0, 0),
    {
        UVec4 { x: 1, y: 0, z: 0, w: 0 }
    }

    pub fn unit_y() -> (r: UVec4)
        ensures
            r == uvec4_of(0, 1, 0, 0),
    {
        UVec4 { x: 0, y: 1, z: 0, w: 0 }
    }

    pub fn unit_z() -> (r: UVec4)
        ensures
            r == uvec4_of(0, 0, 1, 0),
    {
        UVec4 { x: 0, y: 0, z: 1, w: 0 }
    }

    pub fn unit_w() -> (r: UVec4)
        ensures
            r == uvec4_of(0, 0, 0, 1),
    {
        UVec4 { x: 0, y: 0, z: 0, w: 1 }
    }

    /// Drops the `w` component.
    pub fn truncate(self) -> (r: UVec3)
        ensures
            r == uvec4_truncated(self),
    {
        UVec3::new(self.x, self.y, self.z)
    }

    /// Component-wise minimum.
    pub fn min(self, other: UVec4) -> (r: UVec4)
        ensures
            r.x == lesser(self.x as int, other.x as int),
            r.y == lesser(self.y as int, other.y as int),
            r.z == lesser(self.z as int, other.z as int),
            r.w == lesser(self.w as int, other.w as int),
    {
        UVec4 {
            x: if self.x <= other.x { self.x } else { other.x },
            y: if self.y <= other.y { self.y } else { other.y },
            z: if self.z <= other.z { self.z } else { other.z },
            w: if self.w <= other.w { self.w } else { other.w },
        }
    }

    /// Component-wise maximum.
    pub fn max(self, other: UVec4) -> (r: UVec4)
        ensures
            r.x == greater(self.x as int, other.x as int),
            r.y == greater(self.y as int, other.y as int),
            r.z == greater(self.z as int, other.z as int),
            r.w == greater(self.w as int, other.w as int),
    {
        UVec4 {
            x: if self.x >= other.x { self.x } else { other.x },
            y: if self.y >= other.y { self.y } else { other.y },
            z: if self.z >= other.z { self.z } else { other.z },
            w: if self.w >= other.w { self.w } else { other.w },
        }
    }

    /// Dot product, wrapping around on overflow.
    pub fn dot(self, other: UVec4) -> (r: u32)
        ensures
            r == wrap_u32(uvec4_dot(self, other)),
    {
        let px = wide_product_u32(self.x, other.x);
        let py = wide_product_u32(self.y, other.y);
        let pz = wide_product_u32(self.z, other.z);
        let pw = wide_product_u32(self.w, other.w);
        narrow_u32(px + py + pz + pw)
    }

    pub fn cmpeq(self, other: UVec4) -> (r: BVec4)
        ensures
            r == (BVec4 { x: self.x == other.x, y: self.y == other.y, z: self.z == other.z, w: self.w == other.w }),
    {
        BVec4::new(self.x == other.x, self.y == other.y, self.z == other.z, self.w == other.w)
    }

    pub fn cmpne(self, other: UVec4) -> (r: BVec4)
        ensures
            r == (BVec4 { x: self.x != other.x, y: self.y != other.y, z: self.z != other.z, w: self.w != other.w }),
    {
        BVec4::new(self.x != other.x, self.y != other.y, self.z != other.z, self.w != other.w)
    }

    pub fn cmplt(self, other: UVec4) -> (r: BVec4)
        ensures
            r == (BVec4 { x: self.x < other.x, y: self.y < other.y, z: self.z < other.z, w: self.w < other.w }),
    {
        BVec4::new(self.x < other.x, self.y < other.y, self.z < other.z, self.w < other.w)
    }

    pub fn cmple(self, other: UVec4) -> (r: BVec4)
        ensures
            r == (BVec4 { x: self.x <= other.x, y: self.y <= other.y, z: self.z <= other.z, w: self.w <= other.w }),
    {
        BVec4::new(self.x <= other.x, self.y <= other.y, self.z <= other.z, self.w <= other.w)
    }

    pub fn cmpgt(self, other: UVec4) -> (r: BVec4)
        ensures
            r == (BVec4 { x: self.x > other.x, y: self.y > other.y, z: self.z > other.z, w: self.w > other.w }),
    {
        BVec4::new(self.x > other.x, self.y > other.y, self.z > other.z, self.w > other.w)
    }

    pub fn cmpge(self, other: UVec4) -> (r: BVec4)
        ensures
            r == (BVec4 { x: self.x >= other.x, y: self.y >= other.y, z: self.z >= other.z, w: self.w >= other.w }),
    {
        BVec4::new(self.x >= other.x, self.y >= other.y, self.z >= other.z, self.w >= other.w)
    }

    /// Renders the vector as `[x, y, z, w]`.
    pub fn to_display_string(&self) -> (r: String)
        ensures
            r@ == uvec4_display(*self),
    {
        let mut s = String::new();
        proof {
            reveal_strlit("[");
            reveal_strlit("]");
        }
        s.append("[");
        push_unsigned4(&mut s, self.x as u64, self.y as u64, self.z as u64, self.w as u64);
        s.append("]");
        s
    }

    /// Renders the vector as `UVec4(x, y, z, w)`.
    pub fn to_debug_string(&self) -> (r: String)
        ensures
            r@ == uvec4_debug(*self),
    {
        let mut s = String::new();
        proof {
            reveal_strlit("UVec4(");
            reveal_strlit(")");
        }
        s.append("UVec4(");
        push_unsigned4(&mut s, self.x as u64, self.y as u64, self.z as u64, self.w as u64);
        s.append(")");
        s
    }
}

impl From<(u32, u32, u32, u32)> for UVec4 {
    fn from(t: (u32, u32, u32, u32)) -> (r: UVec4) {
        UVec4::new(t.0, t.1, t.2, t.3)
    }
}

impl vstd::std_specs::convert::FromSpecImpl<(u32, u32, u32, u32)> for UVec4 {
    open spec fn obeys_from_spec() -> bool {
        true
    }

    open spec fn from_spec(t: (u32, u32, u32, u32)) -> UVec4 {
        uvec4_of_tuple(t)
    }
}

impl From<UVec4> for (u32, u32, u32, u32) {
    fn from(v: UVec4) -> (r: (u32, u32, u32, u32)) {
        (v.x, v.y, v.z, v.w)
    }
}

impl vstd::std_specs::convert::FromSpecImpl<UVec4> for (u32, u32, u32, u32) {
    open spec fn obeys_from_spec() -> bool {
        true
    }

    open spec fn from_spec(v: UVec4) -> (u32, u32, u32, u32) {
        tuple_of_uvec4(v)
    }
}

impl From<(UVec3, u32)> for UVec4 {
    fn from(p: (UVec3, u32)) -> (r: UVec4) {
        p.0.extend(p.1)
    }
}

impl vstd::std_specs::convert::FromSpecImpl<(UVec3, u32)> for UVec4 {
    open spec fn obeys_from_spec() -> bool {
        true
    }

    open spec fn from_spec(p: (UVec3, u32)) -> UVec4 {
        uvec3_extended(p.0, p.1)
    }
}

impl From<UVec4> for UVec3 {
    fn from(v: UVec4) -> (r: UVec3) {
        v.truncate()
    }
}

impl vstd::std_specs::convert::FromSpecImpl<UVec4> for UVec3 {
    open spec fn obeys_from_spec() -> bool {
        true
    }

    open spec fn from_spec(v: UVec4) -> UVec3 {
        uvec4_truncated(v)
    }
}

impl From<UVec4> for UVec2 {
    fn from(v: UVec4) -> (r: UVec2) {
        UVec2::new(v.x, v.y)
    }
}

impl vstd::std_specs::convert::FromSpecImpl<UVec4> for UVec2 {
    open spec fn obeys_from_spec() -> bool {
        true
    }

    open spec fn from_spec(v: UVec4) -> UVec2 {
        UVec2 { x: v.x, y: v.y }
    }
}

impl core::ops::Add for UVec4 {
    type Output = UVec4;

    /// Adds component-wise, wrapping around on overflow.
    fn add(self, o: UVec4) -> (r: UVec4) {
        UVec4 {
            x: narrow_u32(self.x as u128 + o.x as u128),
            y: narrow_u32(self.y as u128 + o.y as u128),
            z: narrow_u32(self.z as u128 + o.z as u128),
            w: narrow_u32(self.w as u128 + o.w as u128),
        }
    }
}

impl vstd::std_specs::ops::AddSpecImpl for UVec4 {
    open spec fn obeys_add_spec() -> bool {
        true
    }

    open spec fn add_req(self, o: UVec4) -> bool {
        true
    }

    open spec fn add_spec(self, o: UVec4) -> UVec4 {
        uvec4_sum(self, o)
    }
}

impl core::ops::Sub for UVec4 {
    type Output = UVec4;

    /// Subtracts component-wise, wrapping around on overflow.
    fn sub(self, o: UVec4) -> (r: UVec4) {
        UVec4 {
            x: wrapping_difference_u32(self.x, o.x),
            y: wrapping_difference_u32(self.y, o.y),
            z: wrapping_difference_u32(self.z, o.z),
            w: wrapping_difference_u32(self.w, o.w),
        }
    }
}

impl vstd::std_specs::ops::SubSpecImpl for UVec4 {
    open spec fn obeys_sub_spec() -> bool {
        true
    }

    open spec fn sub_req(self, o: UVec4) -> bool {
        true
    }

    open spec fn sub_spec(self, o: UVec4) -> UVec4 {
        uvec4_difference(self, o)
    }
}

impl core::ops::Mul for UVec4 {
    type Output = UVec4;

    /// Multiplies component-wise, wrapping around on overflow.
    fn mul(self, o: UVec4) -> (r: UVec4) {
        UVec4 {
            x: narrow_u32(wide_product_u32(self.x, o.x)),
            y: narrow_u32(wide_product_u32(self.y, o.y)),
            z: narrow_u32(wide_product_u32(self.z, o.z)),
            w: narrow_u32(wide_product_u32(self.w, o.w)),
        }
    }
}

impl vstd::std_specs::ops::MulSpecImpl for UVec4 {
    open spec fn obeys_mul_spec() -> bool {
        true
    }

    open spec fn mul_req(self, o: UVec4) -> bool {
        true
    }

    open spec fn mul_spec(self, o: UVec4) -> UVec4 {
        uvec4_product(self, o)
    }
}

/// Turning a vector into a tuple and back gives the vector again.
pub proof fn lemma_uvec4_tuple_round_trip(v: UVec4)
    ensures
        uvec4_of_tuple(tuple_of_uvec4(v)) == v,
{
}

/// Appending a component and then dropping it gives the 3-component vector again.
pub proof fn lemma_uvec4_truncate_extend(v: UVec3, w: u32)
    ensures
        uvec4_truncated(uvec3_extended(v, w)) == v,
{
}

} // verus!
