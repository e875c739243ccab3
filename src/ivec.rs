use vstd::prelude::*;
use vstd::string::StringExecFns;
use crate::arith::{greater, lesser, magnitude, narrow_i32, sign_of, wide_product_i32, wrap_i32};
use crate::mask::BVec4;
use crate::text::{joined4, push_signed4, signed_decimal};

verus! {

/// A 2-component vector of `i32`.
#[derive(Clone, Copy, Debug, PartialEq, Eq, Structural)]
pub struct IVec2 {
    pub x: i32,
    pub y: i32,
}

/// A 3-component vector of `i32`.
#[derive(Clone, Copy, Debug, PartialEq, Eq, Structural)]
pub struct IVec3 {
    pub x: i32,
    pub y: i32,
    pub z: i32,
}

/// A 4-component vector of `i32`.
#[derive(Clone, Copy, Debug, PartialEq, Eq, Structural)]
pub struct IVec4 {
    pub x: i32,
    pub y: i32,
    pub z: i32,
    pub w: i32,
}

pub open spec fn ivec4_of(x: i32, y: i32, z: i32, w: i32) -> IVec4 {
    IVec4 { x, y, z, w }
}

/// The vector whose components are the tuple's, in order.
pub open spec fn ivec4_of_tuple(t: (i32, i32, i32, i32)) -> IVec4 {
    ivec4_of(t.0, t.1, t.2, t.3)
}

/// The components of `v` as a tuple, in x, y, z, w order.
pub open spec fn tuple_of_ivec4(v: IVec4) -> (i32, i32, i32, i32) {
    (v.x, v.y, v.z, v.w)
}

/// `v` with `w` appended as its fourth component.
pub open spec fn ivec3_extended(v: IVec3, w: i32) -> IVec4 {
    ivec4_of(v.x, v.y, v.z, w)
}

/// `v` with its last component dropped.
pub open spec fn ivec4_truncated(v: IVec4) -> IVec3 {
    IVec3 { x: v.x, y: v.y, z: v.z }
}

/// The exact (unwrapped) dot product.
pub open spec fn ivec4_dot(a: IVec4, b: IVec4) -> int {
    a.x * b.x + a.y * b.y + a.z * b.z + a.w * b.w
}

/// Component-wise sum, each wrapped to 32 bits.
pub open spec fn ivec4_sum(a: IVec4, b: IVec4) -> IVec4 {
    ivec4_of(
        wrap_i32(a.x + b.x),
        wrap_i32(a.y + b.y),
        wrap_i32(a.z + b.z),
        wrap_i32(a.w + b.w),
    )
}

/// Component-wise difference, each wrapped to 32 bits.
pub open spec fn ivec4_difference(a: IVec4, b: IVec4) -> IVec4 {
    ivec4_of(
        wrap_i32(a.x - b.x),
        wrap_i32(a.y - b.y),
        wrap_i32(a.z - b.z),
        wrap_i32(a.w - b.w),
    )
}

/// Component-wise product, each wrapped to 32 bits.
pub open spec fn ivec4_product(a: IVec4, b: IVec4) -> IVec4 {
    ivec4_of(
        wrap_i32(a.x * b.x),
        wrap_i32(a.y * b.y),
        wrap_i32(a.z * b.z),
        wrap_i32(a.w * b.w),
    )
}

/// Component-wise negation, each wrapped to 32 bits.
pub open spec fn ivec4_negated(a: IVec4) -> IVec4 {
    ivec4_of(wrap_i32(-a.x), wrap_i32(-a.y), wrap_i32(-a.z), wrap_i32(-a.w))
}

/// Display form: `[x, y, z, w]`.
pub open spec fn ivec4_display(v: IVec4) -> Seq<char> {
    seq!['['] + joined4(
        signed_decimal(v.x as int),
        signed_decimal(v.y as int),
        signed_decimal(v.z as int),
        signed_decimal(v.w as int),
    ) + seq![']']
}

/// Debug form: `IVec4(x, y, z, w)`.
pub open spec fn ivec4_debug(v: IVec4) -> Seq<char> {
    seq!['I', 'V', 'e', 'c', '4', '('] + joined4(
        signed_decimal(v.x as int),
        signed_decimal(v.y as int),
        signed_decimal(v.z as int),
        signed_decimal(v.w as int),
    ) + seq![')']
}

impl IVec2 {
    pub fn new(x: i32, y: i32) -> (r: IVec2)
        ensures
            r == (IVec2 { x, y }),
    {
        IVec2 { x, y }
    }
}

impl IVec3 {
    pub fn new(x: i32, y: i32, z: i32) -> (r: IVec3)
        ensures
            r == (IVec3 { x, y, z }),
    {
        IVec3 { x, y, z }
    }

    /// Appends `w` as a fourth component.
    pub fn extend(self, w: i32) -> (r: IVec4)
        ensures
            r == ivec3_extended(self, w),
    {
        IVec4 { x: self.x, y: self.y, z: self.z, w }
    }
}

/// Creates a 4-component vector.
pub fn ivec4(x: i32, y: i32, z: i32, w: i32) -> (r: IVec4)
    ensures
        r == ivec4_of(x, y, z, w),
{
    IVec4::new(x, y, z, w)
}

impl IVec4 {
    pub fn new(x: i32, y: i32, z: i32, w: i32) -> (r: IVec4)
        ensures
            r == ivec4_of(x, y, z, w),
    {
        IVec4 { x, y, z, w }
    }

    /// All components zero.
    pub fn zero() -> (r: IVec4)
        ensures
            r == ivec4_of(0, 0, 0, 0),
    {
        IVec4 { x: 0, y: 0, z: 0, w: 0 }
    }

    /// All components one.
    pub fn one() -> (r: IVec4)
        ensures
            r == ivec4_of(1, 1, 1, 1),
    {
        IVec4 { x: 1, y: 1, z: 1, w: 1 }
    }

    pub fn unit_x() -> (r: IVec4)
        ensures
            r == ivec4_of(1, 0, 0, 0),
    {
        IVec4 { x: 1, y: 0, z: 0, w: 0 }
    }

    pub fn unit_y() -> (r: IVec4)
        ensures
            r == ivec4_of(0, 1, 0, 0),
    {
        IVec4 { x: 0, y: 1, z: 0, w: 0 }
    }

    pub fn unit_z() -> (r: IVec4)
        ensures
            r == ivec4_of(0, 0, 1, 0),
    {
        IVec4 { x: 0, y: 0, z: 1, w: 0 }
    }

    pub fn unit_w() -> (r: IVec4)
        ensures
            r == ivec4_of(0, 0, 0, 1),
    {
        IVec4 { x: 0, y: 0, z: 0, w: 1 }
    }

    /// Drops the `w` component.
    pub fn truncate(self) -> (r: IVec3)
        ensures
            r == ivec4_truncated(self),
    {
        IVec3::new(self.x, self.y, self.z)
    }

    /// Component-wise minimum.
    pub fn min(self, other: IVec4) -> (r: IVec4)
        ensures
            r.x == lesser(self.x as int, other.x as int),
            r.y == lesser(self.y as int, other.y as int),
            r.z == lesser(self.z as int, other.z as int),
            r.w == lesser(self.w as int, other.w as int),
    {
        IVec4 {
            x: if self.x <= other.x { self.x } else { other.x },
            y: if self.y <= other.y { self.y } else { other.y },
            z: if self.z <= other.z { self.z } else { other.z },
            w: if self.w <= other.w { self.w } else { other.w },
        }
    }

    /// Component-wise maximum.
    pub fn max(self, other: IVec4) -> (r: IVec4)
        ensures
            r.x == greater(self.x as int, other.x as int),
            r.y == greater(self.y as int, other.y as int),
            r.z == greater(self.z as int, other.z as int),
            r.w == greater(self.w as int, other.w as int),
    {
        IVec4 {
            x: if self.x >= other.x { self.x } else { other.x },
            y: if self.y >= other.y { self.y } else { other.y },
            z: if self.z >= other.z { self.z } else { other.z },
            w: if self.w >= other.w { self.w } else { other.w },
        }
    }

    /// Dot product, wrapping around on overflow.
    pub fn dot(self, other: IVec4) -> (r: i32)
        ensures
            r == wrap_i32(ivec4_dot(self, other)),
    {
        let px = wide_product_i32(self.x, other.x);
        let py = wide_product_i32(self.y, other.y);
        let pz = wide_product_i32(self.z, other.z);
        let pw = wide_product_i32(self.w, other.w);
        narrow_i32(px + py + pz + pw)
    }

    /// Absolute value of each component, wrapping around on overflow.
    pub fn abs(self) -> (r: IVec4)
        ensures
            r.x == wrap_i32(magnitude(self.x as int)),
            r.y == wrap_i32(magnitude(self.y as int)),
            r.z == wrap_i32(magnitude(self.z as int)),
            r.w == wrap_i32(magnitude(self.w as int)),
    {
        IVec4 {
            x: narrow_i32(if self.x < 0 { 0 - self.x as i128 } else { self.x as i128 }),
            y: narrow_i32(if self.y < 0 { 0 - self.y as i128 } else { self.y as i128 }),
            z: narrow_i32(if self.z < 0 { 0 - self.z as i128 } else { self.z as i128 }),
            w: narrow_i32(if self.w < 0 { 0 - self.w as i128 } else { self.w as i128 }),
        }
    }

    /// Sign of each component: -1, 0 or 1.
    pub fn signum(self) -> (r: IVec4)
        ensures
            r.x == sign_of(self.x as int),
            r.y == sign_of(self.y as int),
            r.z == sign_of(self.z as int),
            r.w == sign_of(self.w as int),
    {
        IVec4 {
            x: if self.x < 0 { -1 } else if self.x > 0 { 1 } else { 0 },
            y: if self.y < 0 { -1 } else if self.y > 0 { 1 } else { 0 },
            z: if self.z < 0 { -1 } else if self.z > 0 { 1 } else { 0 },
            w: if self.w < 0 { -1 } else if self.w > 0 { 1 } else { 0 },
        }
    }

    /// Raises each component to `min`, then lowers it to `max`.
    pub fn clamp(self, min: IVec4, max: IVec4) -> (r: IVec4)
        ensures
            r.x == lesser(greater(self.x as int, min.x as int), max.x as int),
            r.y == lesser(greater(self.y as int, min.y as int), max.y as int),
            r.z == lesser(greater(self.z as int, min.z as int), max.z as int),
            r.w == lesser(greater(self.w as int, min.w as int), max.w as int),
    {
        self.max(min).min(max)
    }

    pub fn cmpeq(self, other: IVec4) -> (r: BVec4)
        ensures
            r == (BVec4 { x: self.x == other.x, y: self.y == other.y, z: self.z == other.z, w: self.w == other.w }),
    {
        BVec4::new(self.x == other.x, self.y == other.y, self.z == other.z, self.w == other.w)
    }

    pub fn cmpne(self, other: IVec4) -> (r: BVec4)
        ensures
            r == (BVec4 { x: self.x != other.x, y: self.y != other.y, z: self.z != other.z, w: self.w != other.w }),
    {
        BVec4::new(self.x != other.x, self.y != other.y, self.z != other.z, self.w != other.w)
    }

    pub fn cmplt(self, other: IVec4) -> (r: BVec4)
        ensures
            r == (BVec4 { x: self.x < other.x, y: self.y < other.y, z: self.z < other.z, w: self.w < other.w }),
    {
        BVec4::new(self.x < other.x, self.y < other.y, self.z < other.z, self.w < other.w)
    }

    pub fn cmple(self, other: IVec4) -> (r: BVec4)
        ensures
            r == (BVec4 { x: self.x <= other.x, y: self.y <= other.y, z: self.z <= other.z, w: self.w <= other.w }),
    {
        BVec4::new(self.x <= other.x, self.y <= other.y, self.z <= other.z, self.w <= other.w)
    }

    pub fn cmpgt(self, other: IVec4) -> (r: BVec4)
        ensures
            r == (BVec4 { x: self.x > other.x, y: self.y > other.y, z: self.z > other.z, w: self.w > other.w }),
    {
        BVec4::new(self.x > other.x, self.y > other.y, self.z > other.z, self.w > other.w)
    }

    pub fn cmpge(self, other: IVec4) -> (r: BVec4)
        ensures
            r == (BVec4 { x: self.x >= other.x, y: self.y >= other.y, z: self.z >= other.z, w: self.w >= other.w }),
    {
        BVec4::new(self.x >= other.x, self.y >= other.y, self.z >= other.z, self.w >= other.w)
    }

    /// Renders the vector as `[x, y, z, w]`.
    pub fn to_display_string(&self) -> (r: String)
        ensures
            r@ == ivec4_display(*self),
    {
        let mut s = String::new();
        proof {
            reveal_strlit("[");
            reveal_strlit("]");
        }
        s.append("[");
        push_signed4(&mut s, self.x as i64, self.y as i64, self.z as i64, self.w as i64);
        s.append("]");
        s
    }

    /// Renders the vector as `IVec4(x, y, z, w)`.
    pub fn to_debug_string(&self) -> (r: String)
        ensures
            r@ == ivec4_debug(*self),
    {
        let mut s = String::new();
        proof {
            reveal_strlit("IVec4(");
            reveal_strlit(")");
        }
        s.append("IVec4(");
        push_signed4(&mut s, self.x as i64, self.y as i64, self.z as i64, self.w as i64);
        s.append(")");
        s
    }
}

impl From<(i32, i32, i32, i32)> for IVec4 {
    fn from(t: (i32, i32, i32, i32)) -> (r: IVec4) {
        IVec4::new(t.0, t.1, t.2, t.3)
    }
}

impl vstd::std_specs::convert::FromSpecImpl<(i32, i32, i32, i32)> for IVec4 {
    open spec fn obeys_from_spec() -> bool {
        true
    }

    open spec fn from_spec(t: (i32, i32, i32, i32)) -> IVec4 {
        ivec4_of_tuple(t)
    }
}

impl From<IVec4> for (i32, i32, i32, i32) {
    fn from(v: IVec4) -> (r: (i32, i32, i32, i32)) {
        (v.x, v.y, v.z, v.w)
    }
}

impl vstd::std_specs::convert::FromSpecImpl<IVec4> for (i32, i32, i32, i32) {
    open spec fn obeys_from_spec() -> bool {
        true
    }

    open spec fn from_spec(v: IVec4) -> (i32, i32, i32, i32) {
        tuple_of_ivec4(v)
    }
}

impl From<(IVec3, i32)> for IVec4 {
    fn from(p: (IVec3, i32)) -> (r: IVec4) {
        p.0.extend(p.1)
    }
}

impl vstd::std_specs::convert::FromSpecImpl<(IVec3, i32)> for IVec4 {
    open spec fn obeys_from_spec() -> bool {
        true
    }

    open spec fn from_spec(p: (IVec3, i32)) -> IVec4 {
        ivec3_extended(p.0, p.1)
    }
}

impl From<IVec4> for IVec3 {
    fn from(v: IVec4) -> (r: IVec3) {
        v.truncate()
    }
}

impl vstd::std_specs::convert::FromSpecImpl<IVec4> for IVec3 {
    open spec fn obeys_from_spec() -> bool {
        true
    }

    open spec fn from_spec(v: IVec4) -> IVec3 {
        ivec4_truncated(v)
    }
}

impl From<IVec4> for IVec2 {
    fn from(v: IVec4) -> (r: IVec2) {
        IVec2::new(v.x, v.y)
    }
}

impl vstd::std_specs::convert::FromSpecImpl<IVec4> for IVec2 {
    open spec fn obeys_from_spec() -> bool {
        true
    }

    open spec fn from_spec(v: IVec4) -> IVec2 {
        IVec2 { x: v.x, y: v.y }
    }
}

impl core::ops::Add for IVec4 {
    type Output = IVec4;

    /// Adds component-wise, wrapping around on overflow.
    fn add(self, o: IVec4) -> (r: IVec4) {
        IVec4 {
            x: narrow_i32(self.x as i128 + o.x as i128),
            y: narrow_i32(self.y as i128 + o.y as i128),
            z: narrow_i32(self.z as i128 + o.z as i128),
            w: narrow_i32(self.w as i128 + o.w as i128),
        }
    }
}

impl vstd::std_specs::ops::AddSpecImpl for IVec4 {
    open spec fn obeys_add_spec() -> bool {
        true
    }

    open spec fn add_req(self, o: IVec4) -> bool {
        true
    }

    open spec fn add_spec(self, o: IVec4) -> IVec4 {
        ivec4_sum(self, o)
    }
}

impl core::ops::Sub for IVec4 {
    type Output = IVec4;

    /// Subtracts component-wise, wrapping around on overflow.
    fn sub(self, o: IVec4) -> (r: IVec4) {
        IVec4 {
            x: narrow_i32(self.x as i128 - o.x as i128),
            y: narrow_i32(self.y as i128 - o.y as i128),
            z: narrow_i32(self.z as i128 - o.z as i128),
            w: narrow_i32(self.w as i128 - o.w as i128),
        }
    }
}

impl vstd::std_specs::ops::SubSpecImpl for IVec4 {
    open spec fn obeys_sub_spec() -> bool {
        true
    }

    open spec fn sub_req(self, o: IVec4) -> bool {
        true
    }

    open spec fn sub_spec(self, o: IVec4) -> IVec4 {
        ivec4_difference(self, o)
    }
}

impl core::ops::Mul for IVec4 {
    type Output = IVec4;

    /// Multiplies component-wise, wrapping around on overflow.
    fn mul(self, o: IVec4) -> (r: IVec4) {
        IVec4 {
            x: narrow_i32(wide_product_i32(self.x, o.x)),
            y: narrow_i32(wide_product_i32(self.y, o.y)),
            z: narrow_i32(wide_product_i32(self.z, o.z)),
            w: narrow_i32(wide_product_i32(self.w, o.w)),
        }
    }
}

impl vstd::std_specs::ops::MulSpecImpl for IVec4 {
    open spec fn obeys_mul_spec() -> bool {
        true
    }

    open spec fn mul_req(self, o: IVec4) -> bool {
        true
    }

    open spec fn mul_spec(self, o: IVec4) -> IVec4 {
        ivec4_product(self, o)
    }
}

impl core::ops::Neg for IVec4 {
    type Output = IVec4;

    /// Negates each component, wrapping around on overflow.
    fn neg(self) -> (r: IVec4) {
        IVec4 {
            x: narrow_i32(0 - self.x as i128),
            y: narrow_i32(0 - self.y as i128),
            z: narrow_i32(0 - self.z as i128),
            w: narrow_i32(0 - self.w as i128),
        }
    }
}

impl vstd::std_specs::ops::NegSpecImpl for IVec4 {
    open spec fn obeys_neg_spec() -> bool {
        true
    }

    open spec fn neg_req(self) -> bool {
        true
    }

    open spec fn neg_spec(self) -> IVec4 {
        ivec4_negated(self)
    }
}

/// Turning a vector into a tuple and back gives the vector again.
pub proof fn lemma_ivec4_tuple_round_trip(v: IVec4)
    ensures
        ivec4_of_tuple(tuple_of_ivec4(v)) == v,
{
}

/// Appending a component and then dropping it gives the 3-component vector again.
pub proof fn lemma_ivec4_truncate_extend(v: IVec3, w: i32)
    ensures
        ivec4_truncated(ivec3_extended(v, w)) == v,
{
}

} // verus!
