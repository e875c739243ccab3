use vstd::prelude::*;
use crate::arith::{
    bits_as_i32, bits_as_u32, lemma_signed_bits_round_trip, lemma_unsigned_bits_round_trip,
    wrap_i32, wrap_u32,
};
use crate::ivec::IVec4;
use crate::uvec::UVec4;

verus! {

/// Each component cast with `as u32`: the same 32 bits read as unsigned.
pub open spec fn ivec4_cast_u32(v: IVec4) -> UVec4 {
    UVec4 {
        x: wrap_u32(v.x as int),
        y: wrap_u32(v.y as int),
        z: wrap_u32(v.z as int),
        w: wrap_u32(v.w as int),
    }
}

/// Each component cast with `as i32`: the same 32 bits read as signed.
pub open spec fn uvec4_cast_i32(v: UVec4) -> IVec4 {
    IVec4 {
        x: wrap_i32(v.x as int),
        y: wrap_i32(v.y as int),
        z: wrap_i32(v.z as int),
        w: wrap_i32(v.w as int),
    }
}

impl IVec4 {
    /// Casts each component to `u32`; negative values wrap around, nothing saturates.
    pub fn as_u32(&self) -> (r: UVec4)
        ensures
            r == ivec4_cast_u32(*self),
    {
        UVec4::new(bits_as_u32(self.x), bits_as_u32(self.y), bits_as_u32(self.z), bits_as_u32(self.w))
    }
}

impl UVec4 {
    /// Casts each component to `i32`; values above `i32::MAX` wrap around, nothing saturates.
    pub fn as_i32(&self) -> (r: IVec4)
        ensures
            r == uvec4_cast_i32(*self),
    {
        IVec4::new(bits_as_i32(self.x), bits_as_i32(self.y), bits_as_i32(self.z), bits_as_i32(self.w))
    }
}

/// Casting a signed vector to unsigned and back gives it again.
pub proof fn lemma_ivec4_cast_round_trip(v: IVec4)
    ensures
        uvec4_cast_i32(ivec4_cast_u32(v)) == v,
{
    lemma_signed_bits_round_trip(v.x);
    lemma_signed_bits_round_trip(v.y);
    lemma_signed_bits_round_trip(v.z);
    lemma_signed_bits_round_trip(v.w);
}

/// Casting an unsigned vector to signed and back gives it again.
pub proof fn lemma_uvec4_cast_round_trip(v: UVec4)
    ensures
        ivec4_cast_u32(uvec4_cast_i32(v)) == v,
{
    lemma_unsigned_bits_round_trip(v.x);
    lemma_unsigned_bits_round_trip(v.y);
    lemma_unsigned_bits_round_trip(v.z);
    lemma_unsigned_bits_round_trip(v.w);
}

} // verus!
