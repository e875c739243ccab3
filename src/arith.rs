use vstd::prelude::*;
use vstd::arithmetic::div_mod::{lemma_mod_multiples_vanish, lemma_small_mod};

verus! {

/// Number of distinct 32-bit patterns.
pub const SPAN_32: u64 = 0x1_0000_0000;

/// The unsigned 32-bit value that `n` wraps around to.
pub open spec fn wrap_u32(n: int) -> u32 {
    (n % (SPAN_32 as int)) as u32
}

/// The signed 32-bit value that `n` wraps around to (two's complement).
pub open spec fn wrap_i32(n: int) -> i32 {
    let m = n % (SPAN_32 as int);
    if m > i32::MAX as int {
        (m - SPAN_32 as int) as i32
    } else {
        m as i32
    }
}

pub open spec fn lesser(a: int, b: int) -> int {
    if a <= b { a } else { b }
}

pub open spec fn greater(a: int, b: int) -> int {
    if a >= b { a } else { b }
}

/// Absolute value.
pub open spec fn magnitude(a: int) -> int {
    if a < 0 { -a } else { a }
}

/// -1, 0 or 1 following the sign of `a`.
pub open spec fn sign_of(a: int) -> int {
    if a < 0 { -1 } else if a > 0 { 1 } else { 0 }
}

/// Exact product of two signed 32-bit values.
pub fn wide_product_i32(a: i32, b: i32) -> (r: i128)
    ensures
        r == a as int * b as int,
        -0x4000_0000_0000_0000 <= r <= 0x4000_0000_0000_0000,
{
    proof {
        assert(-0x4000_0000_0000_0000 <= a as int * b as int <= 0x4000_0000_0000_0000)
            by (nonlinear_arith)
            requires
                -0x8000_0000 <= a as int <= 0x7fff_ffff,
                -0x8000_0000 <= b as int <= 0x7fff_ffff,
        ;
    }
    a as i128 * b as i128
}

/// Exact product of two unsigned 32-bit values.
pub fn wide_product_u32(a: u32, b: u32) -> (r: u128)
    ensures
        r == a as int * b as int,
        r < 0x1_0000_0000_0000_0000,
{
    proof {
        assert((a as int) * (b as int) < 0x1_0000_0000_0000_0000) by (nonlinear_arith)
            requires
                0 <= a as int <= 0xffff_ffff,
                0 <= b as int <= 0xffff_ffff,
        ;
    }
    a as u128 * b as u128
}

/// Reduces an unsigned 128-bit value to 32 bits, dropping the high bits.
pub fn narrow_u32(s: u128) -> (r: u32)
    ensures
        r == wrap_u32(s as int),
{
    (s % (SPAN_32 as u128)) as u32
}

/// Reduces a signed 128-bit value of moderate size to 32 bits by two's complement
/// wraparound.
pub fn narrow_i32(s: i128) -> (r: i32)
    requires
        -0x1_0000_0000_0000_0000_0000 < s < 0x1_0000_0000_0000_0000_0000,
    ensures
        r == wrap_i32(s as int),
{
    let shifted: u128 = (s + 0x1_0000_0000_0000_0000_0000i128) as u128;
    let m: u128 = shifted % (SPAN_32 as u128);
    proof {
        lemma_mod_multiples_vanish(0x1_0000_0000_0000, s as int, SPAN_32 as int);
        assert(SPAN_32 as int * 0x1_0000_0000_0000 == 0x1_0000_0000_0000_0000_0000int);
    }
    if m > i32::MAX as u128 {
        (m as i64 - SPAN_32 as i64) as i32
    } else {
        m as i32
    }
}

/// Difference of two unsigned 32-bit values, wrapped to 32 bits.
pub fn wrapping_difference_u32(a: u32, b: u32) -> (r: u32)
    ensures
        r == wrap_u32(a - b),
{
    proof {
        lemma_mod_multiples_vanish(1, a - b, SPAN_32 as int);
    }
    narrow_u32(a as u128 + SPAN_32 as u128 - b as u128)
}

/// Reads the bits of a signed 32-bit value as unsigned (the `as u32` cast).
pub fn bits_as_u32(a: i32) -> (r: u32)
    ensures
        r == wrap_u32(a as int),
{
    proof {
        lemma_mod_multiples_vanish(1, a as int, SPAN_32 as int);
        if a < 0 {
            lemma_small_mod((a + SPAN_32) as nat, SPAN_32 as nat);
        } else {
            lemma_small_mod(a as nat, SPAN_32 as nat);
        }
    }
    if a < 0 {
        (a as i64 + SPAN_32 as i64) as u32
    } else {
        a as u32
    }
}

/// Reads the bits of an unsigned 32-bit value as signed (the `as i32` cast).
pub fn bits_as_i32(a: u32) -> (r: i32)
    ensures
        r == wrap_i32(a as int),
{
    proof {
        lemma_small_mod(a as nat, SPAN_32 as nat);
    }
    if a > i32::MAX as u32 {
        (a as i64 - SPAN_32 as i64) as i32
    } else {
        a as i32
    }
}

/// Casting a signed value to unsigned and back gives the value again.
pub proof fn lemma_signed_bits_round_trip(a: i32)
    ensures
        wrap_i32(wrap_u32(a as int) as int) == a,
{
    lemma_mod_multiples_vanish(1, a as int, SPAN_32 as int);
    if a < 0 {
        lemma_small_mod((a + SPAN_32) as nat, SPAN_32 as nat);
        lemma_small_mod((a + SPAN_32) as nat, SPAN_32 as nat);
    } else {
        lemma_small_mod(a as nat, SPAN_32 as nat);
    }
}

/// Casting an unsigned value to signed and back gives the value again.
pub proof fn lemma_unsigned_bits_round_trip(a: u32)
    ensures
        wrap_u32(wrap_i32(a as int) as int) == a,
{
    lemma_small_mod(a as nat, SPAN_32 as nat);
    if a > i32::MAX {
        lemma_mod_multiples_vanish(1, a - SPAN_32, SPAN_32 as int);
    }
}

} // verus!
