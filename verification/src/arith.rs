//! Arithmetic that stops at the ends of a machine integer's range.
//!
//! Every counter, sum and deadline that the handlers keep is held at the
//! nearest representable value where the exact result would leave the range.

use vstd::prelude::*;

verus! {

/// `x`, or the end of the `u32` range that it lies beyond.
pub open spec fn clamp_u32(x: int) -> int {
    if x < 0 {
        0
    } else if x > u32::MAX {
        u32::MAX as int
    } else {
        x
    }
}

/// `x`, or the end of the `u64` range that it lies beyond.
pub open spec fn clamp_u64(x: int) -> int {
    if x < 0 {
        0
    } else if x > u64::MAX {
        u64::MAX as int
    } else {
        x
    }
}

/// `x`, or the end of the `i64` range that it lies beyond.
pub open spec fn clamp_i64(x: int) -> int {
    if x < i64::MIN {
        i64::MIN as int
    } else if x > i64::MAX {
        i64::MAX as int
    } else {
        x
    }
}

/// The sum, held at the largest `u32`.
pub fn add_clamped_u32(a: u32, b: u32) -> (r: u32)
    ensures
        r == clamp_u32(a + b),
{
    let sum: u64 = a as u64 + b as u64;
    if sum > 0xffff_ffff {
        u32::MAX
    } else {
        sum as u32
    }
}

/// The difference, held at zero.
pub fn sub_clamped_u32(a: u32, b: u32) -> (r: u32)
    ensures
        r == clamp_u32(a - b),
{
    if a < b {
        0
    } else {
        a - b
    }
}

/// The product, held at the largest `u32`.
pub fn mul_clamped_u32(a: u32, b: u32) -> (r: u32)
    ensures
        r == clamp_u32(a * b),
{
    assert(a * b <= 0xffff_ffff * 0xffff_ffff) by (nonlinear_arith)
        requires
            0 <= a <= 0xffff_ffff,
            0 <= b <= 0xffff_ffff,
    ;
    assert(0 <= a * b) by (nonlinear_arith)
        requires
            0 <= a,
            0 <= b,
    ;
    let product: u64 = a as u64 * b as u64;
    if product > 0xffff_ffff {
        u32::MAX
    } else {
        product as u32
    }
}

/// The sum, held at the largest `u64`.
pub fn add_clamped_u64(a: u64, b: u64) -> (r: u64)
    ensures
        r == clamp_u64(a + b),
{
    let sum: u128 = a as u128 + b as u128;
    if sum > 0xffff_ffff_ffff_ffff {
        u64::MAX
    } else {
        sum as u64
    }
}

/// The difference, held at zero.
pub fn sub_clamped_u64(a: u64, b: u64) -> (r: u64)
    ensures
        r == clamp_u64(a - b),
{
    if a < b {
        0
    } else {
        a - b
    }
}

/// The product, held at the largest `u64`.
pub fn mul_clamped_u64(a: u64, b: u64) -> (r: u64)
    ensures
        r == clamp_u64(a * b),
{
    assert(a * b <= 0xffff_ffff_ffff_ffff * 0xffff_ffff_ffff_ffff) by (nonlinear_arith)
        requires
            0 <= a <= 0xffff_ffff_ffff_ffff,
            0 <= b <= 0xffff_ffff_ffff_ffff,
    ;
    assert(0 <= a * b) by (nonlinear_arith)
        requires
            0 <= a,
            0 <= b,
    ;
    let product: u128 = a as u128 * b as u128;
    if product > 0xffff_ffff_ffff_ffff {
        u64::MAX
    } else {
        product as u64
    }
}

/// The sum, held at the nearer end of the `i64` range.
pub fn add_clamped_i64(a: i64, b: i64) -> (r: i64)
    ensures
        r == clamp_i64(a + b),
{
    let sum: i128 = a as i128 + b as i128;
    if sum > 0x7fff_ffff_ffff_ffff {
        i64::MAX
    } else if sum < -0x8000_0000_0000_0000 {
        i64::MIN
    } else {
        sum as i64
    }
}

} // verus!
