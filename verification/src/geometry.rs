//! Pixel arithmetic.
//!
//! Positions and extents are whole pixels held in an `i32`. Sums and products
//! that leave the range of an `i32` stop at its nearest end, so every layout
//! function is total and no position wraps around.

use vstd::prelude::*;

verus! {

/// The value in the range of an `i32` that is nearest to `v`.
pub open spec fn clamp(v: int) -> int {
    if v < i32::MIN {
        i32::MIN as int
    } else if v > i32::MAX {
        i32::MAX as int
    } else {
        v
    }
}

/// `a` moved by `b` pixels, stopping at the ends of the range.
pub open spec fn plus(a: int, b: int) -> int {
    clamp(a + b)
}

/// How far `a` lies past `b`, stopping at the ends of the range.
pub open spec fn minus(a: int, b: int) -> int {
    clamp(a - b)
}

/// The length of `count` steps of `step` pixels, stopping at the ends of the range.
pub open spec fn times(count: int, step: int) -> int {
    clamp(count * step)
}

/// An extent as a drawing surface takes it: a negative extent is empty.
pub open spec fn extent_of(v: int) -> int {
    if v < 0 {
        0
    } else {
        v
    }
}

/// Moves `a` by `b` pixels.
pub fn offset(a: i32, b: i32) -> (r: i32)
    ensures
        r == plus(a as int, b as int),
{
    let wide: i64 = a as i64 + b as i64;
    if wide < i32::MIN as i64 {
        i32::MIN
    } else if wide > i32::MAX as i64 {
        i32::MAX
    } else {
        wide as i32
    }
}

/// How far `a` lies past `b`.
pub fn distance(a: i32, b: i32) -> (r: i32)
    ensures
        r == minus(a as int, b as int),
{
    let wide: i64 = a as i64 - b as i64;
    if wide < i32::MIN as i64 {
        i32::MIN
    } else if wide > i32::MAX as i64 {
        i32::MAX
    } else {
        wide as i32
    }
}

/// The length of `count` steps of `step` pixels.
pub fn scaled(count: usize, step: i32) -> (r: i32)
    ensures
        r == times(count as int, step as int),
{
    proof {
        lemma_product_bounds(count as int, step as int);
    }
    let wide: i128 = (count as i128) * (step as i128);
    if wide < i32::MIN as i128 {
        i32::MIN
    } else if wide > i32::MAX as i128 {
        i32::MAX
    } else {
        wide as i32
    }
}

/// The extent that a drawing surface takes for `v`.
pub fn extent(v: i32) -> (r: u32)
    ensures
        r == extent_of(v as int),
{
    if v < 0 {
        0
    } else {
        v as u32
    }
}

/// A count that fits a machine word times a pixel step fits 128 bits.
proof fn lemma_product_bounds(count: int, step: int)
    requires
        0 <= count <= usize::MAX,
        i32::MIN <= step <= i32::MAX,
    ensures
        i128::MIN <= count * step <= i128::MAX,
{
    assert(count <= 0xffff_ffff_ffff_ffff);
    assert(-0x8000_0000 * 0xffff_ffff_ffff_ffff <= count * step <= 0x7fff_ffff
        * 0xffff_ffff_ffff_ffff) by (nonlinear_arith)
        requires
            0 <= count <= 0xffff_ffff_ffff_ffff,
            -0x8000_0000 <= step <= 0x7fff_ffff,
    ;
}

/// Stepping is the same as jumping: `count` moves by `step`, each stopping at
/// the ends of the range, end where one move by `count * step` ends.
pub proof fn lemma_step_by_step(start: int, step: int, count: nat)
    requires
        i32::MIN <= start <= i32::MAX,
    ensures
        plus(clamp(start + count * step), step) == clamp(start + (count + 1) * step),
{
    let reached = start + count * step;
    assert((count + 1) * step == count * step + step) by (nonlinear_arith);
    if reached > i32::MAX {
        assert(step > 0) by (nonlinear_arith)
            requires
                count * step > 0,
                count >= 0,
        ;
    } else if reached < i32::MIN {
        assert(step < 0) by (nonlinear_arith)
            requires
                count * step < 0,
                count >= 0,
        ;
    }
}

} // verus!
