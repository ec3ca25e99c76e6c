//! Integer helpers shared by the screen-geometry code.

use vstd::math::{max, min};
use vstd::prelude::*;

verus! {

/// Whether a coordinate can be held by an `i32`.
pub open spec fn fits(v: int) -> bool {
    i32::MIN <= v <= i32::MAX
}

/// `v`, moved to the nearest end of `lo..=hi` where it lies outside.
pub open spec fn clamped(v: int, lo: int, hi: int) -> int {
    if v < lo {
        lo
    } else if v > hi {
        hi
    } else {
        v
    }
}

/// `v`, moved to the nearest end of `lo..=hi` where it lies outside.
pub fn clamp(v: i32, lo: i32, hi: i32) -> (r: i32)
    requires
        lo <= hi,
    ensures
        r == clamped(v as int, lo as int, hi as int),
{
    if v < lo {
        lo
    } else if v > hi {
        hi
    } else {
        v
    }
}

/// `v`, moved to the nearest end of `lo..=hi` where it lies outside, for numbers that need not
/// be coordinates.
pub fn clamp_wide(v: i64, lo: i64, hi: i64) -> (r: i64)
    requires
        lo <= hi,
    ensures
        r == clamped(v as int, lo as int, hi as int),
{
    if v < lo {
        lo
    } else if v > hi {
        hi
    } else {
        v
    }
}

/// Half of a number, rounded towards zero.
pub open spec fn halved(v: int) -> int {
    if v < 0 {
        -((-v) / 2)
    } else {
        v / 2
    }
}

/// Half of a number, rounded towards zero.
pub fn half(v: i32) -> (r: i32)
    ensures
        r == halved(v as int),
{
    half_wide(v as i64) as i32
}

/// Half of a number, rounded towards zero, for one that need not be a coordinate.
pub fn half_wide(v: i64) -> (r: i64)
    requires
        v > i64::MIN,
    ensures
        r == halved(v as int),
{
    if v < 0 {
        -((-v) / 2)
    } else {
        v / 2
    }
}

/// The smaller of two coordinates.
pub fn least(a: i32, b: i32) -> (r: i32)
    ensures
        r == min(a as int, b as int),
{
    if a <= b {
        a
    } else {
        b
    }
}

/// The larger of two coordinates.
pub fn most(a: i32, b: i32) -> (r: i32)
    ensures
        r == max(a as int, b as int),
{
    if a >= b {
        a
    } else {
        b
    }
}

} // verus!
