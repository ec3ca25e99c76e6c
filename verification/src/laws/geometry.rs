//! Integer helpers of the screen geometry.

use vstd::prelude::*;

use crate::geometry::{clamp, clamp_wide, half, half_wide, least, most};

verus! {

/// A number is moved no further than it has to be to lie between two ends.
pub proof fn law_clamping_moves_no_further_than_needed(v: i32, lo: i32, hi: i32, r: i32, other: i32)
    requires
        call_ensures(clamp, (v, lo, hi), r),
        lo <= hi,
    ensures
        lo <= r <= hi,
        lo <= v <= hi ==> r == v,
        lo <= other <= hi && v <= other ==> r <= other,
        lo <= other <= hi && other <= v ==> other <= r,
{
}

/// A wide number is moved no further than it has to be to lie between two ends.
pub proof fn law_wide_clamping_moves_no_further_than_needed(v: i64, lo: i64, hi: i64, r: i64, other: i64)
    requires
        call_ensures(clamp_wide, (v, lo, hi), r),
        lo <= hi,
    ensures
        lo <= r <= hi,
        lo <= v <= hi ==> r == v,
        lo <= other <= hi && v <= other ==> r <= other,
        lo <= other <= hi && other <= v ==> other <= r,
{
}

/// Twice the half of a number is the number, or the next one towards zero.
pub proof fn law_halves_are_rounded_towards_zero(v: i32, w: i64, r: i32, s: i64)
    requires
        call_ensures(half, (v,), r),
        call_ensures(half_wide, (w,), s),
        i64::MIN < w,
    ensures
        0 <= v ==> 2 * r <= v <= 2 * r + 1,
        v < 0 ==> 2 * r - 1 <= v <= 2 * r,
        0 <= w ==> 2 * s <= w <= 2 * s + 1,
        w < 0 ==> 2 * s - 1 <= w <= 2 * s,
{
}

/// Of two numbers, the lesser one is one of them and not above the other; and so for the greater
/// one.
pub proof fn law_the_lesser_and_the_greater(a: i32, b: i32, lesser: i32, greater: i32)
    requires
        call_ensures(least, (a, b), lesser),
        call_ensures(most, (a, b), greater),
    ensures
        lesser <= a && lesser <= b && (lesser == a || lesser == b),
        a <= greater && b <= greater && (greater == a || greater == b),
{
}

} // verus!
