//! What this crate takes from `glam::USizeVec2`.
//!
//! Each function here calls one function of `glam` and states, unproved, what
//! that function does, as its source shows it.

use crate::math::{
    first_max_at, first_min_at, fits_usize, gap, max2, min2, sat_usize, trunc_div, wrap_usize,
};
use glam::{BVec2, USizeVec2, USizeVec3};
use vstd::prelude::*;

verus! {

/// `glam::USizeVec2`, whose lanes are public fields.
#[verifier::external_type_specification]
pub struct ExUSizeVec2(USizeVec2);

/// [`USizeVec2::new`]: the vector with the given lanes.
#[verifier::external_body]
pub(crate) fn new(x: usize, y: usize) -> (r: USizeVec2)
    ensures
        r.x == x,
        r.y == y,
{
    USizeVec2::new(x, y)
}

/// [`USizeVec2::splat`]: every lane is `v`.
#[verifier::external_body]
pub(crate) fn splat(v: usize) -> (r: USizeVec2)
    ensures
        r.x == v,
        r.y == v,
{
    USizeVec2::splat(v)
}

/// [`USizeVec2::map`]: calls `f` on each lane, so `f` must accept each lane,
/// and each lane of the result is what `f` gave for that lane.
#[verifier::external_body]
pub(crate) fn map<F: Fn(usize) -> usize>(v: USizeVec2, f: F) -> (r: USizeVec2)
    requires
        call_requires(f, (v.x,)),
        call_requires(f, (v.y,)),
    ensures
        call_ensures(f, (v.x,), r.x),
        call_ensures(f, (v.y,), r.y),
{
    v.map(f)
}

/// [`USizeVec2::from_array`]: the lanes are the elements of `a` in order.
#[verifier::external_body]
pub(crate) fn from_array(a: [usize; 2]) -> (r: USizeVec2)
    ensures
        r.x == a@[0],
        r.y == a@[1],
{
    USizeVec2::from_array(a)
}

/// [`USizeVec2::to_array`]: the array of the lanes in order.
#[verifier::external_body]
pub(crate) fn to_array(v: &USizeVec2) -> (r: [usize; 2])
    ensures
        r@ == seq![v.x, v.y],
{
    v.to_array()
}

/// [`USizeVec2::from_slice`]: the lanes are the first 2 elements of `slice`; it
/// panics on a shorter slice.
#[verifier::external_body]
pub(crate) fn from_slice(slice: &[usize]) -> (r: USizeVec2)
    requires
        slice@.len() >= 2,
    ensures
        r.x == slice@[0],
        r.y == slice@[1],
{
    USizeVec2::from_slice(slice)
}

/// [`USizeVec2::write_to_slice`]: copies the lanes over the first 2 elements of
/// `slice` and leaves the rest; it panics on a shorter slice.
#[verifier::external_body]
pub(crate) fn write_to_slice(v: USizeVec2, slice: &mut [usize])
    requires
        old(slice)@.len() >= 2,
    ensures
        final(slice)@ == old(slice)@.update(0, v.x).update(1, v.y),
{
    v.write_to_slice(slice)
}

/// Indexing a `USizeVec2` with a `usize`: the lane at `index`; it panics on an
/// index past the last lane.
#[verifier::external_body]
pub(crate) fn lane(v: &USizeVec2, index: usize) -> (r: usize)
    requires
        index < 2,
    ensures
        index == 0 ==> r == v.x,
        index == 1 ==> r == v.y,
{
    v[index]
}

/// [`USizeVec2::extend`]: the lanes of `v` followed by `z`.
#[verifier::external_body]
pub(crate) fn extend(v: USizeVec2, z: usize) -> (r: USizeVec3)
    ensures
        r.x == v.x,
        r.y == v.y,
        r.z == z,
{
    v.extend(z)
}

/// [`USizeVec2::with_x`]: `v` with the lane `x` replaced.
#[verifier::external_body]
pub(crate) fn with_x(v: USizeVec2, x: usize) -> (r: USizeVec2)
    ensures
        r.x == x,
        r.y == v.y,
{
    v.with_x(x)
}

/// [`USizeVec2::with_y`]: `v` with the lane `y` replaced.
#[verifier::external_body]
pub(crate) fn with_y(v: USizeVec2, y: usize) -> (r: USizeVec2)
    ensures
        r.x == v.x,
        r.y == y,
{
    v.with_y(y)
}

/// [`USizeVec2::dot`]: the lane products added from the left. It computes in
/// `usize`, so no product and no sum on the way may overflow.
#[verifier::external_body]
pub(crate) fn dot(a: USizeVec2, b: USizeVec2) -> (r: usize)
    requires
        fits_usize(a.x * b.x),
        fits_usize(a.y * b.y),
        fits_usize(a.x * b.x + a.y * b.y),
    ensures
        r == a.x * b.x + a.y * b.y,
{
    a.dot(b)
}

/// [`USizeVec2::dot_into_vec`]: the dot product in every lane, under the
/// conditions of `dot`.
#[verifier::external_body]
pub(crate) fn dot_into_vec(a: USizeVec2, b: USizeVec2) -> (r: USizeVec2)
    requires
        fits_usize(a.x * b.x),
        fits_usize(a.y * b.y),
        fits_usize(a.x * b.x + a.y * b.y),
    ensures
        r.x == a.x * b.x + a.y * b.y,
        r.y == a.x * b.x + a.y * b.y,
{
    a.dot_into_vec(b)
}

/// [`USizeVec2::min`]: the smaller of the two lanes, lane by lane.
#[verifier::external_body]
pub(crate) fn min(a: USizeVec2, b: USizeVec2) -> (r: USizeVec2)
    ensures
        r.x == min2(a.x as int, b.x as int),
        r.y == min2(a.y as int, b.y as int),
{
    a.min(b)
}

/// [`USizeVec2::max`]: the larger of the two lanes, lane by lane.
#[verifier::external_body]
pub(crate) fn max(a: USizeVec2, b: USizeVec2) -> (r: USizeVec2)
    ensures
        r.x == max2(a.x as int, b.x as int),
        r.y == max2(a.y as int, b.y as int),
{
    a.max(b)
}

/// [`USizeVec2::clamp`]: `v.max(min).min(max)`. The crate asks for `min <= max`
/// in every lane and may assert it.
#[verifier::external_body]
pub(crate) fn clamp(v: USizeVec2, min: USizeVec2, max: USizeVec2) -> (r: USizeVec2)
    requires
        min.x <= max.x,
        min.y <= max.y,
    ensures
        r.x == min2(max2(v.x as int, min.x as int), max.x as int),
        r.y == min2(max2(v.y as int, min.y as int), max.y as int),
{
    v.clamp(min, max)
}

/// [`USizeVec2::min_element`]: the least lane.
#[verifier::external_body]
pub(crate) fn min_element(v: USizeVec2) -> (r: usize)
    ensures
        r == min2(v.x as int, v.y as int),
{
    v.min_element()
}

/// [`USizeVec2::max_element`]: the greatest lane.
#[verifier::external_body]
pub(crate) fn max_element(v: USizeVec2) -> (r: usize)
    ensures
        r == max2(v.x as int, v.y as int),
{
    v.max_element()
}

/// [`USizeVec2::min_position`]: the index of the first lane that holds the
/// least value.
#[verifier::external_body]
pub(crate) fn min_position(v: USizeVec2) -> (r: usize)
    ensures
        first_min_at(seq![v.x as int, v.y as int], r as int),
{
    v.min_position()
}

/// [`USizeVec2::max_position`]: the index of the first lane that holds the
/// greatest value.
#[verifier::external_body]
pub(crate) fn max_position(v: USizeVec2) -> (r: usize)
    ensures
        first_max_at(seq![v.x as int, v.y as int], r as int),
{
    v.max_position()
}

/// [`USizeVec2::element_sum`]: the lanes added from the left, in `usize`: no
/// sum on the way may overflow.
#[verifier::external_body]
pub(crate) fn element_sum(v: USizeVec2) -> (r: usize)
    requires
        fits_usize(v.x + v.y),
    ensures
        r == v.x + v.y,
{
    v.element_sum()
}

/// [`USizeVec2::element_product`]: the lanes multiplied from the left, in
/// `usize`: no product on the way may overflow.
#[verifier::external_body]
pub(crate) fn element_product(v: USizeVec2) -> (r: usize)
    requires
        fits_usize(v.x * v.y),
    ensures
        r == v.x * v.y,
{
    v.element_product()
}

/// [`USizeVec2::select`]: each lane comes from `if_true` where the lane of
/// `mask` is true and from `if_false` where it is false.
#[verifier::external_body]
pub(crate) fn select(mask: BVec2, if_true: USizeVec2, if_false: USizeVec2) -> (r: USizeVec2)
    ensures
        r.x == (if mask.x {
            if_true.x
        } else {
            if_false.x
        }),
        r.y == (if mask.y {
            if_true.y
        } else {
            if_false.y
        }),
{
    USizeVec2::select(mask, if_true, if_false)
}

/// [`USizeVec2::cmpeq`]: a lane of the mask is true where the lane of `a` is
/// equal to that of `b`.
#[verifier::external_body]
pub(crate) fn cmpeq(a: USizeVec2, b: USizeVec2) -> (r: BVec2)
    ensures
        r.x == (a.x == b.x),
        r.y == (a.y == b.y),
{
    a.cmpeq(b)
}

/// [`USizeVec2::cmpne`]: a lane of the mask is true where the lane of `a` is
/// different from that of `b`.
#[verifier::external_body]
pub(crate) fn cmpne(a: USizeVec2, b: USizeVec2) -> (r: BVec2)
    ensures
        r.x == (a.x != b.x),
        r.y == (a.y != b.y),
{
    a.cmpne(b)
}

/// [`USizeVec2::cmpge`]: a lane of the mask is true where the lane of `a` is at
/// least that of `b`.
#[verifier::external_body]
pub(crate) fn cmpge(a: USizeVec2, b: USizeVec2) -> (r: BVec2)
    ensures
        r.x == (a.x >= b.x),
        r.y == (a.y >= b.y),
{
    a.cmpge(b)
}

/// [`USizeVec2::cmpgt`]: a lane of the mask is true where the lane of `a` is
/// greater than that of `b`.
#[verifier::external_body]
pub(crate) fn cmpgt(a: USizeVec2, b: USizeVec2) -> (r: BVec2)
    ensures
        r.x == (a.x > b.x),
        r.y == (a.y > b.y),
{
    a.cmpgt(b)
}

/// [`USizeVec2::cmple`]: a lane of the mask is true where the lane of `a` is at
/// most that of `b`.
#[verifier::external_body]
pub(crate) fn cmple(a: USizeVec2, b: USizeVec2) -> (r: BVec2)
    ensures
        r.x == (a.x <= b.x),
        r.y == (a.y <= b.y),
{
    a.cmple(b)
}

/// [`USizeVec2::cmplt`]: a lane of the mask is true where the lane of `a` is
/// less than that of `b`.
#[verifier::external_body]
pub(crate) fn cmplt(a: USizeVec2, b: USizeVec2) -> (r: BVec2)
    ensures
        r.x == (a.x < b.x),
        r.y == (a.y < b.y),
{
    a.cmplt(b)
}

/// [`USizeVec2::length_squared`]: the dot product of `v` with itself, under the
/// conditions of `dot`.
#[verifier::external_body]
pub(crate) fn length_squared(v: USizeVec2) -> (r: usize)
    requires
        fits_usize(v.x * v.x),
        fits_usize(v.y * v.y),
        fits_usize(v.x * v.x + v.y * v.y),
    ensures
        r == v.x * v.x + v.y * v.y,
{
    v.length_squared()
}

/// [`USizeVec2::checked_add`]: the lane-wise sum, and `None` exactly where some
/// lane leaves the range of `usize`.
#[verifier::external_body]
pub(crate) fn checked_add(a: USizeVec2, b: USizeVec2) -> (r: Option<USizeVec2>)
    ensures
        r.is_some() <==> (fits_usize(a.x + b.x)
            && fits_usize(a.y + b.y)),
        r.is_some() ==> r.unwrap().x == a.x + b.x,
        r.is_some() ==> r.unwrap().y == a.y + b.y,
{
    a.checked_add(b)
}

/// [`USizeVec2::checked_sub`]: the lane-wise difference, and `None` exactly
/// where some lane leaves the range of `usize`.
#[verifier::external_body]
pub(crate) fn checked_sub(a: USizeVec2, b: USizeVec2) -> (r: Option<USizeVec2>)
    ensures
        r.is_some() <==> (fits_usize(a.x - b.x)
            && fits_usize(a.y - b.y)),
        r.is_some() ==> r.unwrap().x == a.x - b.x,
        r.is_some() ==> r.unwrap().y == a.y - b.y,
{
    a.checked_sub(b)
}

/// [`USizeVec2::checked_mul`]: the lane-wise product, and `None` exactly where
/// some lane leaves the range of `usize`.
#[verifier::external_body]
pub(crate) fn checked_mul(a: USizeVec2, b: USizeVec2) -> (r: Option<USizeVec2>)
    ensures
        r.is_some() <==> (fits_usize(a.x * b.x)
            && fits_usize(a.y * b.y)),
        r.is_some() ==> r.unwrap().x == a.x * b.x,
        r.is_some() ==> r.unwrap().y == a.y * b.y,
{
    a.checked_mul(b)
}

/// [`USizeVec2::checked_div`]: the lane-wise quotient rounded towards zero, and
/// `None` exactly where some lane leaves the range of `usize`. `None` also
/// where a lane of `b` is zero.
#[verifier::external_body]
pub(crate) fn checked_div(a: USizeVec2, b: USizeVec2) -> (r: Option<USizeVec2>)
    ensures
        r.is_some() <==> (b.x != 0
            && b.y != 0
            && fits_usize(trunc_div(a.x as int, b.x as int))
            && fits_usize(trunc_div(a.y as int, b.y as int))),
        r.is_some() ==> r.unwrap().x == trunc_div(a.x as int, b.x as int),
        r.is_some() ==> r.unwrap().y == trunc_div(a.y as int, b.y as int),
{
    a.checked_div(b)
}

/// [`USizeVec2::wrapping_add`]: the lane-wise sum, wrapped into the range of
/// `usize`.
#[verifier::external_body]
pub(crate) fn wrapping_add(a: USizeVec2, b: USizeVec2) -> (r: USizeVec2)
    ensures
        r.x == wrap_usize(a.x + b.x),
        r.y == wrap_usize(a.y + b.y),
{
    a.wrapping_add(b)
}

/// [`USizeVec2::wrapping_sub`]: the lane-wise difference, wrapped into the
/// range of `usize`.
#[verifier::external_body]
pub(crate) fn wrapping_sub(a: USizeVec2, b: USizeVec2) -> (r: USizeVec2)
    ensures
        r.x == wrap_usize(a.x - b.x),
        r.y == wrap_usize(a.y - b.y),
{
    a.wrapping_sub(b)
}

/// [`USizeVec2::wrapping_mul`]: the lane-wise product, wrapped into the range
/// of `usize`.
#[verifier::external_body]
pub(crate) fn wrapping_mul(a: USizeVec2, b: USizeVec2) -> (r: USizeVec2)
    ensures
        r.x == wrap_usize(a.x * b.x),
        r.y == wrap_usize(a.y * b.y),
{
    a.wrapping_mul(b)
}

/// [`USizeVec2::wrapping_div`]: the lane-wise quotient rounded towards zero,
/// wrapped into the range of `usize`. `usize::wrapping_div` panics on a zero
/// divisor.
#[verifier::external_body]
pub(crate) fn wrapping_div(a: USizeVec2, b: USizeVec2) -> (r: USizeVec2)
    requires
        b.x != 0,
        b.y != 0,
    ensures
        r.x == wrap_usize(trunc_div(a.x as int, b.x as int)),
        r.y == wrap_usize(trunc_div(a.y as int, b.y as int)),
{
    a.wrapping_div(b)
}

/// [`USizeVec2::saturating_add`]: the lane-wise sum, saturated to the range of
/// `usize`.
#[verifier::external_body]
pub(crate) fn saturating_add(a: USizeVec2, b: USizeVec2) -> (r: USizeVec2)
    ensures
        r.x == sat_usize(a.x + b.x),
        r.y == sat_usize(a.y + b.y),
{
    a.saturating_add(b)
}

/// [`USizeVec2::saturating_sub`]: the lane-wise difference, saturated to the
/// range of `usize`.
#[verifier::external_body]
pub(crate) fn saturating_sub(a: USizeVec2, b: USizeVec2) -> (r: USizeVec2)
    ensures
        r.x == sat_usize(a.x - b.x),
        r.y == sat_usize(a.y - b.y),
{
    a.saturating_sub(b)
}

/// [`USizeVec2::saturating_mul`]: the lane-wise product, saturated to the range
/// of `usize`.
#[verifier::external_body]
pub(crate) fn saturating_mul(a: USizeVec2, b: USizeVec2) -> (r: USizeVec2)
    ensures
        r.x == sat_usize(a.x * b.x),
        r.y == sat_usize(a.y * b.y),
{
    a.saturating_mul(b)
}

/// [`USizeVec2::saturating_div`]: the lane-wise quotient rounded towards zero,
/// saturated to the range of `usize`. `usize::saturating_div` panics on a zero
/// divisor.
#[verifier::external_body]
pub(crate) fn saturating_div(a: USizeVec2, b: USizeVec2) -> (r: USizeVec2)
    requires
        b.x != 0,
        b.y != 0,
    ensures
        r.x == sat_usize(trunc_div(a.x as int, b.x as int)),
        r.y == sat_usize(trunc_div(a.y as int, b.y as int)),
{
    a.saturating_div(b)
}

/// [`USizeVec2::manhattan_distance`]: the distances between the lanes, added in
/// `usize`: the sum may not overflow.
#[verifier::external_body]
pub(crate) fn manhattan_distance(a: USizeVec2, b: USizeVec2) -> (r: usize)
    requires
        fits_usize(gap(a.x as int, b.x as int) + gap(a.y as int, b.y as int)),
    ensures
        r == gap(a.x as int, b.x as int) + gap(a.y as int, b.y as int),
{
    a.manhattan_distance(b)
}

/// [`USizeVec2::checked_manhattan_distance`]: the distances between the lanes
/// added in `usize`, and `None` exactly where the sum overflows.
#[verifier::external_body]
pub(crate) fn checked_manhattan_distance(a: USizeVec2, b: USizeVec2) -> (r: Option<usize>)
    ensures
        r.is_some() <==> fits_usize(gap(a.x as int, b.x as int) + gap(a.y as int, b.y as int)),
        r.is_some() ==> r.unwrap() == gap(a.x as int, b.x as int) + gap(a.y as int, b.y as int),
{
    a.checked_manhattan_distance(b)
}

/// [`USizeVec2::chebyshev_distance`]: the greatest distance between a lane of
/// `a` and that of `b`.
#[verifier::external_body]
pub(crate) fn chebyshev_distance(a: USizeVec2, b: USizeVec2) -> (r: usize)
    ensures
        r == max2(gap(a.x as int, b.x as int), gap(a.y as int, b.y as int)),
{
    a.chebyshev_distance(b)
}

} // verus!
