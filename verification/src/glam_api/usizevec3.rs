//! What this crate takes from `glam::USizeVec3`.
//!
//! Each function here calls one function of `glam` and states, unproved, what
//! that function does, as its source shows it.

use crate::math::{
    first_max_at, first_min_at, fits_usize, gap, max2, min2, sat_usize, trunc_div, wrap_usize,
};
use glam::{BVec3, USizeVec2, USizeVec3, USizeVec4};
use vstd::prelude::*;

verus! {

/// `glam::USizeVec3`, whose lanes are public fields.
#[verifier::external_type_specification]
pub struct ExUSizeVec3(USizeVec3);

/// [`USizeVec3::new`]: the vector with the given lanes.
#[verifier::external_body]
pub(crate) fn new(x: usize, y: usize, z: usize) -> (r: USizeVec3)
    ensures
        r.x == x,
        r.y == y,
        r.z == z,
{
    USizeVec3::new(x, y, z)
}

/// [`USizeVec3::splat`]: every lane is `v`.
#[verifier::external_body]
pub(crate) fn splat(v: usize) -> (r: USizeVec3)
    ensures
        r.x == v,
        r.y == v,
        r.z == v,
{
    USizeVec3::splat(v)
}

/// [`USizeVec3::map`]: calls `f` on each lane, so `f` must accept each lane,
/// and each lane of the result is what `f` gave for that lane.
#[verifier::external_body]
pub(crate) fn map<F: Fn(usize) -> usize>(v: USizeVec3, f: F) -> (r: USizeVec3)
    requires
        call_requires(f, (v.x,)),
        call_requires(f, (v.y,)),
        call_requires(f, (v.z,)),
    ensures
        call_ensures(f, (v.x,), r.x),
        call_ensures(f, (v.y,), r.y),
        call_ensures(f, (v.z,), r.z),
{
    v.map(f)
}

/// [`USizeVec3::from_array`]: the lanes are the elements of `a` in order.
#[verifier::external_body]
pub(crate) fn from_array(a: [usize; 3]) -> (r: USizeVec3)
    ensures
        r.x == a@[0],
        r.y == a@[1],
        r.z == a@[2],
{
    USizeVec3::from_array(a)
}

/// [`USizeVec3::to_array`]: the array of the lanes in order.
#[verifier::external_body]
pub(crate) fn to_array(v: &USizeVec3) -> (r: [usize; 3])
    ensures
        r@ == seq![v.x, v.y, v.z],
{
    v.to_array()
}

/// [`USizeVec3::from_slice`]: the lanes are the first 3 elements of `slice`; it
/// panics on a shorter slice.
#[verifier::external_body]
pub(crate) fn from_slice(slice: &[usize]) -> (r: USizeVec3)
    requires
        slice@.len() >= 3,
    ensures
        r.x == slice@[0],
        r.y == slice@[1],
        r.z == slice@[2],
{
    USizeVec3::from_slice(slice)
}

/// [`USizeVec3::write_to_slice`]: copies the lanes over the first 3 elements of
/// `slice` and leaves the rest; it panics on a shorter slice.
#[verifier::external_body]
pub(crate) fn write_to_slice(v: USizeVec3, slice: &mut [usize])
    requires
        old(slice)@.len() >= 3,
    ensures
        final(slice)@ == old(slice)@.update(0, v.x).update(1, v.y).update(2, v.z),
{
    v.write_to_slice(slice)
}

/// Indexing a `USizeVec3` with a `usize`: the lane at `index`; it panics on an
/// index past the last lane.
#[verifier::external_body]
pub(crate) fn lane(v: &USizeVec3, index: usize) -> (r: usize)
    requires
        index < 3,
    ensures
        index == 0 ==> r == v.x,
        index == 1 ==> r == v.y,
        index == 2 ==> r == v.z,
{
    v[index]
}

/// [`USizeVec3::extend`]: the lanes of `v` followed by `w`.
#[verifier::external_body]
pub(crate) fn extend(v: USizeVec3, w: usize) -> (r: USizeVec4)
    ensures
        r.x == v.x,
        r.y == v.y,
        r.z == v.z,
        r.w == w,
{
    v.extend(w)
}

/// [`USizeVec3::truncate`]: the lanes of `v` without the last.
#[verifier::external_body]
pub(crate) fn truncate(v: USizeVec3) -> (r: USizeVec2)
    ensures
        r.x == v.x,
        r.y == v.y,
{
    v.truncate()
}

/// [`USizeVec3::with_x`]: `v` with the lane `x` replaced.
#[verifier::external_body]
pub(crate) fn with_x(v: USizeVec3, x: usize) -> (r: USizeVec3)
    ensures
        r.x == x,
        r.y == v.y,
        r.z == v.z,
{
    v.with_x(x)
}

/// [`USizeVec3::with_y`]: `v` with the lane `y` replaced.
#[verifier::external_body]
pub(crate) fn with_y(v: USizeVec3, y: usize) -> (r: USizeVec3)
    ensures
        r.x == v.x,
        r.y == y,
        r.z == v.z,
{
    v.with_y(y)
}

/// [`USizeVec3::with_z`]: `v` with the lane `z` replaced.
#[verifier::external_body]
pub(crate) fn with_z(v: USizeVec3, z: usize) -> (r: USizeVec3)
    ensures
        r.x == v.x,
        r.y == v.y,
        r.z == z,
{
    v.with_z(z)
}

/// [`USizeVec3::dot`]: the lane products added from the left. It computes in
/// `usize`, so no product and no sum on the way may overflow.
#[verifier::external_body]
pub(crate) fn dot(a: USizeVec3, b: USizeVec3) -> (r: usize)
    requires
        fits_usize(a.x * b.x),
        fits_usize(a.y * b.y),
        fits_usize(a.x * b.x + a.y * b.y),
        fits_usize(a.z * b.z),
        fits_usize(a.x * b.x + a.y * b.y + a.z * b.z),
    ensures
        r == a.x * b.x + a.y * b.y + a.z * b.z,
{
    a.dot(b)
}

/// [`USizeVec3::dot_into_vec`]: the dot product in every lane, under the
/// conditions of `dot`.
#[verifier::external_body]
pub(crate) fn dot_into_vec(a: USizeVec3, b: USizeVec3) -> (r: USizeVec3)
    requires
        fits_usize(a.x * b.x),
        fits_usize(a.y * b.y),
        fits_usize(a.x * b.x + a.y * b.y),
        fits_usize(a.z * b.z),
        fits_usize(a.x * b.x + a.y * b.y + a.z * b.z),
    ensures
        r.x == a.x * b.x + a.y * b.y + a.z * b.z,
        r.y == a.x * b.x + a.y * b.y + a.z * b.z,
        r.z == a.x * b.x + a.y * b.y + a.z * b.z,
{
    a.dot_into_vec(b)
}

/// [`USizeVec3::min`]: the smaller of the two lanes, lane by lane.
#[verifier::external_body]
pub(crate) fn min(a: USizeVec3, b: USizeVec3) -> (r: USizeVec3)
    ensures
        r.x == min2(a.x as int, b.x as int),
        r.y == min2(a.y as int, b.y as int),
        r.z == min2(a.z as int, b.z as int),
{
    a.min(b)
}

/// [`USizeVec3::max`]: the larger of the two lanes, lane by lane.
#[verifier::external_body]
pub(crate) fn max(a: USizeVec3, b: USizeVec3) -> (r: USizeVec3)
    ensures
        r.x == max2(a.x as int, b.x as int),
        r.y == max2(a.y as int, b.y as int),
        r.z == max2(a.z as int, b.z as int),
{
    a.max(b)
}

/// [`USizeVec3::clamp`]: `v.max(min).min(max)`. The crate asks for `min <= max`
/// in every lane and may assert it.
#[verifier::external_body]
pub(crate) fn clamp(v: USizeVec3, min: USizeVec3, max: USizeVec3) -> (r: USizeVec3)
    requires
        min.x <= max.x,
        min.y <= max.y,
        min.z <= max.z,
    ensures
        r.x == min2(max2(v.x as int, min.x as int), max.x as int),
        r.y == min2(max2(v.y as int, min.y as int), max.y as int),
        r.z == min2(max2(v.z as int, min.z as int), max.z as int),
{
    v.clamp(min, max)
}

/// [`USizeVec3::min_element`]: the least lane.
#[verifier::external_body]
pub(crate) fn min_element(v: USizeVec3) -> (r: usize)
    ensures
        r == min2(v.x as int, min2(v.y as int, v.z as int)),
{
    v.min_element()
}

/// [`USizeVec3::max_element`]: the greatest lane.
#[verifier::external_body]
pub(crate) fn max_element(v: USizeVec3) -> (r: usize)
    ensures
        r == max2(v.x as int, max2(v.y as int, v.z as int)),
{
    v.max_element()
}

/// [`USizeVec3::min_position`]: the index of the first lane that holds the
/// least value.
#[verifier::external_body]
pub(crate) fn min_position(v: USizeVec3) -> (r: usize)
    ensures
        first_min_at(seq![v.x as int, v.y as int, v.z as int], r as int),
{
    v.min_position()
}

/// [`USizeVec3::max_position`]: the index of the first lane that holds the
/// greatest value.
#[verifier::external_body]
pub(crate) fn max_position(v: USizeVec3) -> (r: usize)
    ensures
        first_max_at(seq![v.x as int, v.y as int, v.z as int], r as int),
{
    v.max_position()
}

/// [`USizeVec3::element_sum`]: the lanes added from the left, in `usize`: no
/// sum on the way may overflow.
#[verifier::external_body]
pub(crate) fn element_sum(v: USizeVec3) -> (r: usize)
    requires
        fits_usize(v.x + v.y),
        fits_usize(v.x + v.y + v.z),
    ensures
        r == v.x + v.y + v.z,
{
    v.element_sum()
}

/// [`USizeVec3::element_product`]: the lanes multiplied from the left, in
/// `usize`: no product on the way may overflow.
#[verifier::external_body]
pub(crate) fn element_product(v: USizeVec3) -> (r: usize)
    requires
        fits_usize(v.x * v.y),
        fits_usize(v.x * v.y * v.z),
    ensures
        r == v.x * v.y * v.z,
{
    v.element_product()
}

/// [`USizeVec3::select`]: each lane comes from `if_true` where the lane of
/// `mask` is true and from `if_false` where it is false.
#[verifier::external_body]
pub(crate) fn select(mask: BVec3, if_true: USizeVec3, if_false: USizeVec3) -> (r: USizeVec3)
    ensures
        r.x == (if mask.x {
            if_true.x
        } else {
            if_false.x
        }),
        r.y == (if mask.y {
            if_true.y
        } else {
            if_false.y
        }),
        r.z == (if mask.z {
            if_true.z
        } else {
            if_false.z
        }),
{
    USizeVec3::select(mask, if_true, if_false)
}

/// [`USizeVec3::cmpeq`]: a lane of the mask is true where the lane of `a` is
/// equal to that of `b`.
#[verifier::external_body]
pub(crate) fn cmpeq(a: USizeVec3, b: USizeVec3) -> (r: BVec3)
    ensures
        r.x == (a.x == b.x),
        r.y == (a.y == b.y),
        r.z == (a.z == b.z),
{
    a.cmpeq(b)
}

/// [`USizeVec3::cmpne`]: a lane of the mask is true where the lane of `a` is
/// different from that of `b`.
#[verifier::external_body]
pub(crate) fn cmpne(a: USizeVec3, b: USizeVec3) -> (r: BVec3)
    ensures
        r.x == (a.x != b.x),
        r.y == (a.y != b.y),
        r.z == (a.z != b.z),
{
    a.cmpne(b)
}

/// [`USizeVec3::cmpge`]: a lane of the mask is true where the lane of `a` is at
/// least that of `b`.
#[verifier::external_body]
pub(crate) fn cmpge(a: USizeVec3, b: USizeVec3) -> (r: BVec3)
    ensures
        r.x == (a.x >= b.x),
        r.y == (a.y >= b.y),
        r.z == (a.z >= b.z),
{
    a.cmpge(b)
}

/// [`USizeVec3::cmpgt`]: a lane of the mask is true where the lane of `a` is
/// greater than that of `b`.
#[verifier::external_body]
pub(crate) fn cmpgt(a: USizeVec3, b: USizeVec3) -> (r: BVec3)
    ensures
        r.x == (a.x > b.x),
        r.y == (a.y > b.y),
        r.z == (a.z > b.z),
{
    a.cmpgt(b)
}

/// [`USizeVec3::cmple`]: a lane of the mask is true where the lane of `a` is at
/// most that of `b`.
#[verifier::external_body]
pub(crate) fn cmple(a: USizeVec3, b: USizeVec3) -> (r: BVec3)
    ensures
        r.x == (a.x <= b.x),
        r.y == (a.y <= b.y),
        r.z == (a.z <= b.z),
{
    a.cmple(b)
}

/// [`USizeVec3::cmplt`]: a lane of the mask is true where the lane of `a` is
/// less than that of `b`.
#[verifier::external_body]
pub(crate) fn cmplt(a: USizeVec3, b: USizeVec3) -> (r: BVec3)
    ensures
        r.x == (a.x < b.x),
        r.y == (a.y < b.y),
        r.z == (a.z < b.z),
{
    a.cmplt(b)
}

/// [`USizeVec3::length_squared`]: the dot product of `v` with itself, under the
/// conditions of `dot`.
#[verifier::external_body]
pub(crate) fn length_squared(v: USizeVec3) -> (r: usize)
    requires
        fits_usize(v.x * v.x),
        fits_usize(v.y * v.y),
        fits_usize(v.x * v.x + v.y * v.y),
        fits_usize(v.z * v.z),
        fits_usize(v.x * v.x + v.y * v.y + v.z * v.z),
    ensures
        r == v.x * v.x + v.y * v.y + v.z * v.z,
{
    v.length_squared()
}

/// [`USizeVec3::cross`]: the cross product, in `usize`: no product and no
/// difference may overflow.
#[verifier::external_body]
pub(crate) fn cross(a: USizeVec3, b: USizeVec3) -> (r: USizeVec3)
    requires
        fits_usize(a.y * b.z),
        fits_usize(b.y * a.z),
        fits_usize(a.z * b.x),
        fits_usize(b.z * a.x),
        fits_usize(a.x * b.y),
        fits_usize(b.x * a.y),
        fits_usize(a.y * b.z - b.y * a.z),
        fits_usize(a.z * b.x - b.z * a.x),
        fits_usize(a.x * b.y - b.x * a.y),
    ensures
        r.x == a.y * b.z - b.y * a.z,
        r.y == a.z * b.x - b.z * a.x,
        r.z == a.x * b.y - b.x * a.y,
{
    a.cross(b)
}

/// [`USizeVec3::checked_add`]: the lane-wise sum, and `None` exactly where some
/// lane leaves the range of `usize`.
#[verifier::external_body]
pub(crate) fn checked_add(a: USizeVec3, b: USizeVec3) -> (r: Option<USizeVec3>)
    ensures
        r.is_some() <==> (fits_usize(a.x + b.x)
            && fits_usize(a.y + b.y)
            && fits_usize(a.z + b.z)),
        r.is_some() ==> r.unwrap().x == a.x + b.x,
        r.is_some() ==> r.unwrap().y == a.y + b.y,
        r.is_some() ==> r.unwrap().z == a.z + b.z,
{
    a.checked_add(b)
}

/// [`USizeVec3::checked_sub`]: the lane-wise difference, and `None` exactly
/// where some lane leaves the range of `usize`.
#[verifier::external_body]
pub(crate) fn checked_sub(a: USizeVec3, b: USizeVec3) -> (r: Option<USizeVec3>)
    ensures
        r.is_some() <==> (fits_usize(a.x - b.x)
            && fits_usize(a.y - b.y)
            && fits_usize(a.z - b.z)),
        r.is_some() ==> r.unwrap().x == a.x - b.x,
        r.is_some() ==> r.unwrap().y == a.y - b.y,
        r.is_some() ==> r.unwrap().z == a.z - b.z,
{
    a.checked_sub(b)
}

/// [`USizeVec3::checked_mul`]: the lane-wise product, and `None` exactly where
/// some lane leaves the range of `usize`.
#[verifier::external_body]
pub(crate) fn checked_mul(a: USizeVec3, b: USizeVec3) -> (r: Option<USizeVec3>)
    ensures
        r.is_some() <==> (fits_usize(a.x * b.x)
            && fits_usize(a.y * b.y)
            && fits_usize(a.z * b.z)),
        r.is_some() ==> r.unwrap().x == a.x * b.x,
        r.is_some() ==> r.unwrap().y == a.y * b.y,
        r.is_some() ==> r.unwrap().z == a.z * b.z,
{
    a.checked_mul(b)
}

/// [`USizeVec3::checked_div`]: the lane-wise quotient rounded towards zero, and
/// `None` exactly where some lane leaves the range of `usize`. `None` also
/// where a lane of `b` is zero.
#[verifier::external_body]
pub(crate) fn checked_div(a: USizeVec3, b: USizeVec3) -> (r: Option<USizeVec3>)
    ensures
        r.is_some() <==> (b.x != 0
            && b.y != 0
            && b.z != 0
            && fits_usize(trunc_div(a.x as int, b.x as int))
            && fits_usize(trunc_div(a.y as int, b.y as int))
            && fits_usize(trunc_div(a.z as int, b.z as int))),
        r.is_some() ==> r.unwrap().x == trunc_div(a.x as int, b.x as int),
        r.is_some() ==> r.unwrap().y == trunc_div(a.y as int, b.y as int),
        r.is_some() ==> r.unwrap().z == trunc_div(a.z as int, b.z as int),
{
    a.checked_div(b)
}

/// [`USizeVec3::wrapping_add`]: the lane-wise sum, wrapped into the range of
/// `usize`.
#[verifier::external_body]
pub(crate) fn wrapping_add(a: USizeVec3, b: USizeVec3) -> (r: USizeVec3)
    ensures
        r.x == wrap_usize(a.x + b.x),
        r.y == wrap_usize(a.y + b.y),
        r.z == wrap_usize(a.z + b.z),
{
    a.wrapping_add(b)
}

/// [`USizeVec3::wrapping_sub`]: the lane-wise difference, wrapped into the
/// range of `usize`.
#[verifier::external_body]
pub(crate) fn wrapping_sub(a: USizeVec3, b: USizeVec3) -> (r: USizeVec3)
    ensures
        r.x == wrap_usize(a.x - b.x),
        r.y == wrap_usize(a.y - b.y),
        r.z == wrap_usize(a.z - b.z),
{
    a.wrapping_sub(b)
}

/// [`USizeVec3::wrapping_mul`]: the lane-wise product, wrapped into the range
/// of `usize`.
#[verifier::external_body]
pub(crate) fn wrapping_mul(a: USizeVec3, b: USizeVec3) -> (r: USizeVec3)
    ensures
        r.x == wrap_usize(a.x * b.x),
        r.y == wrap_usize(a.y * b.y),
        r.z == wrap_usize(a.z * b.z),
{
    a.wrapping_mul(b)
}

/// [`USizeVec3::wrapping_div`]: the lane-wise quotient rounded towards zero,
/// wrapped into the range of `usize`. `usize::wrapping_div` panics on a zero
/// divisor.
#[verifier::external_body]
pub(crate) fn wrapping_div(a: USizeVec3, b: USizeVec3) -> (r: USizeVec3)
    requires
        b.x != 0,
        b.y != 0,
        b.z != 0,
    ensures
        r.x == wrap_usize(trunc_div(a.x as int, b.x as int)),
        r.y == wrap_usize(trunc_div(a.y as int, b.y as int)),
        r.z == wrap_usize(trunc_div(a.z as int, b.z as int)),
{
    a.wrapping_div(b)
}

/// [`USizeVec3::saturating_add`]: the lane-wise sum, saturated to the range of
/// `usize`.
#[verifier::external_body]
pub(crate) fn saturating_add(a: USizeVec3, b: USizeVec3) -> (r: USizeVec3)
    ensures
        r.x == sat_usize(a.x + b.x),
        r.y == sat_usize(a.y + b.y),
        r.z == sat_usize(a.z + b.z),
{
    a.saturating_add(b)
}

/// [`USizeVec3::saturating_sub`]: the lane-wise difference, saturated to the
/// range of `usize`.
#[verifier::external_body]
pub(crate) fn saturating_sub(a: USizeVec3, b: USizeVec3) -> (r: USizeVec3)
    ensures
        r.x == sat_usize(a.x - b.x),
        r.y == sat_usize(a.y - b.y),
        r.z == sat_usize(a.z - b.z),
{
    a.saturating_sub(b)
}

/// [`USizeVec3::saturating_mul`]: the lane-wise product, saturated to the range
/// of `usize`.
#[verifier::external_body]
pub(crate) fn saturating_mul(a: USizeVec3, b: USizeVec3) -> (r: USizeVec3)
    ensures
        r.x == sat_usize(a.x * b.x),
        r.y == sat_usize(a.y * b.y),
        r.z == sat_usize(a.z * b.z),
{
    a.saturating_mul(b)
}

/// [`USizeVec3::saturating_div`]: the lane-wise quotient rounded towards zero,
/// saturated to the range of `usize`. `usize::saturating_div` panics on a zero
/// divisor.
#[verifier::external_body]
pub(crate) fn saturating_div(a: USizeVec3, b: USizeVec3) -> (r: USizeVec3)
    requires
        b.x != 0,
        b.y != 0,
        b.z != 0,
    ensures
        r.x == sat_usize(trunc_div(a.x as int, b.x as int)),
        r.y == sat_usize(trunc_div(a.y as int, b.y as int)),
        r.z == sat_usize(trunc_div(a.z as int, b.z as int)),
{
    a.saturating_div(b)
}

/// [`USizeVec3::manhattan_distance`]: the distances between the lanes, added in
/// `usize`: the sum may not overflow.
#[verifier::external_body]
pub(crate) fn manhattan_distance(a: USizeVec3, b: USizeVec3) -> (r: usize)
    requires
        fits_usize(
            gap(a.x as int, b.x as int) + gap(a.y as int, b.y as int)
                + gap(a.z as int, b.z as int),
        ),
    ensures
        r == gap(a.x as int, b.x as int) + gap(a.y as int, b.y as int)
            + gap(a.z as int, b.z as int),
{
    a.manhattan_distance(b)
}

/// [`USizeVec3::checked_manhattan_distance`]: the distances between the lanes
/// added in `usize`, and `None` exactly where the sum overflows.
#[verifier::external_body]
pub(crate) fn checked_manhattan_distance(a: USizeVec3, b: USizeVec3) -> (r: Option<usize>)
    ensures
        r.is_some() <==> fits_usize(
            gap(a.x as int, b.x as int) + gap(a.y as int, b.y as int)
                + gap(a.z as int, b.z as int),
        ),
        r.is_some() ==> r.unwrap() == gap(a.x as int, b.x as int) + gap(a.y as int, b.y as int)
            + gap(a.z as int, b.z as int),
{
    a.checked_manhattan_distance(b)
}

/// [`USizeVec3::chebyshev_distance`]: the greatest distance between a lane of
/// `a` and that of `b`.
#[verifier::external_body]
pub(crate) fn chebyshev_distance(a: USizeVec3, b: USizeVec3) -> (r: usize)
    ensures
        r == max2(
            gap(a.x as int, b.x as int),
            max2(gap(a.y as int, b.y as int), gap(a.z as int, b.z as int)),
        ),
{
    a.chebyshev_distance(b)
}

} // verus!
