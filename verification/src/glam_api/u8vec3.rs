//! What this crate takes from `glam::U8Vec3`.
//!
//! Each function here calls one function of `glam` and states, unproved, what
//! that function does, as its source shows it.

use crate::math::{
    first_max_at, first_min_at, fits_u8, gap, max2, min2, sat_u8, trunc_div, wrap_u8,
};
use glam::{BVec3, U8Vec2, U8Vec3, U8Vec4};
use vstd::prelude::*;

verus! {

/// `glam::U8Vec3`, whose lanes are public fields.
#[verifier::external_type_specification]
pub struct ExU8Vec3(U8Vec3);

/// [`U8Vec3::new`]: the vector with the given lanes.
#[verifier::external_body]
pub(crate) fn new(x: u8, y: u8, z: u8) -> (r: U8Vec3)
    ensures
        r.x == x,
        r.y == y,
        r.z == z,
{
    U8Vec3::new(x, y, z)
}

/// [`U8Vec3::splat`]: every lane is `v`.
#[verifier::external_body]
pub(crate) fn splat(v: u8) -> (r: U8Vec3)
    ensures
        r.x == v,
        r.y == v,
        r.z == v,
{
    U8Vec3::splat(v)
}

/// [`U8Vec3::map`]: calls `f` on each lane, so `f` must accept each lane, and
/// each lane of the result is what `f` gave for that lane.
#[verifier::external_body]
pub(crate) fn map<F: Fn(u8) -> u8>(v: U8Vec3, f: F) -> (r: U8Vec3)
    requires
        call_requires(f, (v.x,)),
        call_requires(f, (v.y,)),
        call_requires(f, (v.z,)),
    ensures
        call_ensures(f, (v.x,), r.x),
        call_ensures(f, (v.y,), r.y),
        call_ensures(f, (v.z,), r.z),
{
    v.map(f)
}

/// [`U8Vec3::from_array`]: the lanes are the elements of `a` in order.
#[verifier::external_body]
pub(crate) fn from_array(a: [u8; 3]) -> (r: U8Vec3)
    ensures
        r.x == a@[0],
        r.y == a@[1],
        r.z == a@[2],
{
    U8Vec3::from_array(a)
}

/// [`U8Vec3::to_array`]: the array of the lanes in order.
#[verifier::external_body]
pub(crate) fn to_array(v: &U8Vec3) -> (r: [u8; 3])
    ensures
        r@ == seq![v.x, v.y, v.z],
{
    v.to_array()
}

/// [`U8Vec3::from_slice`]: the lanes are the first 3 elements of `slice`; it
/// panics on a shorter slice.
#[verifier::external_body]
pub(crate) fn from_slice(slice: &[u8]) -> (r: U8Vec3)
    requires
        slice@.len() >= 3,
    ensures
        r.x == slice@[0],
        r.y == slice@[1],
        r.z == slice@[2],
{
    U8Vec3::from_slice(slice)
}

/// [`U8Vec3::write_to_slice`]: copies the lanes over the first 3 elements of
/// `slice` and leaves the rest; it panics on a shorter slice.
#[verifier::external_body]
pub(crate) fn write_to_slice(v: U8Vec3, slice: &mut [u8])
    requires
        old(slice)@.len() >= 3,
    ensures
        final(slice)@ == old(slice)@.update(0, v.x).update(1, v.y).update(2, v.z),
{
    v.write_to_slice(slice)
}

/// Indexing a `U8Vec3` with a `usize`: the lane at `index`; it panics on an
/// index past the last lane.
#[verifier::external_body]
pub(crate) fn lane(v: &U8Vec3, index: usize) -> (r: u8)
    requires
        index < 3,
    ensures
        index == 0 ==> r == v.x,
        index == 1 ==> r == v.y,
        index == 2 ==> r == v.z,
{
    v[index]
}

/// [`U8Vec3::extend`]: the lanes of `v` followed by `w`.
#[verifier::external_body]
pub(crate) fn extend(v: U8Vec3, w: u8) -> (r: U8Vec4)
    ensures
        r.x == v.x,
        r.y == v.y,
        r.z == v.z,
        r.w == w,
{
    v.extend(w)
}

/// [`U8Vec3::truncate`]: the lanes of `v` without the last.
#[verifier::external_body]
pub(crate) fn truncate(v: U8Vec3) -> (r: U8Vec2)
    ensures
        r.x == v.x,
        r.y == v.y,
{
    v.truncate()
}

/// [`U8Vec3::with_x`]: `v` with the lane `x` replaced.
#[verifier::external_body]
pub(crate) fn with_x(v: U8Vec3, x: u8) -> (r: U8Vec3)
    ensures
        r.x == x,
        r.y == v.y,
        r.z == v.z,
{
    v.with_x(x)
}

/// [`U8Vec3::with_y`]: `v` with the lane `y` replaced.
#[verifier::external_body]
pub(crate) fn with_y(v: U8Vec3, y: u8) -> (r: U8Vec3)
    ensures
        r.x == v.x,
        r.y == y,
        r.z == v.z,
{
    v.with_y(y)
}

/// [`U8Vec3::with_z`]: `v` with the lane `z` replaced.
#[verifier::external_body]
pub(crate) fn with_z(v: U8Vec3, z: u8) -> (r: U8Vec3)
    ensures
        r.x == v.x,
        r.y == v.y,
        r.z == z,
{
    v.with_z(z)
}

/// [`U8Vec3::dot`]: the lane products added from the left. It computes in `u8`,
/// so no product and no sum on the way may overflow.
#[verifier::external_body]
pub(crate) fn dot(a: U8Vec3, b: U8Vec3) -> (r: u8)
    requires
        fits_u8(a.x * b.x),
        fits_u8(a.y * b.y),
        fits_u8(a.x * b.x + a.y * b.y),
        fits_u8(a.z * b.z),
        fits_u8(a.x * b.x + a.y * b.y + a.z * b.z),
    ensures
        r == a.x * b.x + a.y * b.y + a.z * b.z,
{
    a.dot(b)
}

/// [`U8Vec3::dot_into_vec`]: the dot product in every lane, under the
/// conditions of `dot`.
#[verifier::external_body]
pub(crate) fn dot_into_vec(a: U8Vec3, b: U8Vec3) -> (r: U8Vec3)
    requires
        fits_u8(a.x * b.x),
        fits_u8(a.y * b.y),
        fits_u8(a.x * b.x + a.y * b.y),
        fits_u8(a.z * b.z),
        fits_u8(a.x * b.x + a.y * b.y + a.z * b.z),
    ensures
        r.x == a.x * b.x + a.y * b.y + a.z * b.z,
        r.y == a.x * b.x + a.y * b.y + a.z * b.z,
        r.z == a.x * b.x + a.y * b.y + a.z * b.z,
{
    a.dot_into_vec(b)
}

/// [`U8Vec3::min`]: the smaller of the two lanes, lane by lane.
#[verifier::external_body]
pub(crate) fn min(a: U8Vec3, b: U8Vec3) -> (r: U8Vec3)
    ensures
        r.x == min2(a.x as int, b.x as int),
        r.y == min2(a.y as int, b.y as int),
        r.z == min2(a.z as int, b.z as int),
{
    a.min(b)
}

/// [`U8Vec3::max`]: the larger of the two lanes, lane by lane.
#[verifier::external_body]
pub(crate) fn max(a: U8Vec3, b: U8Vec3) -> (r: U8Vec3)
    ensures
        r.x == max2(a.x as int, b.x as int),
        r.y == max2(a.y as int, b.y as int),
        r.z == max2(a.z as int, b.z as int),
{
    a.max(b)
}

/// [`U8Vec3::clamp`]: `v.max(min).min(max)`. The crate asks for `min <= max` in
/// every lane and may assert it.
#[verifier::external_body]
pub(crate) fn clamp(v: U8Vec3, min: U8Vec3, max: U8Vec3) -> (r: U8Vec3)
    requires
        min.x <= max.x,
        min.y <= max.y,
        min.z <= max.z,
    ensures
        r.x == min2(max2(v.x as int, min.x as int), max.x as int),
        r.y == min2(max2(v.y as int, min.y as int), max.y as int),
        r.z == min2(max2(v.z as int, min.z as int), max.z as int),
{
    v.clamp(min, max)
}

/// [`U8Vec3::min_element`]: the least lane.
#[verifier::external_body]
pub(crate) fn min_element(v: U8Vec3) -> (r: u8)
    ensures
        r == min2(v.x as int, min2(v.y as int, v.z as int)),
{
    v.min_element()
}

/// [`U8Vec3::max_element`]: the greatest lane.
#[verifier::external_body]
pub(crate) fn max_element(v: U8Vec3) -> (r: u8)
    ensures
        r == max2(v.x as int, max2(v.y as int, v.z as int)),
{
    v.max_element()
}

/// [`U8Vec3::min_position`]: the index of the first lane that holds the least
/// value.
#[verifier::external_body]
pub(crate) fn min_position(v: U8Vec3) -> (r: usize)
    ensures
        first_min_at(seq![v.x as int, v.y as int, v.z as int], r as int),
{
    v.min_position()
}

/// [`U8Vec3::max_position`]: the index of the first lane that holds the
/// greatest value.
#[verifier::external_body]
pub(crate) fn max_position(v: U8Vec3) -> (r: usize)
    ensures
        first_max_at(seq![v.x as int, v.y as int, v.z as int], r as int),
{
    v.max_position()
}

/// [`U8Vec3::element_sum`]: the lanes added from the left, in `u8`: no sum on
/// the way may overflow.
#[verifier::external_body]
pub(crate) fn element_sum(v: U8Vec3) -> (r: u8)
    requires
        fits_u8(v.x + v.y),
        fits_u8(v.x + v.y + v.z),
    ensures
        r == v.x + v.y + v.z,
{
    v.element_sum()
}

/// [`U8Vec3::element_product`]: the lanes multiplied from the left, in `u8`: no
/// product on the way may overflow.
#[verifier::external_body]
pub(crate) fn element_product(v: U8Vec3) -> (r: u8)
    requires
        fits_u8(v.x * v.y),
        fits_u8(v.x * v.y * v.z),
    ensures
        r == v.x * v.y * v.z,
{
    v.element_product()
}

/// [`U8Vec3::select`]: each lane comes from `if_true` where the lane of `mask`
/// is true and from `if_false` where it is false.
#[verifier::external_body]
pub(crate) fn select(mask: BVec3, if_true: U8Vec3, if_false: U8Vec3) -> (r: U8Vec3)
    ensures
        r.x == (if mask.x {
            if_true.x
        } else {
            if_false.x
        }),
        r.y == (if mask.y {
            if_true.y
        } else {
            if_false.y
        }),
        r.z == (if mask.z {
            if_true.z
        } else {
            if_false.z
        }),
{
    U8Vec3::select(mask, if_true, if_false)
}

/// [`U8Vec3::cmpeq`]: a lane of the mask is true where the lane of `a` is equal
/// to that of `b`.
#[verifier::external_body]
pub(crate) fn cmpeq(a: U8Vec3, b: U8Vec3) -> (r: BVec3)
    ensures
        r.x == (a.x == b.x),
        r.y == (a.y == b.y),
        r.z == (a.z == b.z),
{
    a.cmpeq(b)
}

/// [`U8Vec3::cmpne`]: a lane of the mask is true where the lane of `a` is
/// different from that of `b`.
#[verifier::external_body]
pub(crate) fn cmpne(a: U8Vec3, b: U8Vec3) -> (r: BVec3)
    ensures
        r.x == (a.x != b.x),
        r.y == (a.y != b.y),
        r.z == (a.z != b.z),
{
    a.cmpne(b)
}

/// [`U8Vec3::cmpge`]: a lane of the mask is true where the lane of `a` is at
/// least that of `b`.
#[verifier::external_body]
pub(crate) fn cmpge(a: U8Vec3, b: U8Vec3) -> (r: BVec3)
    ensures
        r.x == (a.x >= b.x),
        r.y == (a.y >= b.y),
        r.z == (a.z >= b.z),
{
    a.cmpge(b)
}

/// [`U8Vec3::cmpgt`]: a lane of the mask is true where the lane of `a` is
/// greater than that of `b`.
#[verifier::external_body]
pub(crate) fn cmpgt(a: U8Vec3, b: U8Vec3) -> (r: BVec3)
    ensures
        r.x == (a.x > b.x),
        r.y == (a.y > b.y),
        r.z == (a.z > b.z),
{
    a.cmpgt(b)
}

/// [`U8Vec3::cmple`]: a lane of the mask is true where the lane of `a` is at
/// most that of `b`.
#[verifier::external_body]
pub(crate) fn cmple(a: U8Vec3, b: U8Vec3) -> (r: BVec3)
    ensures
        r.x == (a.x <= b.x),
        r.y == (a.y <= b.y),
        r.z == (a.z <= b.z),
{
    a.cmple(b)
}

/// [`U8Vec3::cmplt`]: a lane of the mask is true where the lane of `a` is less
/// than that of `b`.
#[verifier::external_body]
pub(crate) fn cmplt(a: U8Vec3, b: U8Vec3) -> (r: BVec3)
    ensures
        r.x == (a.x < b.x),
        r.y == (a.y < b.y),
        r.z == (a.z < b.z),
{
    a.cmplt(b)
}

/// [`U8Vec3::length_squared`]: the dot product of `v` with itself, under the
/// conditions of `dot`.
#[verifier::external_body]
pub(crate) fn length_squared(v: U8Vec3) -> (r: u8)
    requires
        fits_u8(v.x * v.x),
        fits_u8(v.y * v.y),
        fits_u8(v.x * v.x + v.y * v.y),
        fits_u8(v.z * v.z),
        fits_u8(v.x * v.x + v.y * v.y + v.z * v.z),
    ensures
        r == v.x * v.x + v.y * v.y + v.z * v.z,
{
    v.length_squared()
}

/// [`U8Vec3::cross`]: the cross product, in `u8`: no product and no difference
/// may overflow.
#[verifier::external_body]
pub(crate) fn cross(a: U8Vec3, b: U8Vec3) -> (r: U8Vec3)
    requires
        fits_u8(a.y * b.z),
        fits_u8(b.y * a.z),
        fits_u8(a.z * b.x),
        fits_u8(b.z * a.x),
        fits_u8(a.x * b.y),
        fits_u8(b.x * a.y),
        fits_u8(a.y * b.z - b.y * a.z),
        fits_u8(a.z * b.x - b.z * a.x),
        fits_u8(a.x * b.y - b.x * a.y),
    ensures
        r.x == a.y * b.z - b.y * a.z,
        r.y == a.z * b.x - b.z * a.x,
        r.z == a.x * b.y - b.x * a.y,
{
    a.cross(b)
}

/// [`U8Vec3::checked_add`]: the lane-wise sum, and `None` exactly where some
/// lane leaves the range of `u8`.
#[verifier::external_body]
pub(crate) fn checked_add(a: U8Vec3, b: U8Vec3) -> (r: Option<U8Vec3>)
    ensures
        r.is_some() <==> (fits_u8(a.x + b.x)
            && fits_u8(a.y + b.y)
            && fits_u8(a.z + b.z)),
        r.is_some() ==> r.unwrap().x == a.x + b.x,
        r.is_some() ==> r.unwrap().y == a.y + b.y,
        r.is_some() ==> r.unwrap().z == a.z + b.z,
{
    a.checked_add(b)
}

/// [`U8Vec3::checked_sub`]: the lane-wise difference, and `None` exactly where
/// some lane leaves the range of `u8`.
#[verifier::external_body]
pub(crate) fn checked_sub(a: U8Vec3, b: U8Vec3) -> (r: Option<U8Vec3>)
    ensures
        r.is_some() <==> (fits_u8(a.x - b.x)
            && fits_u8(a.y - b.y)
            && fits_u8(a.z - b.z)),
        r.is_some() ==> r.unwrap().x == a.x - b.x,
        r.is_some() ==> r.unwrap().y == a.y - b.y,
        r.is_some() ==> r.unwrap().z == a.z - b.z,
{
    a.checked_sub(b)
}

/// [`U8Vec3::checked_mul`]: the lane-wise product, and `None` exactly where
/// some lane leaves the range of `u8`.
#[verifier::external_body]
pub(crate) fn checked_mul(a: U8Vec3, b: U8Vec3) -> (r: Option<U8Vec3>)
    ensures
        r.is_some() <==> (fits_u8(a.x * b.x)
            && fits_u8(a.y * b.y)
            && fits_u8(a.z * b.z)),
        r.is_some() ==> r.unwrap().x == a.x * b.x,
        r.is_some() ==> r.unwrap().y == a.y * b.y,
        r.is_some() ==> r.unwrap().z == a.z * b.z,
{
    a.checked_mul(b)
}

/// [`U8Vec3::checked_div`]: the lane-wise quotient rounded towards zero, and
/// `None` exactly where some lane leaves the range of `u8`. `None` also where a
/// lane of `b` is zero.
#[verifier::external_body]
pub(crate) fn checked_div(a: U8Vec3, b: U8Vec3) -> (r: Option<U8Vec3>)
    ensures
        r.is_some() <==> (b.x != 0
            && b.y != 0
            && b.z != 0
            && fits_u8(trunc_div(a.x as int, b.x as int))
            && fits_u8(trunc_div(a.y as int, b.y as int))
            && fits_u8(trunc_div(a.z as int, b.z as int))),
        r.is_some() ==> r.unwrap().x == trunc_div(a.x as int, b.x as int),
        r.is_some() ==> r.unwrap().y == trunc_div(a.y as int, b.y as int),
        r.is_some() ==> r.unwrap().z == trunc_div(a.z as int, b.z as int),
{
    a.checked_div(b)
}

/// [`U8Vec3::wrapping_add`]: the lane-wise sum, wrapped into the range of `u8`.
#[verifier::external_body]
pub(crate) fn wrapping_add(a: U8Vec3, b: U8Vec3) -> (r: U8Vec3)
    ensures
        r.x == wrap_u8(a.x + b.x),
        r.y == wrap_u8(a.y + b.y),
        r.z == wrap_u8(a.z + b.z),
{
    a.wrapping_add(b)
}

/// [`U8Vec3::wrapping_sub`]: the lane-wise difference, wrapped into the range
/// of `u8`.
#[verifier::external_body]
pub(crate) fn wrapping_sub(a: U8Vec3, b: U8Vec3) -> (r: U8Vec3)
    ensures
        r.x == wrap_u8(a.x - b.x),
        r.y == wrap_u8(a.y - b.y),
        r.z == wrap_u8(a.z - b.z),
{
    a.wrapping_sub(b)
}

/// [`U8Vec3::wrapping_mul`]: the lane-wise product, wrapped into the range of
/// `u8`.
#[verifier::external_body]
pub(crate) fn wrapping_mul(a: U8Vec3, b: U8Vec3) -> (r: U8Vec3)
    ensures
        r.x == wrap_u8(a.x * b.x),
        r.y == wrap_u8(a.y * b.y),
        r.z == wrap_u8(a.z * b.z),
{
    a.wrapping_mul(b)
}

/// [`U8Vec3::wrapping_div`]: the lane-wise quotient rounded towards zero,
/// wrapped into the range of `u8`. `u8::wrapping_div` panics on a zero divisor.
#[verifier::external_body]
pub(crate) fn wrapping_div(a: U8Vec3, b: U8Vec3) -> (r: U8Vec3)
    requires
        b.x != 0,
        b.y != 0,
        b.z != 0,
    ensures
        r.x == wrap_u8(trunc_div(a.x as int, b.x as int)),
        r.y == wrap_u8(trunc_div(a.y as int, b.y as int)),
        r.z == wrap_u8(trunc_div(a.z as int, b.z as int)),
{
    a.wrapping_div(b)
}

/// [`U8Vec3::saturating_add`]: the lane-wise sum, saturated to the range of
/// `u8`.
#[verifier::external_body]
pub(crate) fn saturating_add(a: U8Vec3, b: U8Vec3) -> (r: U8Vec3)
    ensures
        r.x == sat_u8(a.x + b.x),
        r.y == sat_u8(a.y + b.y),
        r.z == sat_u8(a.z + b.z),
{
    a.saturating_add(b)
}

/// [`U8Vec3::saturating_sub`]: the lane-wise difference, saturated to the range
/// of `u8`.
#[verifier::external_body]
pub(crate) fn saturating_sub(a: U8Vec3, b: U8Vec3) -> (r: U8Vec3)
    ensures
        r.x == sat_u8(a.x - b.x),
        r.y == sat_u8(a.y - b.y),
        r.z == sat_u8(a.z - b.z),
{
    a.saturating_sub(b)
}

/// [`U8Vec3::saturating_mul`]: the lane-wise product, saturated to the range of
/// `u8`.
#[verifier::external_body]
pub(crate) fn saturating_mul(a: U8Vec3, b: U8Vec3) -> (r: U8Vec3)
    ensures
        r.x == sat_u8(a.x * b.x),
        r.y == sat_u8(a.y * b.y),
        r.z == sat_u8(a.z * b.z),
{
    a.saturating_mul(b)
}

/// [`U8Vec3::saturating_div`]: the lane-wise quotient rounded towards zero,
/// saturated to the range of `u8`. `u8::saturating_div` panics on a zero
/// divisor.
#[verifier::external_body]
pub(crate) fn saturating_div(a: U8Vec3, b: U8Vec3) -> (r: U8Vec3)
    requires
        b.x != 0,
        b.y != 0,
        b.z != 0,
    ensures
        r.x == sat_u8(trunc_div(a.x as int, b.x as int)),
        r.y == sat_u8(trunc_div(a.y as int, b.y as int)),
        r.z == sat_u8(trunc_div(a.z as int, b.z as int)),
{
    a.saturating_div(b)
}

/// [`U8Vec3::manhattan_distance`]: the distances between the lanes, added in
/// `u8`: the sum may not overflow.
#[verifier::external_body]
pub(crate) fn manhattan_distance(a: U8Vec3, b: U8Vec3) -> (r: u8)
    requires
        fits_u8(
            gap(a.x as int, b.x as int) + gap(a.y as int, b.y as int)
                + gap(a.z as int, b.z as int),
        ),
    ensures
        r == gap(a.x as int, b.x as int) + gap(a.y as int, b.y as int)
            + gap(a.z as int, b.z as int),
{
    a.manhattan_distance(b)
}

/// [`U8Vec3::checked_manhattan_distance`]: the distances between the lanes
/// added in `u8`, and `None` exactly where the sum overflows.
#[verifier::external_body]
pub(crate) fn checked_manhattan_distance(a: U8Vec3, b: U8Vec3) -> (r: Option<u8>)
    ensures
        r.is_some() <==> fits_u8(
            gap(a.x as int, b.x as int) + gap(a.y as int, b.y as int)
                + gap(a.z as int, b.z as int),
        ),
        r.is_some() ==> r.unwrap() == gap(a.x as int, b.x as int) + gap(a.y as int, b.y as int)
            + gap(a.z as int, b.z as int),
{
    a.checked_manhattan_distance(b)
}

/// [`U8Vec3::chebyshev_distance`]: the greatest distance between a lane of `a`
/// and that of `b`.
#[verifier::external_body]
pub(crate) fn chebyshev_distance(a: U8Vec3, b: U8Vec3) -> (r: u8)
    ensures
        r == max2(
            gap(a.x as int, b.x as int),
            max2(gap(a.y as int, b.y as int), gap(a.z as int, b.z as int)),
        ),
{
    a.chebyshev_distance(b)
}

} // verus!
