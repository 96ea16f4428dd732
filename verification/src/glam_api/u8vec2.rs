//! What this crate takes from `glam::U8Vec2`.
//!
//! Each function here calls one function of `glam` and states, unproved, what
//! that function does, as its source shows it.

use crate::math::{
    first_max_at, first_min_at, fits_u8, gap, max2, min2, sat_u8, trunc_div, wrap_u8,
};
use glam::{BVec2, U8Vec2, U8Vec3};
use vstd::prelude::*;

verus! {

/// `glam::U8Vec2`, whose lanes are public fields.
#[verifier::external_type_specification]
pub struct ExU8Vec2(U8Vec2);

/// [`U8Vec2::new`]: the vector with the given lanes.
#[verifier::external_body]
pub(crate) fn new(x: u8, y: u8) -> (r: U8Vec2)
    ensures
        r.x == x,
        r.y == y,
{
    U8Vec2::new(x, y)
}

/// [`U8Vec2::splat`]: every lane is `v`.
#[verifier::external_body]
pub(crate) fn splat(v: u8) -> (r: U8Vec2)
    ensures
        r.x == v,
        r.y == v,
{
    U8Vec2::splat(v)
}

/// [`U8Vec2::map`]: calls `f` on each lane, so `f` must accept each lane, and
/// each lane of the result is what `f` gave for that lane.
#[verifier::external_body]
pub(crate) fn map<F: Fn(u8) -> u8>(v: U8Vec2, f: F) -> (r: U8Vec2)
    requires
        call_requires(f, (v.x,)),
        call_requires(f, (v.y,)),
    ensures
        call_ensures(f, (v.x,), r.x),
        call_ensures(f, (v.y,), r.y),
{
    v.map(f)
}

/// [`U8Vec2::from_array`]: the lanes are the elements of `a` in order.
#[verifier::external_body]
pub(crate) fn from_array(a: [u8; 2]) -> (r: U8Vec2)
    ensures
        r.x == a@[0],
        r.y == a@[1],
{
    U8Vec2::from_array(a)
}

/// [`U8Vec2::to_array`]: the array of the lanes in order.
#[verifier::external_body]
pub(crate) fn to_array(v: &U8Vec2) -> (r: [u8; 2])
    ensures
        r@ == seq![v.x, v.y],
{
    v.to_array()
}

/// [`U8Vec2::from_slice`]: the lanes are the first 2 elements of `slice`; it
/// panics on a shorter slice.
#[verifier::external_body]
pub(crate) fn from_slice(slice: &[u8]) -> (r: U8Vec2)
    requires
        slice@.len() >= 2,
    ensures
        r.x == slice@[0],
        r.y == slice@[1],
{
    U8Vec2::from_slice(slice)
}

/// [`U8Vec2::write_to_slice`]: copies the lanes over the first 2 elements of
/// `slice` and leaves the rest; it panics on a shorter slice.
#[verifier::external_body]
pub(crate) fn write_to_slice(v: U8Vec2, slice: &mut [u8])
    requires
        old(slice)@.len() >= 2,
    ensures
        final(slice)@ == old(slice)@.update(0, v.x).update(1, v.y),
{
    v.write_to_slice(slice)
}

/// Indexing a `U8Vec2` with a `usize`: the lane at `index`; it panics on an
/// index past the last lane.
#[verifier::external_body]
pub(crate) fn lane(v: &U8Vec2, index: usize) -> (r: u8)
    requires
        index < 2,
    ensures
        index == 0 ==> r == v.x,
        index == 1 ==> r == v.y,
{
    v[index]
}

/// [`U8Vec2::extend`]: the lanes of `v` followed by `z`.
#[verifier::external_body]
pub(crate) fn extend(v: U8Vec2, z: u8) -> (r: U8Vec3)
    ensures
        r.x == v.x,
        r.y == v.y,
        r.z == z,
{
    v.extend(z)
}

/// [`U8Vec2::with_x`]: `v` with the lane `x` replaced.
#[verifier::external_body]
pub(crate) fn with_x(v: U8Vec2, x: u8) -> (r: U8Vec2)
    ensures
        r.x == x,
        r.y == v.y,
{
    v.with_x(x)
}

/// [`U8Vec2::with_y`]: `v` with the lane `y` replaced.
#[verifier::external_body]
pub(crate) fn with_y(v: U8Vec2, y: u8) -> (r: U8Vec2)
    ensures
        r.x == v.x,
        r.y == y,
{
    v.with_y(y)
}

/// [`U8Vec2::dot`]: the lane products added from the left. It computes in `u8`,
/// so no product and no sum on the way may overflow.
#[verifier::external_body]
pub(crate) fn dot(a: U8Vec2, b: U8Vec2) -> (r: u8)
    requires
        fits_u8(a.x * b.x),
        fits_u8(a.y * b.y),
        fits_u8(a.x * b.x + a.y * b.y),
    ensures
        r == a.x * b.x + a.y * b.y,
{
    a.dot(b)
}

/// [`U8Vec2::dot_into_vec`]: the dot product in every lane, under the
/// conditions of `dot`.
#[verifier::external_body]
pub(crate) fn dot_into_vec(a: U8Vec2, b: U8Vec2) -> (r: U8Vec2)
    requires
        fits_u8(a.x * b.x),
        fits_u8(a.y * b.y),
        fits_u8(a.x * b.x + a.y * b.y),
    ensures
        r.x == a.x * b.x + a.y * b.y,
        r.y == a.x * b.x + a.y * b.y,
{
    a.dot_into_vec(b)
}

/// [`U8Vec2::min`]: the smaller of the two lanes, lane by lane.
#[verifier::external_body]
pub(crate) fn min(a: U8Vec2, b: U8Vec2) -> (r: U8Vec2)
    ensures
        r.x == min2(a.x as int, b.x as int),
        r.y == min2(a.y as int, b.y as int),
{
    a.min(b)
}

/// [`U8Vec2::max`]: the larger of the two lanes, lane by lane.
#[verifier::external_body]
pub(crate) fn max(a: U8Vec2, b: U8Vec2) -> (r: U8Vec2)
    ensures
        r.x == max2(a.x as int, b.x as int),
        r.y == max2(a.y as int, b.y as int),
{
    a.max(b)
}

/// [`U8Vec2::clamp`]: `v.max(min).min(max)`. The crate asks for `min <= max` in
/// every lane and may assert it.
#[verifier::external_body]
pub(crate) fn clamp(v: U8Vec2, min: U8Vec2, max: U8Vec2) -> (r: U8Vec2)
    requires
        min.x <= max.x,
        min.y <= max.y,
    ensures
        r.x == min2(max2(v.x as int, min.x as int), max.x as int),
        r.y == min2(max2(v.y as int, min.y as int), max.y as int),
{
    v.clamp(min, max)
}

/// [`U8Vec2::min_element`]: the least lane.
#[verifier::external_body]
pub(crate) fn min_element(v: U8Vec2) -> (r: u8)
    ensures
        r == min2(v.x as int, v.y as int),
{
    v.min_element()
}

/// [`U8Vec2::max_element`]: the greatest lane.
#[verifier::external_body]
pub(crate) fn max_element(v: U8Vec2) -> (r: u8)
    ensures
        r == max2(v.x as int, v.y as int),
{
    v.max_element()
}

/// [`U8Vec2::min_position`]: the index of the first lane that holds the least
/// value.
#[verifier::external_body]
pub(crate) fn min_position(v: U8Vec2) -> (r: usize)
    ensures
        first_min_at(seq![v.x as int, v.y as int], r as int),
{
    v.min_position()
}

/// [`U8Vec2::max_position`]: the index of the first lane that holds the
/// greatest value.
#[verifier::external_body]
pub(crate) fn max_position(v: U8Vec2) -> (r: usize)
    ensures
        first_max_at(seq![v.x as int, v.y as int], r as int),
{
    v.max_position()
}

/// [`U8Vec2::element_sum`]: the lanes added from the left, in `u8`: no sum on
/// the way may overflow.
#[verifier::external_body]
pub(crate) fn element_sum(v: U8Vec2) -> (r: u8)
    requires
        fits_u8(v.x + v.y),
    ensures
        r == v.x + v.y,
{
    v.element_sum()
}

/// [`U8Vec2::element_product`]: the lanes multiplied from the left, in `u8`: no
/// product on the way may overflow.
#[verifier::external_body]
pub(crate) fn element_product(v: U8Vec2) -> (r: u8)
    requires
        fits_u8(v.x * v.y),
    ensures
        r == v.x * v.y,
{
    v.element_product()
}

/// [`U8Vec2::select`]: each lane comes from `if_true` where the lane of `mask`
/// is true and from `if_false` where it is false.
#[verifier::external_body]
pub(crate) fn select(mask: BVec2, if_true: U8Vec2, if_false: U8Vec2) -> (r: U8Vec2)
    ensures
        r.x == (if mask.x {
            if_true.x
        } else {
            if_false.x
        }),
        r.y == (if mask.y {
            if_true.y
        } else {
            if_false.y
        }),
{
    U8Vec2::select(mask, if_true, if_false)
}

/// [`U8Vec2::cmpeq`]: a lane of the mask is true where the lane of `a` is equal
/// to that of `b`.
#[verifier::external_body]
pub(crate) fn cmpeq(a: U8Vec2, b: U8Vec2) -> (r: BVec2)
    ensures
        r.x == (a.x == b.x),
        r.y == (a.y == b.y),
{
    a.cmpeq(b)
}

/// [`U8Vec2::cmpne`]: a lane of the mask is true where the lane of `a` is
/// different from that of `b`.
#[verifier::external_body]
pub(crate) fn cmpne(a: U8Vec2, b: U8Vec2) -> (r: BVec2)
    ensures
        r.x == (a.x != b.x),
        r.y == (a.y != b.y),
{
    a.cmpne(b)
}

/// [`U8Vec2::cmpge`]: a lane of the mask is true where the lane of `a` is at
/// least that of `b`.
#[verifier::external_body]
pub(crate) fn cmpge(a: U8Vec2, b: U8Vec2) -> (r: BVec2)
    ensures
        r.x == (a.x >= b.x),
        r.y == (a.y >= b.y),
{
    a.cmpge(b)
}

/// [`U8Vec2::cmpgt`]: a lane of the mask is true where the lane of `a` is
/// greater than that of `b`.
#[verifier::external_body]
pub(crate) fn cmpgt(a: U8Vec2, b: U8Vec2) -> (r: BVec2)
    ensures
        r.x == (a.x > b.x),
        r.y == (a.y > b.y),
{
    a.cmpgt(b)
}

/// [`U8Vec2::cmple`]: a lane of the mask is true where the lane of `a` is at
/// most that of `b`.
#[verifier::external_body]
pub(crate) fn cmple(a: U8Vec2, b: U8Vec2) -> (r: BVec2)
    ensures
        r.x == (a.x <= b.x),
        r.y == (a.y <= b.y),
{
    a.cmple(b)
}

/// [`U8Vec2::cmplt`]: a lane of the mask is true where the lane of `a` is less
/// than that of `b`.
#[verifier::external_body]
pub(crate) fn cmplt(a: U8Vec2, b: U8Vec2) -> (r: BVec2)
    ensures
        r.x == (a.x < b.x),
        r.y == (a.y < b.y),
{
    a.cmplt(b)
}

/// [`U8Vec2::length_squared`]: the dot product of `v` with itself, under the
/// conditions of `dot`.
#[verifier::external_body]
pub(crate) fn length_squared(v: U8Vec2) -> (r: u8)
    requires
        fits_u8(v.x * v.x),
        fits_u8(v.y * v.y),
        fits_u8(v.x * v.x + v.y * v.y),
    ensures
        r == v.x * v.x + v.y * v.y,
{
    v.length_squared()
}

/// [`U8Vec2::checked_add`]: the lane-wise sum, and `None` exactly where some
/// lane leaves the range of `u8`.
#[verifier::external_body]
pub(crate) fn checked_add(a: U8Vec2, b: U8Vec2) -> (r: Option<U8Vec2>)
    ensures
        r.is_some() <==> (fits_u8(a.x + b.x)
            && fits_u8(a.y + b.y)),
        r.is_some() ==> r.unwrap().x == a.x + b.x,
        r.is_some() ==> r.unwrap().y == a.y + b.y,
{
    a.checked_add(b)
}

/// [`U8Vec2::checked_sub`]: the lane-wise difference, and `None` exactly where
/// some lane leaves the range of `u8`.
#[verifier::external_body]
pub(crate) fn checked_sub(a: U8Vec2, b: U8Vec2) -> (r: Option<U8Vec2>)
    ensures
        r.is_some() <==> (fits_u8(a.x - b.x)
            && fits_u8(a.y - b.y)),
        r.is_some() ==> r.unwrap().x == a.x - b.x,
        r.is_some() ==> r.unwrap().y == a.y - b.y,
{
    a.checked_sub(b)
}

/// [`U8Vec2::checked_mul`]: the lane-wise product, and `None` exactly where
/// some lane leaves the range of `u8`.
#[verifier::external_body]
pub(crate) fn checked_mul(a: U8Vec2, b: U8Vec2) -> (r: Option<U8Vec2>)
    ensures
        r.is_some() <==> (fits_u8(a.x * b.x)
            && fits_u8(a.y * b.y)),
        r.is_some() ==> r.unwrap().x == a.x * b.x,
        r.is_some() ==> r.unwrap().y == a.y * b.y,
{
    a.checked_mul(b)
}

/// [`U8Vec2::checked_div`]: the lane-wise quotient rounded towards zero, and
/// `None` exactly where some lane leaves the range of `u8`. `None` also where a
/// lane of `b` is zero.
#[verifier::external_body]
pub(crate) fn checked_div(a: U8Vec2, b: U8Vec2) -> (r: Option<U8Vec2>)
    ensures
        r.is_some() <==> (b.x != 0
            && b.y != 0
            && fits_u8(trunc_div(a.x as int, b.x as int))
            && fits_u8(trunc_div(a.y as int, b.y as int))),
        r.is_some() ==> r.unwrap().x == trunc_div(a.x as int, b.x as int),
        r.is_some() ==> r.unwrap().y == trunc_div(a.y as int, b.y as int),
{
    a.checked_div(b)
}

/// [`U8Vec2::wrapping_add`]: the lane-wise sum, wrapped into the range of `u8`.
#[verifier::external_body]
pub(crate) fn wrapping_add(a: U8Vec2, b: U8Vec2) -> (r: U8Vec2)
    ensures
        r.x == wrap_u8(a.x + b.x),
        r.y == wrap_u8(a.y + b.y),
{
    a.wrapping_add(b)
}

/// [`U8Vec2::wrapping_sub`]: the lane-wise difference, wrapped into the range
/// of `u8`.
#[verifier::external_body]
pub(crate) fn wrapping_sub(a: U8Vec2, b: U8Vec2) -> (r: U8Vec2)
    ensures
        r.x == wrap_u8(a.x - b.x),
        r.y == wrap_u8(a.y - b.y),
{
    a.wrapping_sub(b)
}

/// [`U8Vec2::wrapping_mul`]: the lane-wise product, wrapped into the range of
/// `u8`.
#[verifier::external_body]
pub(crate) fn wrapping_mul(a: U8Vec2, b: U8Vec2) -> (r: U8Vec2)
    ensures
        r.x == wrap_u8(a.x * b.x),
        r.y == wrap_u8(a.y * b.y),
{
    a.wrapping_mul(b)
}

/// [`U8Vec2::wrapping_div`]: the lane-wise quotient rounded towards zero,
/// wrapped into the range of `u8`. `u8::wrapping_div` panics on a zero divisor.
#[verifier::external_body]
pub(crate) fn wrapping_div(a: U8Vec2, b: U8Vec2) -> (r: U8Vec2)
    requires
        b.x != 0,
        b.y != 0,
    ensures
        r.x == wrap_u8(trunc_div(a.x as int, b.x as int)),
        r.y == wrap_u8(trunc_div(a.y as int, b.y as int)),
{
    a.wrapping_div(b)
}

/// [`U8Vec2::saturating_add`]: the lane-wise sum, saturated to the range of
/// `u8`.
#[verifier::external_body]
pub(crate) fn saturating_add(a: U8Vec2, b: U8Vec2) -> (r: U8Vec2)
    ensures
        r.x == sat_u8(a.x + b.x),
        r.y == sat_u8(a.y + b.y),
{
    a.saturating_add(b)
}

/// [`U8Vec2::saturating_sub`]: the lane-wise difference, saturated to the range
/// of `u8`.
#[verifier::external_body]
pub(crate) fn saturating_sub(a: U8Vec2, b: U8Vec2) -> (r: U8Vec2)
    ensures
        r.x == sat_u8(a.x - b.x),
        r.y == sat_u8(a.y - b.y),
{
    a.saturating_sub(b)
}

/// [`U8Vec2::saturating_mul`]: the lane-wise product, saturated to the range of
/// `u8`.
#[verifier::external_body]
pub(crate) fn saturating_mul(a: U8Vec2, b: U8Vec2) -> (r: U8Vec2)
    ensures
        r.x == sat_u8(a.x * b.x),
        r.y == sat_u8(a.y * b.y),
{
    a.saturating_mul(b)
}

/// [`U8Vec2::saturating_div`]: the lane-wise quotient rounded towards zero,
/// saturated to the range of `u8`. `u8::saturating_div` panics on a zero
/// divisor.
#[verifier::external_body]
pub(crate) fn saturating_div(a: U8Vec2, b: U8Vec2) -> (r: U8Vec2)
    requires
        b.x != 0,
        b.y != 0,
    ensures
        r.x == sat_u8(trunc_div(a.x as int, b.x as int)),
        r.y == sat_u8(trunc_div(a.y as int, b.y as int)),
{
    a.saturating_div(b)
}

/// [`U8Vec2::manhattan_distance`]: the distances between the lanes, added in
/// `u8`: the sum may not overflow.
#[verifier::external_body]
pub(crate) fn manhattan_distance(a: U8Vec2, b: U8Vec2) -> (r: u8)
    requires
        fits_u8(gap(a.x as int, b.x as int) + gap(a.y as int, b.y as int)),
    ensures
        r == gap(a.x as int, b.x as int) + gap(a.y as int, b.y as int),
{
    a.manhattan_distance(b)
}

/// [`U8Vec2::checked_manhattan_distance`]: the distances between the lanes
/// added in `u8`, and `None` exactly where the sum overflows.
#[verifier::external_body]
pub(crate) fn checked_manhattan_distance(a: U8Vec2, b: U8Vec2) -> (r: Option<u8>)
    ensures
        r.is_some() <==> fits_u8(gap(a.x as int, b.x as int) + gap(a.y as int, b.y as int)),
        r.is_some() ==> r.unwrap() == gap(a.x as int, b.x as int) + gap(a.y as int, b.y as int),
{
    a.checked_manhattan_distance(b)
}

/// [`U8Vec2::chebyshev_distance`]: the greatest distance between a lane of `a`
/// and that of `b`.
#[verifier::external_body]
pub(crate) fn chebyshev_distance(a: U8Vec2, b: U8Vec2) -> (r: u8)
    ensures
        r == max2(gap(a.x as int, b.x as int), gap(a.y as int, b.y as int)),
{
    a.chebyshev_distance(b)
}

} // verus!
