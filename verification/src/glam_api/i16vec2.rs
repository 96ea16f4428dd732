//! What this crate takes from `glam::I16Vec2`.
//!
//! Each function here calls one function of `glam` and states, unproved, what
//! that function does, as its source shows it.

use crate::math::{
    first_max_at, first_min_at, fits_i16, fits_u16, gap, magnitude, max2, min2, sat_i16, sign,
    trunc_div, wrap_i16,
};
use glam::{BVec2, I16Vec2, I16Vec3};
use vstd::prelude::*;

verus! {

/// `glam::I16Vec2`, whose lanes are public fields.
#[verifier::external_type_specification]
pub struct ExI16Vec2(I16Vec2);

/// [`I16Vec2::new`]: the vector with the given lanes.
#[verifier::external_body]
pub(crate) fn new(x: i16, y: i16) -> (r: I16Vec2)
    ensures
        r.x == x,
        r.y == y,
{
    I16Vec2::new(x, y)
}

/// [`I16Vec2::splat`]: every lane is `v`.
#[verifier::external_body]
pub(crate) fn splat(v: i16) -> (r: I16Vec2)
    ensures
        r.x == v,
        r.y == v,
{
    I16Vec2::splat(v)
}

/// [`I16Vec2::map`]: calls `f` on each lane, so `f` must accept each lane, and
/// each lane of the result is what `f` gave for that lane.
#[verifier::external_body]
pub(crate) fn map<F: Fn(i16) -> i16>(v: I16Vec2, f: F) -> (r: I16Vec2)
    requires
        call_requires(f, (v.x,)),
        call_requires(f, (v.y,)),
    ensures
        call_ensures(f, (v.x,), r.x),
        call_ensures(f, (v.y,), r.y),
{
    v.map(f)
}

/// [`I16Vec2::from_array`]: the lanes are the elements of `a` in order.
#[verifier::external_body]
pub(crate) fn from_array(a: [i16; 2]) -> (r: I16Vec2)
    ensures
        r.x == a@[0],
        r.y == a@[1],
{
    I16Vec2::from_array(a)
}

/// [`I16Vec2::to_array`]: the array of the lanes in order.
#[verifier::external_body]
pub(crate) fn to_array(v: &I16Vec2) -> (r: [i16; 2])
    ensures
        r@ == seq![v.x, v.y],
{
    v.to_array()
}

/// [`I16Vec2::from_slice`]: the lanes are the first 2 elements of `slice`; it
/// panics on a shorter slice.
#[verifier::external_body]
pub(crate) fn from_slice(slice: &[i16]) -> (r: I16Vec2)
    requires
        slice@.len() >= 2,
    ensures
        r.x == slice@[0],
        r.y == slice@[1],
{
    I16Vec2::from_slice(slice)
}

/// [`I16Vec2::write_to_slice`]: copies the lanes over the first 2 elements of
/// `slice` and leaves the rest; it panics on a shorter slice.
#[verifier::external_body]
pub(crate) fn write_to_slice(v: I16Vec2, slice: &mut [i16])
    requires
        old(slice)@.len() >= 2,
    ensures
        final(slice)@ == old(slice)@.update(0, v.x).update(1, v.y),
{
    v.write_to_slice(slice)
}

/// Indexing a `I16Vec2` with a `usize`: the lane at `index`; it panics on an
/// index past the last lane.
#[verifier::external_body]
pub(crate) fn lane(v: &I16Vec2, index: usize) -> (r: i16)
    requires
        index < 2,
    ensures
        index == 0 ==> r == v.x,
        index == 1 ==> r == v.y,
{
    v[index]
}

/// [`I16Vec2::extend`]: the lanes of `v` followed by `z`.
#[verifier::external_body]
pub(crate) fn extend(v: I16Vec2, z: i16) -> (r: I16Vec3)
    ensures
        r.x == v.x,
        r.y == v.y,
        r.z == z,
{
    v.extend(z)
}

/// [`I16Vec2::with_x`]: `v` with the lane `x` replaced.
#[verifier::external_body]
pub(crate) fn with_x(v: I16Vec2, x: i16) -> (r: I16Vec2)
    ensures
        r.x == x,
        r.y == v.y,
{
    v.with_x(x)
}

/// [`I16Vec2::with_y`]: `v` with the lane `y` replaced.
#[verifier::external_body]
pub(crate) fn with_y(v: I16Vec2, y: i16) -> (r: I16Vec2)
    ensures
        r.x == v.x,
        r.y == y,
{
    v.with_y(y)
}

/// [`I16Vec2::dot`]: the lane products added from the left. It computes in
/// `i16`, so no product and no sum on the way may overflow.
#[verifier::external_body]
pub(crate) fn dot(a: I16Vec2, b: I16Vec2) -> (r: i16)
    requires
        fits_i16(a.x * b.x),
        fits_i16(a.y * b.y),
        fits_i16(a.x * b.x + a.y * b.y),
    ensures
        r == a.x * b.x + a.y * b.y,
{
    a.dot(b)
}

/// [`I16Vec2::dot_into_vec`]: the dot product in every lane, under the
/// conditions of `dot`.
#[verifier::external_body]
pub(crate) fn dot_into_vec(a: I16Vec2, b: I16Vec2) -> (r: I16Vec2)
    requires
        fits_i16(a.x * b.x),
        fits_i16(a.y * b.y),
        fits_i16(a.x * b.x + a.y * b.y),
    ensures
        r.x == a.x * b.x + a.y * b.y,
        r.y == a.x * b.x + a.y * b.y,
{
    a.dot_into_vec(b)
}

/// [`I16Vec2::min`]: the smaller of the two lanes, lane by lane.
#[verifier::external_body]
pub(crate) fn min(a: I16Vec2, b: I16Vec2) -> (r: I16Vec2)
    ensures
        r.x == min2(a.x as int, b.x as int),
        r.y == min2(a.y as int, b.y as int),
{
    a.min(b)
}

/// [`I16Vec2::max`]: the larger of the two lanes, lane by lane.
#[verifier::external_body]
pub(crate) fn max(a: I16Vec2, b: I16Vec2) -> (r: I16Vec2)
    ensures
        r.x == max2(a.x as int, b.x as int),
        r.y == max2(a.y as int, b.y as int),
{
    a.max(b)
}

/// [`I16Vec2::clamp`]: `v.max(min).min(max)`. The crate asks for `min <= max`
/// in every lane and may assert it.
#[verifier::external_body]
pub(crate) fn clamp(v: I16Vec2, min: I16Vec2, max: I16Vec2) -> (r: I16Vec2)
    requires
        min.x <= max.x,
        min.y <= max.y,
    ensures
        r.x == min2(max2(v.x as int, min.x as int), max.x as int),
        r.y == min2(max2(v.y as int, min.y as int), max.y as int),
{
    v.clamp(min, max)
}

/// [`I16Vec2::min_element`]: the least lane.
#[verifier::external_body]
pub(crate) fn min_element(v: I16Vec2) -> (r: i16)
    ensures
        r == min2(v.x as int, v.y as int),
{
    v.min_element()
}

/// [`I16Vec2::max_element`]: the greatest lane.
#[verifier::external_body]
pub(crate) fn max_element(v: I16Vec2) -> (r: i16)
    ensures
        r == max2(v.x as int, v.y as int),
{
    v.max_element()
}

/// [`I16Vec2::min_position`]: the index of the first lane that holds the least
/// value.
#[verifier::external_body]
pub(crate) fn min_position(v: I16Vec2) -> (r: usize)
    ensures
        first_min_at(seq![v.x as int, v.y as int], r as int),
{
    v.min_position()
}

/// [`I16Vec2::max_position`]: the index of the first lane that holds the
/// greatest value.
#[verifier::external_body]
pub(crate) fn max_position(v: I16Vec2) -> (r: usize)
    ensures
        first_max_at(seq![v.x as int, v.y as int], r as int),
{
    v.max_position()
}

/// [`I16Vec2::element_sum`]: the lanes added from the left, in `i16`: no sum on
/// the way may overflow.
#[verifier::external_body]
pub(crate) fn element_sum(v: I16Vec2) -> (r: i16)
    requires
        fits_i16(v.x + v.y),
    ensures
        r == v.x + v.y,
{
    v.element_sum()
}

/// [`I16Vec2::element_product`]: the lanes multiplied from the left, in `i16`:
/// no product on the way may overflow.
#[verifier::external_body]
pub(crate) fn element_product(v: I16Vec2) -> (r: i16)
    requires
        fits_i16(v.x * v.y),
    ensures
        r == v.x * v.y,
{
    v.element_product()
}

/// [`I16Vec2::select`]: each lane comes from `if_true` where the lane of `mask`
/// is true and from `if_false` where it is false.
#[verifier::external_body]
pub(crate) fn select(mask: BVec2, if_true: I16Vec2, if_false: I16Vec2) -> (r: I16Vec2)
    ensures
        r.x == (if mask.x {
            if_true.x
        } else {
            if_false.x
        }),
        r.y == (if mask.y {
            if_true.y
        } else {
            if_false.y
        }),
{
    I16Vec2::select(mask, if_true, if_false)
}

/// [`I16Vec2::cmpeq`]: a lane of the mask is true where the lane of `a` is
/// equal to that of `b`.
#[verifier::external_body]
pub(crate) fn cmpeq(a: I16Vec2, b: I16Vec2) -> (r: BVec2)
    ensures
        r.x == (a.x == b.x),
        r.y == (a.y == b.y),
{
    a.cmpeq(b)
}

/// [`I16Vec2::cmpne`]: a lane of the mask is true where the lane of `a` is
/// different from that of `b`.
#[verifier::external_body]
pub(crate) fn cmpne(a: I16Vec2, b: I16Vec2) -> (r: BVec2)
    ensures
        r.x == (a.x != b.x),
        r.y == (a.y != b.y),
{
    a.cmpne(b)
}

/// [`I16Vec2::cmpge`]: a lane of the mask is true where the lane of `a` is at
/// least that of `b`.
#[verifier::external_body]
pub(crate) fn cmpge(a: I16Vec2, b: I16Vec2) -> (r: BVec2)
    ensures
        r.x == (a.x >= b.x),
        r.y == (a.y >= b.y),
{
    a.cmpge(b)
}

/// [`I16Vec2::cmpgt`]: a lane of the mask is true where the lane of `a` is
/// greater than that of `b`.
#[verifier::external_body]
pub(crate) fn cmpgt(a: I16Vec2, b: I16Vec2) -> (r: BVec2)
    ensures
        r.x == (a.x > b.x),
        r.y == (a.y > b.y),
{
    a.cmpgt(b)
}

/// [`I16Vec2::cmple`]: a lane of the mask is true where the lane of `a` is at
/// most that of `b`.
#[verifier::external_body]
pub(crate) fn cmple(a: I16Vec2, b: I16Vec2) -> (r: BVec2)
    ensures
        r.x == (a.x <= b.x),
        r.y == (a.y <= b.y),
{
    a.cmple(b)
}

/// [`I16Vec2::cmplt`]: a lane of the mask is true where the lane of `a` is less
/// than that of `b`.
#[verifier::external_body]
pub(crate) fn cmplt(a: I16Vec2, b: I16Vec2) -> (r: BVec2)
    ensures
        r.x == (a.x < b.x),
        r.y == (a.y < b.y),
{
    a.cmplt(b)
}

/// [`I16Vec2::length_squared`]: the dot product of `v` with itself, under the
/// conditions of `dot`.
#[verifier::external_body]
pub(crate) fn length_squared(v: I16Vec2) -> (r: i16)
    requires
        fits_i16(v.x * v.x),
        fits_i16(v.y * v.y),
        fits_i16(v.x * v.x + v.y * v.y),
    ensures
        r == v.x * v.x + v.y * v.y,
{
    v.length_squared()
}

/// [`I16Vec2::abs`]: the absolute value of each lane. `i16::abs` overflows on
/// `i16::MIN`.
#[verifier::external_body]
pub(crate) fn abs(v: I16Vec2) -> (r: I16Vec2)
    requires
        v.x != i16::MIN,
        v.y != i16::MIN,
    ensures
        r.x == magnitude(v.x as int),
        r.y == magnitude(v.y as int),
{
    v.abs()
}

/// [`I16Vec2::signum`]: `-1`, `0` or `1` by the sign of each lane.
#[verifier::external_body]
pub(crate) fn signum(v: I16Vec2) -> (r: I16Vec2)
    ensures
        r.x == sign(v.x as int),
        r.y == sign(v.y as int),
{
    v.signum()
}

/// [`I16Vec2::is_negative_bitmask`]: bit `i` is set where lane `i` is negative;
/// the bits are distinct, so their union is their sum.
#[verifier::external_body]
pub(crate) fn is_negative_bitmask(v: I16Vec2) -> (r: u32)
    ensures
        r == (if v.x < 0 {
            1int
        } else {
            0int
        }) + (if v.y < 0 {
            2int
        } else {
            0int
        }),
{
    v.is_negative_bitmask()
}

/// [`I16Vec2::distance_squared`]: `(a - b).length_squared()`, in `i16`: no
/// difference, product or sum on the way may overflow.
#[verifier::external_body]
pub(crate) fn distance_squared(a: I16Vec2, b: I16Vec2) -> (r: i16)
    requires
        fits_i16(a.x - b.x),
        fits_i16(a.y - b.y),
        fits_i16((a.x - b.x) * (a.x - b.x)),
        fits_i16((a.y - b.y) * (a.y - b.y)),
        fits_i16((a.x - b.x) * (a.x - b.x) + (a.y - b.y) * (a.y - b.y)),
    ensures
        r == (a.x - b.x) * (a.x - b.x) + (a.y - b.y) * (a.y - b.y),
{
    a.distance_squared(b)
}

/// [`I16Vec2::div_euclid`]: the quotient of Euclidean division, lane by lane.
/// `i16::div_euclid` panics on a zero divisor and on `i16::MIN / -1`.
#[verifier::external_body]
pub(crate) fn div_euclid(a: I16Vec2, b: I16Vec2) -> (r: I16Vec2)
    requires
        b.x != 0,
        b.y != 0,
        !(a.x == i16::MIN && b.x == -1),
        !(a.y == i16::MIN && b.y == -1),
    ensures
        r.x == (a.x as int) / (b.x as int),
        r.y == (a.y as int) / (b.y as int),
{
    a.div_euclid(b)
}

/// [`I16Vec2::rem_euclid`]: the remainder of Euclidean division, never
/// negative, lane by lane. `i16::rem_euclid` panics on a zero divisor and on
/// `i16::MIN % -1`.
#[verifier::external_body]
pub(crate) fn rem_euclid(a: I16Vec2, b: I16Vec2) -> (r: I16Vec2)
    requires
        b.x != 0,
        b.y != 0,
        !(a.x == i16::MIN && b.x == -1),
        !(a.y == i16::MIN && b.y == -1),
    ensures
        r.x == (a.x as int) % (b.x as int),
        r.y == (a.y as int) % (b.y as int),
{
    a.rem_euclid(b)
}

/// [`I16Vec2::perp`]: `(-y, x)`. Negating `i16::MIN` overflows.
#[verifier::external_body]
pub(crate) fn perp(v: I16Vec2) -> (r: I16Vec2)
    requires
        v.y != i16::MIN,
    ensures
        r.x == -v.y,
        r.y == v.x,
{
    v.perp()
}

/// [`I16Vec2::perp_dot`]: `a.x * b.y - a.y * b.x`, in `i16`: neither product
/// nor the difference may overflow.
#[verifier::external_body]
pub(crate) fn perp_dot(a: I16Vec2, b: I16Vec2) -> (r: i16)
    requires
        fits_i16(a.x * b.y),
        fits_i16(a.y * b.x),
        fits_i16(a.x * b.y - a.y * b.x),
    ensures
        r == a.x * b.y - a.y * b.x,
{
    a.perp_dot(b)
}

/// [`I16Vec2::rotate`]: `(a.x * b.x - a.y * b.y, a.y * b.x + a.x * b.y)`, in
/// `i16`: no product, difference or sum may overflow.
#[verifier::external_body]
pub(crate) fn rotate(a: I16Vec2, b: I16Vec2) -> (r: I16Vec2)
    requires
        fits_i16(a.x * b.x),
        fits_i16(a.y * b.y),
        fits_i16(a.y * b.x),
        fits_i16(a.x * b.y),
        fits_i16(a.x * b.x - a.y * b.y),
        fits_i16(a.y * b.x + a.x * b.y),
    ensures
        r.x == a.x * b.x - a.y * b.y,
        r.y == a.y * b.x + a.x * b.y,
{
    a.rotate(b)
}

/// [`I16Vec2::checked_add`]: the lane-wise sum, and `None` exactly where some
/// lane leaves the range of `i16`.
#[verifier::external_body]
pub(crate) fn checked_add(a: I16Vec2, b: I16Vec2) -> (r: Option<I16Vec2>)
    ensures
        r.is_some() <==> (fits_i16(a.x + b.x)
            && fits_i16(a.y + b.y)),
        r.is_some() ==> r.unwrap().x == a.x + b.x,
        r.is_some() ==> r.unwrap().y == a.y + b.y,
{
    a.checked_add(b)
}

/// [`I16Vec2::checked_sub`]: the lane-wise difference, and `None` exactly where
/// some lane leaves the range of `i16`.
#[verifier::external_body]
pub(crate) fn checked_sub(a: I16Vec2, b: I16Vec2) -> (r: Option<I16Vec2>)
    ensures
        r.is_some() <==> (fits_i16(a.x - b.x)
            && fits_i16(a.y - b.y)),
        r.is_some() ==> r.unwrap().x == a.x - b.x,
        r.is_some() ==> r.unwrap().y == a.y - b.y,
{
    a.checked_sub(b)
}

/// [`I16Vec2::checked_mul`]: the lane-wise product, and `None` exactly where
/// some lane leaves the range of `i16`.
#[verifier::external_body]
pub(crate) fn checked_mul(a: I16Vec2, b: I16Vec2) -> (r: Option<I16Vec2>)
    ensures
        r.is_some() <==> (fits_i16(a.x * b.x)
            && fits_i16(a.y * b.y)),
        r.is_some() ==> r.unwrap().x == a.x * b.x,
        r.is_some() ==> r.unwrap().y == a.y * b.y,
{
    a.checked_mul(b)
}

/// [`I16Vec2::checked_div`]: the lane-wise quotient rounded towards zero, and
/// `None` exactly where some lane leaves the range of `i16`. `None` also where
/// a lane of `b` is zero.
#[verifier::external_body]
pub(crate) fn checked_div(a: I16Vec2, b: I16Vec2) -> (r: Option<I16Vec2>)
    ensures
        r.is_some() <==> (b.x != 0
            && b.y != 0
            && fits_i16(trunc_div(a.x as int, b.x as int))
            && fits_i16(trunc_div(a.y as int, b.y as int))),
        r.is_some() ==> r.unwrap().x == trunc_div(a.x as int, b.x as int),
        r.is_some() ==> r.unwrap().y == trunc_div(a.y as int, b.y as int),
{
    a.checked_div(b)
}

/// [`I16Vec2::wrapping_add`]: the lane-wise sum, wrapped into the range of
/// `i16`.
#[verifier::external_body]
pub(crate) fn wrapping_add(a: I16Vec2, b: I16Vec2) -> (r: I16Vec2)
    ensures
        r.x == wrap_i16(a.x + b.x),
        r.y == wrap_i16(a.y + b.y),
{
    a.wrapping_add(b)
}

/// [`I16Vec2::wrapping_sub`]: the lane-wise difference, wrapped into the range
/// of `i16`.
#[verifier::external_body]
pub(crate) fn wrapping_sub(a: I16Vec2, b: I16Vec2) -> (r: I16Vec2)
    ensures
        r.x == wrap_i16(a.x - b.x),
        r.y == wrap_i16(a.y - b.y),
{
    a.wrapping_sub(b)
}

/// [`I16Vec2::wrapping_mul`]: the lane-wise product, wrapped into the range of
/// `i16`.
#[verifier::external_body]
pub(crate) fn wrapping_mul(a: I16Vec2, b: I16Vec2) -> (r: I16Vec2)
    ensures
        r.x == wrap_i16(a.x * b.x),
        r.y == wrap_i16(a.y * b.y),
{
    a.wrapping_mul(b)
}

/// [`I16Vec2::wrapping_div`]: the lane-wise quotient rounded towards zero,
/// wrapped into the range of `i16`. `i16::wrapping_div` panics on a zero
/// divisor.
#[verifier::external_body]
pub(crate) fn wrapping_div(a: I16Vec2, b: I16Vec2) -> (r: I16Vec2)
    requires
        b.x != 0,
        b.y != 0,
    ensures
        r.x == wrap_i16(trunc_div(a.x as int, b.x as int)),
        r.y == wrap_i16(trunc_div(a.y as int, b.y as int)),
{
    a.wrapping_div(b)
}

/// [`I16Vec2::saturating_add`]: the lane-wise sum, saturated to the range of
/// `i16`.
#[verifier::external_body]
pub(crate) fn saturating_add(a: I16Vec2, b: I16Vec2) -> (r: I16Vec2)
    ensures
        r.x == sat_i16(a.x + b.x),
        r.y == sat_i16(a.y + b.y),
{
    a.saturating_add(b)
}

/// [`I16Vec2::saturating_sub`]: the lane-wise difference, saturated to the
/// range of `i16`.
#[verifier::external_body]
pub(crate) fn saturating_sub(a: I16Vec2, b: I16Vec2) -> (r: I16Vec2)
    ensures
        r.x == sat_i16(a.x - b.x),
        r.y == sat_i16(a.y - b.y),
{
    a.saturating_sub(b)
}

/// [`I16Vec2::saturating_mul`]: the lane-wise product, saturated to the range
/// of `i16`.
#[verifier::external_body]
pub(crate) fn saturating_mul(a: I16Vec2, b: I16Vec2) -> (r: I16Vec2)
    ensures
        r.x == sat_i16(a.x * b.x),
        r.y == sat_i16(a.y * b.y),
{
    a.saturating_mul(b)
}

/// [`I16Vec2::saturating_div`]: the lane-wise quotient rounded towards zero,
/// saturated to the range of `i16`. `i16::saturating_div` panics on a zero
/// divisor.
#[verifier::external_body]
pub(crate) fn saturating_div(a: I16Vec2, b: I16Vec2) -> (r: I16Vec2)
    requires
        b.x != 0,
        b.y != 0,
    ensures
        r.x == sat_i16(trunc_div(a.x as int, b.x as int)),
        r.y == sat_i16(trunc_div(a.y as int, b.y as int)),
{
    a.saturating_div(b)
}

/// [`I16Vec2::manhattan_distance`]: the distances between the lanes, added in
/// `u16`: the sum may not overflow.
#[verifier::external_body]
pub(crate) fn manhattan_distance(a: I16Vec2, b: I16Vec2) -> (r: u16)
    requires
        fits_u16(gap(a.x as int, b.x as int) + gap(a.y as int, b.y as int)),
    ensures
        r == gap(a.x as int, b.x as int) + gap(a.y as int, b.y as int),
{
    a.manhattan_distance(b)
}

/// [`I16Vec2::checked_manhattan_distance`]: the distances between the lanes
/// added in `u16`, and `None` exactly where the sum overflows.
#[verifier::external_body]
pub(crate) fn checked_manhattan_distance(a: I16Vec2, b: I16Vec2) -> (r: Option<u16>)
    ensures
        r.is_some() <==> fits_u16(gap(a.x as int, b.x as int) + gap(a.y as int, b.y as int)),
        r.is_some() ==> r.unwrap() == gap(a.x as int, b.x as int) + gap(a.y as int, b.y as int),
{
    a.checked_manhattan_distance(b)
}

/// [`I16Vec2::chebyshev_distance`]: the greatest distance between a lane of `a`
/// and that of `b`.
#[verifier::external_body]
pub(crate) fn chebyshev_distance(a: I16Vec2, b: I16Vec2) -> (r: u16)
    ensures
        r == max2(gap(a.x as int, b.x as int), gap(a.y as int, b.y as int)),
{
    a.chebyshev_distance(b)
}

} // verus!
