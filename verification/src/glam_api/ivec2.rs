//! What this crate takes from `glam::IVec2`.
//!
//! Each function here calls one function of `glam` and states, unproved, what
//! that function does, as its source shows it.

use crate::math::{
    first_max_at, first_min_at, fits_i32, fits_u32, gap, magnitude, max2, min2, sat_i32, sign,
    trunc_div, wrap_i32,
};
use glam::{BVec2, IVec2, IVec3};
use vstd::prelude::*;

verus! {

/// `glam::IVec2`, whose lanes are public fields.
#[verifier::external_type_specification]
pub struct ExIVec2(IVec2);

/// [`IVec2::new`]: the vector with the given lanes.
#[verifier::external_body]
pub(crate) fn new(x: i32, y: i32) -> (r: IVec2)
    ensures
        r.x == x,
        r.y == y,
{
    IVec2::new(x, y)
}

/// [`IVec2::splat`]: every lane is `v`.
#[verifier::external_body]
pub(crate) fn splat(v: i32) -> (r: IVec2)
    ensures
        r.x == v,
        r.y == v,
{
    IVec2::splat(v)
}

/// [`IVec2::map`]: calls `f` on each lane, so `f` must accept each lane, and
/// each lane of the result is what `f` gave for that lane.
#[verifier::external_body]
pub(crate) fn map<F: Fn(i32) -> i32>(v: IVec2, f: F) -> (r: IVec2)
    requires
        call_requires(f, (v.x,)),
        call_requires(f, (v.y,)),
    ensures
        call_ensures(f, (v.x,), r.x),
        call_ensures(f, (v.y,), r.y),
{
    v.map(f)
}

/// [`IVec2::from_array`]: the lanes are the elements of `a` in order.
#[verifier::external_body]
pub(crate) fn from_array(a: [i32; 2]) -> (r: IVec2)
    ensures
        r.x == a@[0],
        r.y == a@[1],
{
    IVec2::from_array(a)
}

/// [`IVec2::to_array`]: the array of the lanes in order.
#[verifier::external_body]
pub(crate) fn to_array(v: &IVec2) -> (r: [i32; 2])
    ensures
        r@ == seq![v.x, v.y],
{
    v.to_array()
}

/// [`IVec2::from_slice`]: the lanes are the first 2 elements of `slice`; it
/// panics on a shorter slice.
#[verifier::external_body]
pub(crate) fn from_slice(slice: &[i32]) -> (r: IVec2)
    requires
        slice@.len() >= 2,
    ensures
        r.x == slice@[0],
        r.y == slice@[1],
{
    IVec2::from_slice(slice)
}

/// [`IVec2::write_to_slice`]: copies the lanes over the first 2 elements of
/// `slice` and leaves the rest; it panics on a shorter slice.
#[verifier::external_body]
pub(crate) fn write_to_slice(v: IVec2, slice: &mut [i32])
    requires
        old(slice)@.len() >= 2,
    ensures
        final(slice)@ == old(slice)@.update(0, v.x).update(1, v.y),
{
    v.write_to_slice(slice)
}

/// Indexing a `IVec2` with a `usize`: the lane at `index`; it panics on an
/// index past the last lane.
#[verifier::external_body]
pub(crate) fn lane(v: &IVec2, index: usize) -> (r: i32)
    requires
        index < 2,
    ensures
        index == 0 ==> r == v.x,
        index == 1 ==> r == v.y,
{
    v[index]
}

/// [`IVec2::extend`]: the lanes of `v` followed by `z`.
#[verifier::external_body]
pub(crate) fn extend(v: IVec2, z: i32) -> (r: IVec3)
    ensures
        r.x == v.x,
        r.y == v.y,
        r.z == z,
{
    v.extend(z)
}

/// [`IVec2::with_x`]: `v` with the lane `x` replaced.
#[verifier::external_body]
pub(crate) fn with_x(v: IVec2, x: i32) -> (r: IVec2)
    ensures
        r.x == x,
        r.y == v.y,
{
    v.with_x(x)
}

/// [`IVec2::with_y`]: `v` with the lane `y` replaced.
#[verifier::external_body]
pub(crate) fn with_y(v: IVec2, y: i32) -> (r: IVec2)
    ensures
        r.x == v.x,
        r.y == y,
{
    v.with_y(y)
}

/// [`IVec2::dot`]: the lane products added from the left. It computes in `i32`,
/// so no product and no sum on the way may overflow.
#[verifier::external_body]
pub(crate) fn dot(a: IVec2, b: IVec2) -> (r: i32)
    requires
        fits_i32(a.x * b.x),
        fits_i32(a.y * b.y),
        fits_i32(a.x * b.x + a.y * b.y),
    ensures
        r == a.x * b.x + a.y * b.y,
{
    a.dot(b)
}

/// [`IVec2::dot_into_vec`]: the dot product in every lane, under the conditions
/// of `dot`.
#[verifier::external_body]
pub(crate) fn dot_into_vec(a: IVec2, b: IVec2) -> (r: IVec2)
    requires
        fits_i32(a.x * b.x),
        fits_i32(a.y * b.y),
        fits_i32(a.x * b.x + a.y * b.y),
    ensures
        r.x == a.x * b.x + a.y * b.y,
        r.y == a.x * b.x + a.y * b.y,
{
    a.dot_into_vec(b)
}

/// [`IVec2::min`]: the smaller of the two lanes, lane by lane.
#[verifier::external_body]
pub(crate) fn min(a: IVec2, b: IVec2) -> (r: IVec2)
    ensures
        r.x == min2(a.x as int, b.x as int),
        r.y == min2(a.y as int, b.y as int),
{
    a.min(b)
}

/// [`IVec2::max`]: the larger of the two lanes, lane by lane.
#[verifier::external_body]
pub(crate) fn max(a: IVec2, b: IVec2) -> (r: IVec2)
    ensures
        r.x == max2(a.x as int, b.x as int),
        r.y == max2(a.y as int, b.y as int),
{
    a.max(b)
}

/// [`IVec2::clamp`]: `v.max(min).min(max)`. The crate asks for `min <= max` in
/// every lane and may assert it.
#[verifier::external_body]
pub(crate) fn clamp(v: IVec2, min: IVec2, max: IVec2) -> (r: IVec2)
    requires
        min.x <= max.x,
        min.y <= max.y,
    ensures
        r.x == min2(max2(v.x as int, min.x as int), max.x as int),
        r.y == min2(max2(v.y as int, min.y as int), max.y as int),
{
    v.clamp(min, max)
}

/// [`IVec2::min_element`]: the least lane.
#[verifier::external_body]
pub(crate) fn min_element(v: IVec2) -> (r: i32)
    ensures
        r == min2(v.x as int, v.y as int),
{
    v.min_element()
}

/// [`IVec2::max_element`]: the greatest lane.
#[verifier::external_body]
pub(crate) fn max_element(v: IVec2) -> (r: i32)
    ensures
        r == max2(v.x as int, v.y as int),
{
    v.max_element()
}

/// [`IVec2::min_position`]: the index of the first lane that holds the least
/// value.
#[verifier::external_body]
pub(crate) fn min_position(v: IVec2) -> (r: usize)
    ensures
        first_min_at(seq![v.x as int, v.y as int], r as int),
{
    v.min_position()
}

/// [`IVec2::max_position`]: the index of the first lane that holds the greatest
/// value.
#[verifier::external_body]
pub(crate) fn max_position(v: IVec2) -> (r: usize)
    ensures
        first_max_at(seq![v.x as int, v.y as int], r as int),
{
    v.max_position()
}

/// [`IVec2::element_sum`]: the lanes added from the left, in `i32`: no sum on
/// the way may overflow.
#[verifier::external_body]
pub(crate) fn element_sum(v: IVec2) -> (r: i32)
    requires
        fits_i32(v.x + v.y),
    ensures
        r == v.x + v.y,
{
    v.element_sum()
}

/// [`IVec2::element_product`]: the lanes multiplied from the left, in `i32`: no
/// product on the way may overflow.
#[verifier::external_body]
pub(crate) fn element_product(v: IVec2) -> (r: i32)
    requires
        fits_i32(v.x * v.y),
    ensures
        r == v.x * v.y,
{
    v.element_product()
}

/// [`IVec2::select`]: each lane comes from `if_true` where the lane of `mask`
/// is true and from `if_false` where it is false.
#[verifier::external_body]
pub(crate) fn select(mask: BVec2, if_true: IVec2, if_false: IVec2) -> (r: IVec2)
    ensures
        r.x == (if mask.x {
            if_true.x
        } else {
            if_false.x
        }),
        r.y == (if mask.y {
            if_true.y
        } else {
            if_false.y
        }),
{
    IVec2::select(mask, if_true, if_false)
}

/// [`IVec2::cmpeq`]: a lane of the mask is true where the lane of `a` is equal
/// to that of `b`.
#[verifier::external_body]
pub(crate) fn cmpeq(a: IVec2, b: IVec2) -> (r: BVec2)
    ensures
        r.x == (a.x == b.x),
        r.y == (a.y == b.y),
{
    a.cmpeq(b)
}

/// [`IVec2::cmpne`]: a lane of the mask is true where the lane of `a` is
/// different from that of `b`.
#[verifier::external_body]
pub(crate) fn cmpne(a: IVec2, b: IVec2) -> (r: BVec2)
    ensures
        r.x == (a.x != b.x),
        r.y == (a.y != b.y),
{
    a.cmpne(b)
}

/// [`IVec2::cmpge`]: a lane of the mask is true where the lane of `a` is at
/// least that of `b`.
#[verifier::external_body]
pub(crate) fn cmpge(a: IVec2, b: IVec2) -> (r: BVec2)
    ensures
        r.x == (a.x >= b.x),
        r.y == (a.y >= b.y),
{
    a.cmpge(b)
}

/// [`IVec2::cmpgt`]: a lane of the mask is true where the lane of `a` is
/// greater than that of `b`.
#[verifier::external_body]
pub(crate) fn cmpgt(a: IVec2, b: IVec2) -> (r: BVec2)
    ensures
        r.x == (a.x > b.x),
        r.y == (a.y > b.y),
{
    a.cmpgt(b)
}

/// [`IVec2::cmple`]: a lane of the mask is true where the lane of `a` is at
/// most that of `b`.
#[verifier::external_body]
pub(crate) fn cmple(a: IVec2, b: IVec2) -> (r: BVec2)
    ensures
        r.x == (a.x <= b.x),
        r.y == (a.y <= b.y),
{
    a.cmple(b)
}

/// [`IVec2::cmplt`]: a lane of the mask is true where the lane of `a` is less
/// than that of `b`.
#[verifier::external_body]
pub(crate) fn cmplt(a: IVec2, b: IVec2) -> (r: BVec2)
    ensures
        r.x == (a.x < b.x),
        r.y == (a.y < b.y),
{
    a.cmplt(b)
}

/// [`IVec2::length_squared`]: the dot product of `v` with itself, under the
/// conditions of `dot`.
#[verifier::external_body]
pub(crate) fn length_squared(v: IVec2) -> (r: i32)
    requires
        fits_i32(v.x * v.x),
        fits_i32(v.y * v.y),
        fits_i32(v.x * v.x + v.y * v.y),
    ensures
        r == v.x * v.x + v.y * v.y,
{
    v.length_squared()
}

/// [`IVec2::abs`]: the absolute value of each lane. `i32::abs` overflows on
/// `i32::MIN`.
#[verifier::external_body]
pub(crate) fn abs(v: IVec2) -> (r: IVec2)
    requires
        v.x != i32::MIN,
        v.y != i32::MIN,
    ensures
        r.x == magnitude(v.x as int),
        r.y == magnitude(v.y as int),
{
    v.abs()
}

/// [`IVec2::signum`]: `-1`, `0` or `1` by the sign of each lane.
#[verifier::external_body]
pub(crate) fn signum(v: IVec2) -> (r: IVec2)
    ensures
        r.x == sign(v.x as int),
        r.y == sign(v.y as int),
{
    v.signum()
}

/// [`IVec2::is_negative_bitmask`]: bit `i` is set where lane `i` is negative;
/// the bits are distinct, so their union is their sum.
#[verifier::external_body]
pub(crate) fn is_negative_bitmask(v: IVec2) -> (r: u32)
    ensures
        r == (if v.x < 0 {
            1int
        } else {
            0int
        }) + (if v.y < 0 {
            2int
        } else {
            0int
        }),
{
    v.is_negative_bitmask()
}

/// [`IVec2::distance_squared`]: `(a - b).length_squared()`, in `i32`: no
/// difference, product or sum on the way may overflow.
#[verifier::external_body]
pub(crate) fn distance_squared(a: IVec2, b: IVec2) -> (r: i32)
    requires
        fits_i32(a.x - b.x),
        fits_i32(a.y - b.y),
        fits_i32((a.x - b.x) * (a.x - b.x)),
        fits_i32((a.y - b.y) * (a.y - b.y)),
        fits_i32((a.x - b.x) * (a.x - b.x) + (a.y - b.y) * (a.y - b.y)),
    ensures
        r == (a.x - b.x) * (a.x - b.x) + (a.y - b.y) * (a.y - b.y),
{
    a.distance_squared(b)
}

/// [`IVec2::div_euclid`]: the quotient of Euclidean division, lane by lane.
/// `i32::div_euclid` panics on a zero divisor and on `i32::MIN / -1`.
#[verifier::external_body]
pub(crate) fn div_euclid(a: IVec2, b: IVec2) -> (r: IVec2)
    requires
        b.x != 0,
        b.y != 0,
        !(a.x == i32::MIN && b.x == -1),
        !(a.y == i32::MIN && b.y == -1),
    ensures
        r.x == (a.x as int) / (b.x as int),
        r.y == (a.y as int) / (b.y as int),
{
    a.div_euclid(b)
}

/// [`IVec2::rem_euclid`]: the remainder of Euclidean division, never negative,
/// lane by lane. `i32::rem_euclid` panics on a zero divisor and on `i32::MIN %
/// -1`.
#[verifier::external_body]
pub(crate) fn rem_euclid(a: IVec2, b: IVec2) -> (r: IVec2)
    requires
        b.x != 0,
        b.y != 0,
        !(a.x == i32::MIN && b.x == -1),
        !(a.y == i32::MIN && b.y == -1),
    ensures
        r.x == (a.x as int) % (b.x as int),
        r.y == (a.y as int) % (b.y as int),
{
    a.rem_euclid(b)
}

/// [`IVec2::perp`]: `(-y, x)`. Negating `i32::MIN` overflows.
#[verifier::external_body]
pub(crate) fn perp(v: IVec2) -> (r: IVec2)
    requires
        v.y != i32::MIN,
    ensures
        r.x == -v.y,
        r.y == v.x,
{
    v.perp()
}

/// [`IVec2::perp_dot`]: `a.x * b.y - a.y * b.x`, in `i32`: neither product nor
/// the difference may overflow.
#[verifier::external_body]
pub(crate) fn perp_dot(a: IVec2, b: IVec2) -> (r: i32)
    requires
        fits_i32(a.x * b.y),
        fits_i32(a.y * b.x),
        fits_i32(a.x * b.y - a.y * b.x),
    ensures
        r == a.x * b.y - a.y * b.x,
{
    a.perp_dot(b)
}

/// [`IVec2::rotate`]: `(a.x * b.x - a.y * b.y, a.y * b.x + a.x * b.y)`, in
/// `i32`: no product, difference or sum may overflow.
#[verifier::external_body]
pub(crate) fn rotate(a: IVec2, b: IVec2) -> (r: IVec2)
    requires
        fits_i32(a.x * b.x),
        fits_i32(a.y * b.y),
        fits_i32(a.y * b.x),
        fits_i32(a.x * b.y),
        fits_i32(a.x * b.x - a.y * b.y),
        fits_i32(a.y * b.x + a.x * b.y),
    ensures
        r.x == a.x * b.x - a.y * b.y,
        r.y == a.y * b.x + a.x * b.y,
{
    a.rotate(b)
}

/// [`IVec2::checked_add`]: the lane-wise sum, and `None` exactly where some
/// lane leaves the range of `i32`.
#[verifier::external_body]
pub(crate) fn checked_add(a: IVec2, b: IVec2) -> (r: Option<IVec2>)
    ensures
        r.is_some() <==> (fits_i32(a.x + b.x)
            && fits_i32(a.y + b.y)),
        r.is_some() ==> r.unwrap().x == a.x + b.x,
        r.is_some() ==> r.unwrap().y == a.y + b.y,
{
    a.checked_add(b)
}

/// [`IVec2::checked_sub`]: the lane-wise difference, and `None` exactly where
/// some lane leaves the range of `i32`.
#[verifier::external_body]
pub(crate) fn checked_sub(a: IVec2, b: IVec2) -> (r: Option<IVec2>)
    ensures
        r.is_some() <==> (fits_i32(a.x - b.x)
            && fits_i32(a.y - b.y)),
        r.is_some() ==> r.unwrap().x == a.x - b.x,
        r.is_some() ==> r.unwrap().y == a.y - b.y,
{
    a.checked_sub(b)
}

/// [`IVec2::checked_mul`]: the lane-wise product, and `None` exactly where some
/// lane leaves the range of `i32`.
#[verifier::external_body]
pub(crate) fn checked_mul(a: IVec2, b: IVec2) -> (r: Option<IVec2>)
    ensures
        r.is_some() <==> (fits_i32(a.x * b.x)
            && fits_i32(a.y * b.y)),
        r.is_some() ==> r.unwrap().x == a.x * b.x,
        r.is_some() ==> r.unwrap().y == a.y * b.y,
{
    a.checked_mul(b)
}

/// [`IVec2::checked_div`]: the lane-wise quotient rounded towards zero, and
/// `None` exactly where some lane leaves the range of `i32`. `None` also where
/// a lane of `b` is zero.
#[verifier::external_body]
pub(crate) fn checked_div(a: IVec2, b: IVec2) -> (r: Option<IVec2>)
    ensures
        r.is_some() <==> (b.x != 0
            && b.y != 0
            && fits_i32(trunc_div(a.x as int, b.x as int))
            && fits_i32(trunc_div(a.y as int, b.y as int))),
        r.is_some() ==> r.unwrap().x == trunc_div(a.x as int, b.x as int),
        r.is_some() ==> r.unwrap().y == trunc_div(a.y as int, b.y as int),
{
    a.checked_div(b)
}

/// [`IVec2::wrapping_add`]: the lane-wise sum, wrapped into the range of `i32`.
#[verifier::external_body]
pub(crate) fn wrapping_add(a: IVec2, b: IVec2) -> (r: IVec2)
    ensures
        r.x == wrap_i32(a.x + b.x),
        r.y == wrap_i32(a.y + b.y),
{
    a.wrapping_add(b)
}

/// [`IVec2::wrapping_sub`]: the lane-wise difference, wrapped into the range of
/// `i32`.
#[verifier::external_body]
pub(crate) fn wrapping_sub(a: IVec2, b: IVec2) -> (r: IVec2)
    ensures
        r.x == wrap_i32(a.x - b.x),
        r.y == wrap_i32(a.y - b.y),
{
    a.wrapping_sub(b)
}

/// [`IVec2::wrapping_mul`]: the lane-wise product, wrapped into the range of
/// `i32`.
#[verifier::external_body]
pub(crate) fn wrapping_mul(a: IVec2, b: IVec2) -> (r: IVec2)
    ensures
        r.x == wrap_i32(a.x * b.x),
        r.y == wrap_i32(a.y * b.y),
{
    a.wrapping_mul(b)
}

/// [`IVec2::wrapping_div`]: the lane-wise quotient rounded towards zero,
/// wrapped into the range of `i32`. `i32::wrapping_div` panics on a zero
/// divisor.
#[verifier::external_body]
pub(crate) fn wrapping_div(a: IVec2, b: IVec2) -> (r: IVec2)
    requires
        b.x != 0,
        b.y != 0,
    ensures
        r.x == wrap_i32(trunc_div(a.x as int, b.x as int)),
        r.y == wrap_i32(trunc_div(a.y as int, b.y as int)),
{
    a.wrapping_div(b)
}

/// [`IVec2::saturating_add`]: the lane-wise sum, saturated to the range of
/// `i32`.
#[verifier::external_body]
pub(crate) fn saturating_add(a: IVec2, b: IVec2) -> (r: IVec2)
    ensures
        r.x == sat_i32(a.x + b.x),
        r.y == sat_i32(a.y + b.y),
{
    a.saturating_add(b)
}

/// [`IVec2::saturating_sub`]: the lane-wise difference, saturated to the range
/// of `i32`.
#[verifier::external_body]
pub(crate) fn saturating_sub(a: IVec2, b: IVec2) -> (r: IVec2)
    ensures
        r.x == sat_i32(a.x - b.x),
        r.y == sat_i32(a.y - b.y),
{
    a.saturating_sub(b)
}

/// [`IVec2::saturating_mul`]: the lane-wise product, saturated to the range of
/// `i32`.
#[verifier::external_body]
pub(crate) fn saturating_mul(a: IVec2, b: IVec2) -> (r: IVec2)
    ensures
        r.x == sat_i32(a.x * b.x),
        r.y == sat_i32(a.y * b.y),
{
    a.saturating_mul(b)
}

/// [`IVec2::saturating_div`]: the lane-wise quotient rounded towards zero,
/// saturated to the range of `i32`. `i32::saturating_div` panics on a zero
/// divisor.
#[verifier::external_body]
pub(crate) fn saturating_div(a: IVec2, b: IVec2) -> (r: IVec2)
    requires
        b.x != 0,
        b.y != 0,
    ensures
        r.x == sat_i32(trunc_div(a.x as int, b.x as int)),
        r.y == sat_i32(trunc_div(a.y as int, b.y as int)),
{
    a.saturating_div(b)
}

/// [`IVec2::manhattan_distance`]: the distances between the lanes, added in
/// `u32`: the sum may not overflow.
#[verifier::external_body]
pub(crate) fn manhattan_distance(a: IVec2, b: IVec2) -> (r: u32)
    requires
        fits_u32(gap(a.x as int, b.x as int) + gap(a.y as int, b.y as int)),
    ensures
        r == gap(a.x as int, b.x as int) + gap(a.y as int, b.y as int),
{
    a.manhattan_distance(b)
}

/// [`IVec2::checked_manhattan_distance`]: the distances between the lanes added
/// in `u32`, and `None` exactly where the sum overflows.
#[verifier::external_body]
pub(crate) fn checked_manhattan_distance(a: IVec2, b: IVec2) -> (r: Option<u32>)
    ensures
        r.is_some() <==> fits_u32(gap(a.x as int, b.x as int) + gap(a.y as int, b.y as int)),
        r.is_some() ==> r.unwrap() == gap(a.x as int, b.x as int) + gap(a.y as int, b.y as int),
{
    a.checked_manhattan_distance(b)
}

/// [`IVec2::chebyshev_distance`]: the greatest distance between a lane of `a`
/// and that of `b`.
#[verifier::external_body]
pub(crate) fn chebyshev_distance(a: IVec2, b: IVec2) -> (r: u32)
    ensures
        r == max2(gap(a.x as int, b.x as int), gap(a.y as int, b.y as int)),
{
    a.chebyshev_distance(b)
}

} // verus!
