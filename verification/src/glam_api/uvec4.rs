//! What this crate takes from `glam::UVec4`.
//!
//! Each function here calls one function of `glam` and states, unproved, what
//! that function does, as its source shows it.

use crate::math::{
    first_max_at, first_min_at, fits_u32, gap, max2, min2, sat_u32, trunc_div, wrap_u32,
};
use glam::{BVec4, UVec3, UVec4};
use vstd::prelude::*;

verus! {

/// `glam::UVec4`, whose lanes are public fields.
#[verifier::external_type_specification]
pub struct ExUVec4(UVec4);

/// [`UVec4::new`]: the vector with the given lanes.
#[verifier::external_body]
pub(crate) fn new(x: u32, y: u32, z: u32, w: u32) -> (r: UVec4)
    ensures
        r.x == x,
        r.y == y,
        r.z == z,
        r.w == w,
{
    UVec4::new(x, y, z, w)
}

/// [`UVec4::splat`]: every lane is `v`.
#[verifier::external_body]
pub(crate) fn splat(v: u32) -> (r: UVec4)
    ensures
        r.x == v,
        r.y == v,
        r.z == v,
        r.w == v,
{
    UVec4::splat(v)
}

/// [`UVec4::map`]: calls `f` on each lane, so `f` must accept each lane, and
/// each lane of the result is what `f` gave for that lane.
#[verifier::external_body]
pub(crate) fn map<F: Fn(u32) -> u32>(v: UVec4, f: F) -> (r: UVec4)
    requires
        call_requires(f, (v.x,)),
        call_requires(f, (v.y,)),
        call_requires(f, (v.z,)),
        call_requires(f, (v.w,)),
    ensures
        call_ensures(f, (v.x,), r.x),
        call_ensures(f, (v.y,), r.y),
        call_ensures(f, (v.z,), r.z),
        call_ensures(f, (v.w,), r.w),
{
    v.map(f)
}

/// [`UVec4::from_array`]: the lanes are the elements of `a` in order.
#[verifier::external_body]
pub(crate) fn from_array(a: [u32; 4]) -> (r: UVec4)
    ensures
        r.x == a@[0],
        r.y == a@[1],
        r.z == a@[2],
        r.w == a@[3],
{
    UVec4::from_array(a)
}

/// [`UVec4::to_array`]: the array of the lanes in order.
#[verifier::external_body]
pub(crate) fn to_array(v: &UVec4) -> (r: [u32; 4])
    ensures
        r@ == seq![v.x, v.y, v.z, v.w],
{
    v.to_array()
}

/// [`UVec4::from_slice`]: the lanes are the first 4 elements of `slice`; it
/// panics on a shorter slice.
#[verifier::external_body]
pub(crate) fn from_slice(slice: &[u32]) -> (r: UVec4)
    requires
        slice@.len() >= 4,
    ensures
        r.x == slice@[0],
        r.y == slice@[1],
        r.z == slice@[2],
        r.w == slice@[3],
{
    UVec4::from_slice(slice)
}

/// [`UVec4::write_to_slice`]: copies the lanes over the first 4 elements of
/// `slice` and leaves the rest; it panics on a shorter slice.
#[verifier::external_body]
pub(crate) fn write_to_slice(v: UVec4, slice: &mut [u32])
    requires
        old(slice)@.len() >= 4,
    ensures
        final(slice)@ == old(slice)@.update(0, v.x).update(1, v.y).update(2, v.z).update(3, v.w),
{
    v.write_to_slice(slice)
}

/// Indexing a `UVec4` with a `usize`: the lane at `index`; it panics on an
/// index past the last lane.
#[verifier::external_body]
pub(crate) fn lane(v: &UVec4, index: usize) -> (r: u32)
    requires
        index < 4,
    ensures
        index == 0 ==> r == v.x,
        index == 1 ==> r == v.y,
        index == 2 ==> r == v.z,
        index == 3 ==> r == v.w,
{
    v[index]
}

/// [`UVec4::truncate`]: the lanes of `v` without the last.
#[verifier::external_body]
pub(crate) fn truncate(v: UVec4) -> (r: UVec3)
    ensures
        r.x == v.x,
        r.y == v.y,
        r.z == v.z,
{
    v.truncate()
}

/// [`UVec4::with_x`]: `v` with the lane `x` replaced.
#[verifier::external_body]
pub(crate) fn with_x(v: UVec4, x: u32) -> (r: UVec4)
    ensures
        r.x == x,
        r.y == v.y,
        r.z == v.z,
        r.w == v.w,
{
    v.with_x(x)
}

/// [`UVec4::with_y`]: `v` with the lane `y` replaced.
#[verifier::external_body]
pub(crate) fn with_y(v: UVec4, y: u32) -> (r: UVec4)
    ensures
        r.x == v.x,
        r.y == y,
        r.z == v.z,
        r.w == v.w,
{
    v.with_y(y)
}

/// [`UVec4::with_z`]: `v` with the lane `z` replaced.
#[verifier::external_body]
pub(crate) fn with_z(v: UVec4, z: u32) -> (r: UVec4)
    ensures
        r.x == v.x,
        r.y == v.y,
        r.z == z,
        r.w == v.w,
{
    v.with_z(z)
}

/// [`UVec4::with_w`]: `v` with the lane `w` replaced.
#[verifier::external_body]
pub(crate) fn with_w(v: UVec4, w: u32) -> (r: UVec4)
    ensures
        r.x == v.x,
        r.y == v.y,
        r.z == v.z,
        r.w == w,
{
    v.with_w(w)
}

/// [`UVec4::dot`]: the lane products added from the left. It computes in `u32`,
/// so no product and no sum on the way may overflow.
#[verifier::external_body]
pub(crate) fn dot(a: UVec4, b: UVec4) -> (r: u32)
    requires
        fits_u32(a.x * b.x),
        fits_u32(a.y * b.y),
        fits_u32(a.x * b.x + a.y * b.y),
        fits_u32(a.z * b.z),
        fits_u32(a.x * b.x + a.y * b.y + a.z * b.z),
        fits_u32(a.w * b.w),
        fits_u32(a.x * b.x + a.y * b.y + a.z * b.z + a.w * b.w),
    ensures
        r == a.x * b.x + a.y * b.y + a.z * b.z + a.w * b.w,
{
    a.dot(b)
}

/// [`UVec4::dot_into_vec`]: the dot product in every lane, under the conditions
/// of `dot`.
#[verifier::external_body]
pub(crate) fn dot_into_vec(a: UVec4, b: UVec4) -> (r: UVec4)
    requires
        fits_u32(a.x * b.x),
        fits_u32(a.y * b.y),
        fits_u32(a.x * b.x + a.y * b.y),
        fits_u32(a.z * b.z),
        fits_u32(a.x * b.x + a.y * b.y + a.z * b.z),
        fits_u32(a.w * b.w),
        fits_u32(a.x * b.x + a.y * b.y + a.z * b.z + a.w * b.w),
    ensures
        r.x == a.x * b.x + a.y * b.y + a.z * b.z + a.w * b.w,
        r.y == a.x * b.x + a.y * b.y + a.z * b.z + a.w * b.w,
        r.z == a.x * b.x + a.y * b.y + a.z * b.z + a.w * b.w,
        r.w == a.x * b.x + a.y * b.y + a.z * b.z + a.w * b.w,
{
    a.dot_into_vec(b)
}

/// [`UVec4::min`]: the smaller of the two lanes, lane by lane.
#[verifier::external_body]
pub(crate) fn min(a: UVec4, b: UVec4) -> (r: UVec4)
    ensures
        r.x == min2(a.x as int, b.x as int),
        r.y == min2(a.y as int, b.y as int),
        r.z == min2(a.z as int, b.z as int),
        r.w == min2(a.w as int, b.w as int),
{
    a.min(b)
}

/// [`UVec4::max`]: the larger of the two lanes, lane by lane.
#[verifier::external_body]
pub(crate) fn max(a: UVec4, b: UVec4) -> (r: UVec4)
    ensures
        r.x == max2(a.x as int, b.x as int),
        r.y == max2(a.y as int, b.y as int),
        r.z == max2(a.z as int, b.z as int),
        r.w == max2(a.w as int, b.w as int),
{
    a.max(b)
}

/// [`UVec4::clamp`]: `v.max(min).min(max)`. The crate asks for `min <= max` in
/// every lane and may assert it.
#[verifier::external_body]
pub(crate) fn clamp(v: UVec4, min: UVec4, max: UVec4) -> (r: UVec4)
    requires
        min.x <= max.x,
        min.y <= max.y,
        min.z <= max.z,
        min.w <= max.w,
    ensures
        r.x == min2(max2(v.x as int, min.x as int), max.x as int),
        r.y == min2(max2(v.y as int, min.y as int), max.y as int),
        r.z == min2(max2(v.z as int, min.z as int), max.z as int),
        r.w == min2(max2(v.w as int, min.w as int), max.w as int),
{
    v.clamp(min, max)
}

/// [`UVec4::min_element`]: the least lane.
#[verifier::external_body]
pub(crate) fn min_element(v: UVec4) -> (r: u32)
    ensures
        r == min2(v.x as int, min2(v.y as int, min2(v.z as int, v.w as int))),
{
    v.min_element()
}

/// [`UVec4::max_element`]: the greatest lane.
#[verifier::external_body]
pub(crate) fn max_element(v: UVec4) -> (r: u32)
    ensures
        r == max2(v.x as int, max2(v.y as int, max2(v.z as int, v.w as int))),
{
    v.max_element()
}

/// [`UVec4::min_position`]: the index of the first lane that holds the least
/// value.
#[verifier::external_body]
pub(crate) fn min_position(v: UVec4) -> (r: usize)
    ensures
        first_min_at(seq![v.x as int, v.y as int, v.z as int, v.w as int], r as int),
{
    v.min_position()
}

/// [`UVec4::max_position`]: the index of the first lane that holds the greatest
/// value.
#[verifier::external_body]
pub(crate) fn max_position(v: UVec4) -> (r: usize)
    ensures
        first_max_at(seq![v.x as int, v.y as int, v.z as int, v.w as int], r as int),
{
    v.max_position()
}

/// [`UVec4::element_sum`]: the lanes added from the left, in `u32`: no sum on
/// the way may overflow.
#[verifier::external_body]
pub(crate) fn element_sum(v: UVec4) -> (r: u32)
    requires
        fits_u32(v.x + v.y),
        fits_u32(v.x + v.y + v.z),
        fits_u32(v.x + v.y + v.z + v.w),
    ensures
        r == v.x + v.y + v.z + v.w,
{
    v.element_sum()
}

/// [`UVec4::element_product`]: the lanes multiplied from the left, in `u32`: no
/// product on the way may overflow.
#[verifier::external_body]
pub(crate) fn element_product(v: UVec4) -> (r: u32)
    requires
        fits_u32(v.x * v.y),
        fits_u32(v.x * v.y * v.z),
        fits_u32(v.x * v.y * v.z * v.w),
    ensures
        r == v.x * v.y * v.z * v.w,
{
    v.element_product()
}

/// [`UVec4::select`]: each lane comes from `if_true` where the lane of `mask`
/// is true and from `if_false` where it is false.
#[verifier::external_body]
pub(crate) fn select(mask: BVec4, if_true: UVec4, if_false: UVec4) -> (r: UVec4)
    ensures
        r.x == (if mask.x {
            if_true.x
        } else {
            if_false.x
        }),
        r.y == (if mask.y {
            if_true.y
        } else {
            if_false.y
        }),
        r.z == (if mask.z {
            if_true.z
        } else {
            if_false.z
        }),
        r.w == (if mask.w {
            if_true.w
        } else {
            if_false.w
        }),
{
    UVec4::select(mask, if_true, if_false)
}

/// [`UVec4::cmpeq`]: a lane of the mask is true where the lane of `a` is equal
/// to that of `b`.
#[verifier::external_body]
pub(crate) fn cmpeq(a: UVec4, b: UVec4) -> (r: BVec4)
    ensures
        r.x == (a.x == b.x),
        r.y == (a.y == b.y),
        r.z == (a.z == b.z),
        r.w == (a.w == b.w),
{
    a.cmpeq(b)
}

/// [`UVec4::cmpne`]: a lane of the mask is true where the lane of `a` is
/// different from that of `b`.
#[verifier::external_body]
pub(crate) fn cmpne(a: UVec4, b: UVec4) -> (r: BVec4)
    ensures
        r.x == (a.x != b.x),
        r.y == (a.y != b.y),
        r.z == (a.z != b.z),
        r.w == (a.w != b.w),
{
    a.cmpne(b)
}

/// [`UVec4::cmpge`]: a lane of the mask is true where the lane of `a` is at
/// least that of `b`.
#[verifier::external_body]
pub(crate) fn cmpge(a: UVec4, b: UVec4) -> (r: BVec4)
    ensures
        r.x == (a.x >= b.x),
        r.y == (a.y >= b.y),
        r.z == (a.z >= b.z),
        r.w == (a.w >= b.w),
{
    a.cmpge(b)
}

/// [`UVec4::cmpgt`]: a lane of the mask is true where the lane of `a` is
/// greater than that of `b`.
#[verifier::external_body]
pub(crate) fn cmpgt(a: UVec4, b: UVec4) -> (r: BVec4)
    ensures
        r.x == (a.x > b.x),
        r.y == (a.y > b.y),
        r.z == (a.z > b.z),
        r.w == (a.w > b.w),
{
    a.cmpgt(b)
}

/// [`UVec4::cmple`]: a lane of the mask is true where the lane of `a` is at
/// most that of `b`.
#[verifier::external_body]
pub(crate) fn cmple(a: UVec4, b: UVec4) -> (r: BVec4)
    ensures
        r.x == (a.x <= b.x),
        r.y == (a.y <= b.y),
        r.z == (a.z <= b.z),
        r.w == (a.w <= b.w),
{
    a.cmple(b)
}

/// [`UVec4::cmplt`]: a lane of the mask is true where the lane of `a` is less
/// than that of `b`.
#[verifier::external_body]
pub(crate) fn cmplt(a: UVec4, b: UVec4) -> (r: BVec4)
    ensures
        r.x == (a.x < b.x),
        r.y == (a.y < b.y),
        r.z == (a.z < b.z),
        r.w == (a.w < b.w),
{
    a.cmplt(b)
}

/// [`UVec4::length_squared`]: the dot product of `v` with itself, under the
/// conditions of `dot`.
#[verifier::external_body]
pub(crate) fn length_squared(v: UVec4) -> (r: u32)
    requires
        fits_u32(v.x * v.x),
        fits_u32(v.y * v.y),
        fits_u32(v.x * v.x + v.y * v.y),
        fits_u32(v.z * v.z),
        fits_u32(v.x * v.x + v.y * v.y + v.z * v.z),
        fits_u32(v.w * v.w),
        fits_u32(v.x * v.x + v.y * v.y + v.z * v.z + v.w * v.w),
    ensures
        r == v.x * v.x + v.y * v.y + v.z * v.z + v.w * v.w,
{
    v.length_squared()
}

/// [`UVec4::checked_add`]: the lane-wise sum, and `None` exactly where some
/// lane leaves the range of `u32`.
#[verifier::external_body]
pub(crate) fn checked_add(a: UVec4, b: UVec4) -> (r: Option<UVec4>)
    ensures
        r.is_some() <==> (fits_u32(a.x + b.x)
            && fits_u32(a.y + b.y)
            && fits_u32(a.z + b.z)
            && fits_u32(a.w + b.w)),
        r.is_some() ==> r.unwrap().x == a.x + b.x,
        r.is_some() ==> r.unwrap().y == a.y + b.y,
        r.is_some() ==> r.unwrap().z == a.z + b.z,
        r.is_some() ==> r.unwrap().w == a.w + b.w,
{
    a.checked_add(b)
}

/// [`UVec4::checked_sub`]: the lane-wise difference, and `None` exactly where
/// some lane leaves the range of `u32`.
#[verifier::external_body]
pub(crate) fn checked_sub(a: UVec4, b: UVec4) -> (r: Option<UVec4>)
    ensures
        r.is_some() <==> (fits_u32(a.x - b.x)
            && fits_u32(a.y - b.y)
            && fits_u32(a.z - b.z)
            && fits_u32(a.w - b.w)),
        r.is_some() ==> r.unwrap().x == a.x - b.x,
        r.is_some() ==> r.unwrap().y == a.y - b.y,
        r.is_some() ==> r.unwrap().z == a.z - b.z,
        r.is_some() ==> r.unwrap().w == a.w - b.w,
{
    a.checked_sub(b)
}

/// [`UVec4::checked_mul`]: the lane-wise product, and `None` exactly where some
/// lane leaves the range of `u32`.
#[verifier::external_body]
pub(crate) fn checked_mul(a: UVec4, b: UVec4) -> (r: Option<UVec4>)
    ensures
        r.is_some() <==> (fits_u32(a.x * b.x)
            && fits_u32(a.y * b.y)
            && fits_u32(a.z * b.z)
            && fits_u32(a.w * b.w)),
        r.is_some() ==> r.unwrap().x == a.x * b.x,
        r.is_some() ==> r.unwrap().y == a.y * b.y,
        r.is_some() ==> r.unwrap().z == a.z * b.z,
        r.is_some() ==> r.unwrap().w == a.w * b.w,
{
    a.checked_mul(b)
}

/// [`UVec4::checked_div`]: the lane-wise quotient rounded towards zero, and
/// `None` exactly where some lane leaves the range of `u32`. `None` also where
/// a lane of `b` is zero.
#[verifier::external_body]
pub(crate) fn checked_div(a: UVec4, b: UVec4) -> (r: Option<UVec4>)
    ensures
        r.is_some() <==> (b.x != 0
            && b.y != 0
            && b.z != 0
            && b.w != 0
            && fits_u32(trunc_div(a.x as int, b.x as int))
            && fits_u32(trunc_div(a.y as int, b.y as int))
            && fits_u32(trunc_div(a.z as int, b.z as int))
            && fits_u32(trunc_div(a.w as int, b.w as int))),
        r.is_some() ==> r.unwrap().x == trunc_div(a.x as int, b.x as int),
        r.is_some() ==> r.unwrap().y == trunc_div(a.y as int, b.y as int),
        r.is_some() ==> r.unwrap().z == trunc_div(a.z as int, b.z as int),
        r.is_some() ==> r.unwrap().w == trunc_div(a.w as int, b.w as int),
{
    a.checked_div(b)
}

/// [`UVec4::wrapping_add`]: the lane-wise sum, wrapped into the range of `u32`.
#[verifier::external_body]
pub(crate) fn wrapping_add(a: UVec4, b: UVec4) -> (r: UVec4)
    ensures
        r.x == wrap_u32(a.x + b.x),
        r.y == wrap_u32(a.y + b.y),
        r.z == wrap_u32(a.z + b.z),
        r.w == wrap_u32(a.w + b.w),
{
    a.wrapping_add(b)
}

/// [`UVec4::wrapping_sub`]: the lane-wise difference, wrapped into the range of
/// `u32`.
#[verifier::external_body]
pub(crate) fn wrapping_sub(a: UVec4, b: UVec4) -> (r: UVec4)
    ensures
        r.x == wrap_u32(a.x - b.x),
        r.y == wrap_u32(a.y - b.y),
        r.z == wrap_u32(a.z - b.z),
        r.w == wrap_u32(a.w - b.w),
{
    a.wrapping_sub(b)
}

/// [`UVec4::wrapping_mul`]: the lane-wise product, wrapped into the range of
/// `u32`.
#[verifier::external_body]
pub(crate) fn wrapping_mul(a: UVec4, b: UVec4) -> (r: UVec4)
    ensures
        r.x == wrap_u32(a.x * b.x),
        r.y == wrap_u32(a.y * b.y),
        r.z == wrap_u32(a.z * b.z),
        r.w == wrap_u32(a.w * b.w),
{
    a.wrapping_mul(b)
}

/// [`UVec4::wrapping_div`]: the lane-wise quotient rounded towards zero,
/// wrapped into the range of `u32`. `u32::wrapping_div` panics on a zero
/// divisor.
#[verifier::external_body]
pub(crate) fn wrapping_div(a: UVec4, b: UVec4) -> (r: UVec4)
    requires
        b.x != 0,
        b.y != 0,
        b.z != 0,
        b.w != 0,
    ensures
        r.x == wrap_u32(trunc_div(a.x as int, b.x as int)),
        r.y == wrap_u32(trunc_div(a.y as int, b.y as int)),
        r.z == wrap_u32(trunc_div(a.z as int, b.z as int)),
        r.w == wrap_u32(trunc_div(a.w as int, b.w as int)),
{
    a.wrapping_div(b)
}

/// [`UVec4::saturating_add`]: the lane-wise sum, saturated to the range of
/// `u32`.
#[verifier::external_body]
pub(crate) fn saturating_add(a: UVec4, b: UVec4) -> (r: UVec4)
    ensures
        r.x == sat_u32(a.x + b.x),
        r.y == sat_u32(a.y + b.y),
        r.z == sat_u32(a.z + b.z),
        r.w == sat_u32(a.w + b.w),
{
    a.saturating_add(b)
}

/// [`UVec4::saturating_sub`]: the lane-wise difference, saturated to the range
/// of `u32`.
#[verifier::external_body]
pub(crate) fn saturating_sub(a: UVec4, b: UVec4) -> (r: UVec4)
    ensures
        r.x == sat_u32(a.x - b.x),
        r.y == sat_u32(a.y - b.y),
        r.z == sat_u32(a.z - b.z),
        r.w == sat_u32(a.w - b.w),
{
    a.saturating_sub(b)
}

/// [`UVec4::saturating_mul`]: the lane-wise product, saturated to the range of
/// `u32`.
#[verifier::external_body]
pub(crate) fn saturating_mul(a: UVec4, b: UVec4) -> (r: UVec4)
    ensures
        r.x == sat_u32(a.x * b.x),
        r.y == sat_u32(a.y * b.y),
        r.z == sat_u32(a.z * b.z),
        r.w == sat_u32(a.w * b.w),
{
    a.saturating_mul(b)
}

/// [`UVec4::saturating_div`]: the lane-wise quotient rounded towards zero,
/// saturated to the range of `u32`. `u32::saturating_div` panics on a zero
/// divisor.
#[verifier::external_body]
pub(crate) fn saturating_div(a: UVec4, b: UVec4) -> (r: UVec4)
    requires
        b.x != 0,
        b.y != 0,
        b.z != 0,
        b.w != 0,
    ensures
        r.x == sat_u32(trunc_div(a.x as int, b.x as int)),
        r.y == sat_u32(trunc_div(a.y as int, b.y as int)),
        r.z == sat_u32(trunc_div(a.z as int, b.z as int)),
        r.w == sat_u32(trunc_div(a.w as int, b.w as int)),
{
    a.saturating_div(b)
}

/// [`UVec4::manhattan_distance`]: the distances between the lanes, added in
/// `u32`: the sum may not overflow.
#[verifier::external_body]
pub(crate) fn manhattan_distance(a: UVec4, b: UVec4) -> (r: u32)
    requires
        fits_u32(
            gap(a.x as int, b.x as int) + gap(a.y as int, b.y as int)
                + gap(a.z as int, b.z as int) + gap(a.w as int, b.w as int),
        ),
    ensures
        r == gap(a.x as int, b.x as int) + gap(a.y as int, b.y as int)
            + gap(a.z as int, b.z as int) + gap(a.w as int, b.w as int),
{
    a.manhattan_distance(b)
}

/// [`UVec4::checked_manhattan_distance`]: the distances between the lanes added
/// in `u32`, and `None` exactly where the sum overflows.
#[verifier::external_body]
pub(crate) fn checked_manhattan_distance(a: UVec4, b: UVec4) -> (r: Option<u32>)
    ensures
        r.is_some() <==> fits_u32(
            gap(a.x as int, b.x as int) + gap(a.y as int, b.y as int)
                + gap(a.z as int, b.z as int) + gap(a.w as int, b.w as int),
        ),
        r.is_some() ==> r.unwrap() == gap(a.x as int, b.x as int) + gap(a.y as int, b.y as int)
            + gap(a.z as int, b.z as int) + gap(a.w as int, b.w as int),
{
    a.checked_manhattan_distance(b)
}

/// [`UVec4::chebyshev_distance`]: the greatest distance between a lane of `a`
/// and that of `b`.
#[verifier::external_body]
pub(crate) fn chebyshev_distance(a: UVec4, b: UVec4) -> (r: u32)
    ensures
        r == max2(
            max2(gap(a.x as int, b.x as int), gap(a.y as int, b.y as int)),
            max2(gap(a.z as int, b.z as int), gap(a.w as int, b.w as int)),
        ),
{
    a.chebyshev_distance(b)
}

} // verus!
