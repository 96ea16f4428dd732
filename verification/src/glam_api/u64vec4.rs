//! What this crate takes from `glam::U64Vec4`.
//!
//! Each function here calls one function of `glam` and states, unproved, what
//! that function does, as its source shows it.

use crate::math::{
    first_max_at, first_min_at, fits_u64, gap, max2, min2, sat_u64, trunc_div, wrap_u64,
};
use glam::{BVec4, U64Vec3, U64Vec4};
use vstd::prelude::*;

verus! {

/// `glam::U64Vec4`, whose lanes are public fields.
#[verifier::external_type_specification]
pub struct ExU64Vec4(U64Vec4);

/// [`U64Vec4::new`]: the vector with the given lanes.
#[verifier::external_body]
pub(crate) fn new(x: u64, y: u64, z: u64, w: u64) -> (r: U64Vec4)
    ensures
        r.x == x,
        r.y == y,
        r.z == z,
        r.w == w,
{
    U64Vec4::new(x, y, z, w)
}

/// [`U64Vec4::splat`]: every lane is `v`.
#[verifier::external_body]
pub(crate) fn splat(v: u64) -> (r: U64Vec4)
    ensures
        r.x == v,
        r.y == v,
        r.z == v,
        r.w == v,
{
    U64Vec4::splat(v)
}

/// [`U64Vec4::map`]: calls `f` on each lane, so `f` must accept each lane, and
/// each lane of the result is what `f` gave for that lane.
#[verifier::external_body]
pub(crate) fn map<F: Fn(u64) -> u64>(v: U64Vec4, f: F) -> (r: U64Vec4)
    requires
        call_requires(f, (v.x,)),
        call_requires(f, (v.y,)),
        call_requires(f, (v.z,)),
        call_requires(f, (v.w,)),
    ensures
        call_ensures(f, (v.x,), r.x),
        call_ensures(f, (v.y,), r.y),
        call_ensures(f, (v.z,), r.z),
        call_ensures(f, (v.w,), r.w),
{
    v.map(f)
}

/// [`U64Vec4::from_array`]: the lanes are the elements of `a` in order.
#[verifier::external_body]
pub(crate) fn from_array(a: [u64; 4]) -> (r: U64Vec4)
    ensures
        r.x == a@[0],
        r.y == a@[1],
        r.z == a@[2],
        r.w == a@[3],
{
    U64Vec4::from_array(a)
}

/// [`U64Vec4::to_array`]: the array of the lanes in order.
#[verifier::external_body]
pub(crate) fn to_array(v: &U64Vec4) -> (r: [u64; 4])
    ensures
        r@ == seq![v.x, v.y, v.z, v.w],
{
    v.to_array()
}

/// [`U64Vec4::from_slice`]: the lanes are the first 4 elements of `slice`; it
/// panics on a shorter slice.
#[verifier::external_body]
pub(crate) fn from_slice(slice: &[u64]) -> (r: U64Vec4)
    requires
        slice@.len() >= 4,
    ensures
        r.x == slice@[0],
        r.y == slice@[1],
        r.z == slice@[2],
        r.w == slice@[3],
{
    U64Vec4::from_slice(slice)
}

/// [`U64Vec4::write_to_slice`]: copies the lanes over the first 4 elements of
/// `slice` and leaves the rest; it panics on a shorter slice.
#[verifier::external_body]
pub(crate) fn write_to_slice(v: U64Vec4, slice: &mut [u64])
    requires
        old(slice)@.len() >= 4,
    ensures
        final(slice)@ == old(slice)@.update(0, v.x).update(1, v.y).update(2, v.z).update(3, v.w),
{
    v.write_to_slice(slice)
}

/// Indexing a `U64Vec4` with a `usize`: the lane at `index`; it panics on an
/// index past the last lane.
#[verifier::external_body]
pub(crate) fn lane(v: &U64Vec4, index: usize) -> (r: u64)
    requires
        index < 4,
    ensures
        index == 0 ==> r == v.x,
        index == 1 ==> r == v.y,
        index == 2 ==> r == v.z,
        index == 3 ==> r == v.w,
{
    v[index]
}

/// [`U64Vec4::truncate`]: the lanes of `v` without the last.
#[verifier::external_body]
pub(crate) fn truncate(v: U64Vec4) -> (r: U64Vec3)
    ensures
        r.x == v.x,
        r.y == v.y,
        r.z == v.z,
{
    v.truncate()
}

/// [`U64Vec4::with_x`]: `v` with the lane `x` replaced.
#[verifier::external_body]
pub(crate) fn with_x(v: U64Vec4, x: u64) -> (r: U64Vec4)
    ensures
        r.x == x,
        r.y == v.y,
        r.z == v.z,
        r.w == v.w,
{
    v.with_x(x)
}

/// [`U64Vec4::with_y`]: `v` with the lane `y` replaced.
#[verifier::external_body]
pub(crate) fn with_y(v: U64Vec4, y: u64) -> (r: U64Vec4)
    ensures
        r.x == v.x,
        r.y == y,
        r.z == v.z,
        r.w == v.w,
{
    v.with_y(y)
}

/// [`U64Vec4::with_z`]: `v` with the lane `z` replaced.
#[verifier::external_body]
pub(crate) fn with_z(v: U64Vec4, z: u64) -> (r: U64Vec4)
    ensures
        r.x == v.x,
        r.y == v.y,
        r.z == z,
        r.w == v.w,
{
    v.with_z(z)
}

/// [`U64Vec4::with_w`]: `v` with the lane `w` replaced.
#[verifier::external_body]
pub(crate) fn with_w(v: U64Vec4, w: u64) -> (r: U64Vec4)
    ensures
        r.x == v.x,
        r.y == v.y,
        r.z == v.z,
        r.w == w,
{
    v.with_w(w)
}

/// [`U64Vec4::dot`]: the lane products added from the left. It computes in
/// `u64`, so no product and no sum on the way may overflow.
#[verifier::external_body]
pub(crate) fn dot(a: U64Vec4, b: U64Vec4) -> (r: u64)
    requires
        fits_u64(a.x * b.x),
        fits_u64(a.y * b.y),
        fits_u64(a.x * b.x + a.y * b.y),
        fits_u64(a.z * b.z),
        fits_u64(a.x * b.x + a.y * b.y + a.z * b.z),
        fits_u64(a.w * b.w),
        fits_u64(a.x * b.x + a.y * b.y + a.z * b.z + a.w * b.w),
    ensures
        r == a.x * b.x + a.y * b.y + a.z * b.z + a.w * b.w,
{
    a.dot(b)
}

/// [`U64Vec4::dot_into_vec`]: the dot product in every lane, under the
/// conditions of `dot`.
#[verifier::external_body]
pub(crate) fn dot_into_vec(a: U64Vec4, b: U64Vec4) -> (r: U64Vec4)
    requires
        fits_u64(a.x * b.x),
        fits_u64(a.y * b.y),
        fits_u64(a.x * b.x + a.y * b.y),
        fits_u64(a.z * b.z),
        fits_u64(a.x * b.x + a.y * b.y + a.z * b.z),
        fits_u64(a.w * b.w),
        fits_u64(a.x * b.x + a.y * b.y + a.z * b.z + a.w * b.w),
    ensures
        r.x == a.x * b.x + a.y * b.y + a.z * b.z + a.w * b.w,
        r.y == a.x * b.x + a.y * b.y + a.z * b.z + a.w * b.w,
        r.z == a.x * b.x + a.y * b.y + a.z * b.z + a.w * b.w,
        r.w == a.x * b.x + a.y * b.y + a.z * b.z + a.w * b.w,
{
    a.dot_into_vec(b)
}

/// [`U64Vec4::min`]: the smaller of the two lanes, lane by lane.
#[verifier::external_body]
pub(crate) fn min(a: U64Vec4, b: U64Vec4) -> (r: U64Vec4)
    ensures
        r.x == min2(a.x as int, b.x as int),
        r.y == min2(a.y as int, b.y as int),
        r.z == min2(a.z as int, b.z as int),
        r.w == min2(a.w as int, b.w as int),
{
    a.min(b)
}

/// [`U64Vec4::max`]: the larger of the two lanes, lane by lane.
#[verifier::external_body]
pub(crate) fn max(a: U64Vec4, b: U64Vec4) -> (r: U64Vec4)
    ensures
        r.x == max2(a.x as int, b.x as int),
        r.y == max2(a.y as int, b.y as int),
        r.z == max2(a.z as int, b.z as int),
        r.w == max2(a.w as int, b.w as int),
{
    a.max(b)
}

/// [`U64Vec4::clamp`]: `v.max(min).min(max)`. The crate asks for `min <= max`
/// in every lane and may assert it.
#[verifier::external_body]
pub(crate) fn clamp(v: U64Vec4, min: U64Vec4, max: U64Vec4) -> (r: U64Vec4)
    requires
        min.x <= max.x,
        min.y <= max.y,
        min.z <= max.z,
        min.w <= max.w,
    ensures
        r.x == min2(max2(v.x as int, min.x as int), max.x as int),
        r.y == min2(max2(v.y as int, min.y as int), max.y as int),
        r.z == min2(max2(v.z as int, min.z as int), max.z as int),
        r.w == min2(max2(v.w as int, min.w as int), max.w as int),
{
    v.clamp(min, max)
}

/// [`U64Vec4::min_element`]: the least lane.
#[verifier::external_body]
pub(crate) fn min_element(v: U64Vec4) -> (r: u64)
    ensures
        r == min2(v.x as int, min2(v.y as int, min2(v.z as int, v.w as int))),
{
    v.min_element()
}

/// [`U64Vec4::max_element`]: the greatest lane.
#[verifier::external_body]
pub(crate) fn max_element(v: U64Vec4) -> (r: u64)
    ensures
        r == max2(v.x as int, max2(v.y as int, max2(v.z as int, v.w as int))),
{
    v.max_element()
}

/// [`U64Vec4::min_position`]: the index of the first lane that holds the least
/// value.
#[verifier::external_body]
pub(crate) fn min_position(v: U64Vec4) -> (r: usize)
    ensures
        first_min_at(seq![v.x as int, v.y as int, v.z as int, v.w as int], r as int),
{
    v.min_position()
}

/// [`U64Vec4::max_position`]: the index of the first lane that holds the
/// greatest value.
#[verifier::external_body]
pub(crate) fn max_position(v: U64Vec4) -> (r: usize)
    ensures
        first_max_at(seq![v.x as int, v.y as int, v.z as int, v.w as int], r as int),
{
    v.max_position()
}

/// [`U64Vec4::element_sum`]: the lanes added from the left, in `u64`: no sum on
/// the way may overflow.
#[verifier::external_body]
pub(crate) fn element_sum(v: U64Vec4) -> (r: u64)
    requires
        fits_u64(v.x + v.y),
        fits_u64(v.x + v.y + v.z),
        fits_u64(v.x + v.y + v.z + v.w),
    ensures
        r == v.x + v.y + v.z + v.w,
{
    v.element_sum()
}

/// [`U64Vec4::element_product`]: the lanes multiplied from the left, in `u64`:
/// no product on the way may overflow.
#[verifier::external_body]
pub(crate) fn element_product(v: U64Vec4) -> (r: u64)
    requires
        fits_u64(v.x * v.y),
        fits_u64(v.x * v.y * v.z),
        fits_u64(v.x * v.y * v.z * v.w),
    ensures
        r == v.x * v.y * v.z * v.w,
{
    v.element_product()
}

/// [`U64Vec4::select`]: each lane comes from `if_true` where the lane of `mask`
/// is true and from `if_false` where it is false.
#[verifier::external_body]
pub(crate) fn select(mask: BVec4, if_true: U64Vec4, if_false: U64Vec4) -> (r: U64Vec4)
    ensures
        r.x == (if mask.x {
            if_true.x
        } else {
            if_false.x
        }),
        r.y == (if mask.y {
            if_true.y
        } else {
            if_false.y
        }),
        r.z == (if mask.z {
            if_true.z
        } else {
            if_false.z
        }),
        r.w == (if mask.w {
            if_true.w
        } else {
            if_false.w
        }),
{
    U64Vec4::select(mask, if_true, if_false)
}

/// [`U64Vec4::cmpeq`]: a lane of the mask is true where the lane of `a` is
/// equal to that of `b`.
#[verifier::external_body]
pub(crate) fn cmpeq(a: U64Vec4, b: U64Vec4) -> (r: BVec4)
    ensures
        r.x == (a.x == b.x),
        r.y == (a.y == b.y),
        r.z == (a.z == b.z),
        r.w == (a.w == b.w),
{
    a.cmpeq(b)
}

/// [`U64Vec4::cmpne`]: a lane of the mask is true where the lane of `a` is
/// different from that of `b`.
#[verifier::external_body]
pub(crate) fn cmpne(a: U64Vec4, b: U64Vec4) -> (r: BVec4)
    ensures
        r.x == (a.x != b.x),
        r.y == (a.y != b.y),
        r.z == (a.z != b.z),
        r.w == (a.w != b.w),
{
    a.cmpne(b)
}

/// [`U64Vec4::cmpge`]: a lane of the mask is true where the lane of `a` is at
/// least that of `b`.
#[verifier::external_body]
pub(crate) fn cmpge(a: U64Vec4, b: U64Vec4) -> (r: BVec4)
    ensures
        r.x == (a.x >= b.x),
        r.y == (a.y >= b.y),
        r.z == (a.z >= b.z),
        r.w == (a.w >= b.w),
{
    a.cmpge(b)
}

/// [`U64Vec4::cmpgt`]: a lane of the mask is true where the lane of `a` is
/// greater than that of `b`.
#[verifier::external_body]
pub(crate) fn cmpgt(a: U64Vec4, b: U64Vec4) -> (r: BVec4)
    ensures
        r.x == (a.x > b.x),
        r.y == (a.y > b.y),
        r.z == (a.z > b.z),
        r.w == (a.w > b.w),
{
    a.cmpgt(b)
}

/// [`U64Vec4::cmple`]: a lane of the mask is true where the lane of `a` is at
/// most that of `b`.
#[verifier::external_body]
pub(crate) fn cmple(a: U64Vec4, b: U64Vec4) -> (r: BVec4)
    ensures
        r.x == (a.x <= b.x),
        r.y == (a.y <= b.y),
        r.z == (a.z <= b.z),
        r.w == (a.w <= b.w),
{
    a.cmple(b)
}

/// [`U64Vec4::cmplt`]: a lane of the mask is true where the lane of `a` is less
/// than that of `b`.
#[verifier::external_body]
pub(crate) fn cmplt(a: U64Vec4, b: U64Vec4) -> (r: BVec4)
    ensures
        r.x == (a.x < b.x),
        r.y == (a.y < b.y),
        r.z == (a.z < b.z),
        r.w == (a.w < b.w),
{
    a.cmplt(b)
}

/// [`U64Vec4::length_squared`]: the dot product of `v` with itself, under the
/// conditions of `dot`.
#[verifier::external_body]
pub(crate) fn length_squared(v: U64Vec4) -> (r: u64)
    requires
        fits_u64(v.x * v.x),
        fits_u64(v.y * v.y),
        fits_u64(v.x * v.x + v.y * v.y),
        fits_u64(v.z * v.z),
        fits_u64(v.x * v.x + v.y * v.y + v.z * v.z),
        fits_u64(v.w * v.w),
        fits_u64(v.x * v.x + v.y * v.y + v.z * v.z + v.w * v.w),
    ensures
        r == v.x * v.x + v.y * v.y + v.z * v.z + v.w * v.w,
{
    v.length_squared()
}

/// [`U64Vec4::checked_add`]: the lane-wise sum, and `None` exactly where some
/// lane leaves the range of `u64`.
#[verifier::external_body]
pub(crate) fn checked_add(a: U64Vec4, b: U64Vec4) -> (r: Option<U64Vec4>)
    ensures
        r.is_some() <==> (fits_u64(a.x + b.x)
            && fits_u64(a.y + b.y)
            && fits_u64(a.z + b.z)
            && fits_u64(a.w + b.w)),
        r.is_some() ==> r.unwrap().x == a.x + b.x,
        r.is_some() ==> r.unwrap().y == a.y + b.y,
        r.is_some() ==> r.unwrap().z == a.z + b.z,
        r.is_some() ==> r.unwrap().w == a.w + b.w,
{
    a.checked_add(b)
}

/// [`U64Vec4::checked_sub`]: the lane-wise difference, and `None` exactly where
/// some lane leaves the range of `u64`.
#[verifier::external_body]
pub(crate) fn checked_sub(a: U64Vec4, b: U64Vec4) -> (r: Option<U64Vec4>)
    ensures
        r.is_some() <==> (fits_u64(a.x - b.x)
            && fits_u64(a.y - b.y)
            && fits_u64(a.z - b.z)
            && fits_u64(a.w - b.w)),
        r.is_some() ==> r.unwrap().x == a.x - b.x,
        r.is_some() ==> r.unwrap().y == a.y - b.y,
        r.is_some() ==> r.unwrap().z == a.z - b.z,
        r.is_some() ==> r.unwrap().w == a.w - b.w,
{
    a.checked_sub(b)
}

/// [`U64Vec4::checked_mul`]: the lane-wise product, and `None` exactly where
/// some lane leaves the range of `u64`.
#[verifier::external_body]
pub(crate) fn checked_mul(a: U64Vec4, b: U64Vec4) -> (r: Option<U64Vec4>)
    ensures
        r.is_some() <==> (fits_u64(a.x * b.x)
            && fits_u64(a.y * b.y)
            && fits_u64(a.z * b.z)
            && fits_u64(a.w * b.w)),
        r.is_some() ==> r.unwrap().x == a.x * b.x,
        r.is_some() ==> r.unwrap().y == a.y * b.y,
        r.is_some() ==> r.unwrap().z == a.z * b.z,
        r.is_some() ==> r.unwrap().w == a.w * b.w,
{
    a.checked_mul(b)
}

/// [`U64Vec4::checked_div`]: the lane-wise quotient rounded towards zero, and
/// `None` exactly where some lane leaves the range of `u64`. `None` also where
/// a lane of `b` is zero.
#[verifier::external_body]
pub(crate) fn checked_div(a: U64Vec4, b: U64Vec4) -> (r: Option<U64Vec4>)
    ensures
        r.is_some() <==> (b.x != 0
            && b.y != 0
            && b.z != 0
            && b.w != 0
            && fits_u64(trunc_div(a.x as int, b.x as int))
            && fits_u64(trunc_div(a.y as int, b.y as int))
            && fits_u64(trunc_div(a.z as int, b.z as int))
            && fits_u64(trunc_div(a.w as int, b.w as int))),
        r.is_some() ==> r.unwrap().x == trunc_div(a.x as int, b.x as int),
        r.is_some() ==> r.unwrap().y == trunc_div(a.y as int, b.y as int),
        r.is_some() ==> r.unwrap().z == trunc_div(a.z as int, b.z as int),
        r.is_some() ==> r.unwrap().w == trunc_div(a.w as int, b.w as int),
{
    a.checked_div(b)
}

/// [`U64Vec4::wrapping_add`]: the lane-wise sum, wrapped into the range of
/// `u64`.
#[verifier::external_body]
pub(crate) fn wrapping_add(a: U64Vec4, b: U64Vec4) -> (r: U64Vec4)
    ensures
        r.x == wrap_u64(a.x + b.x),
        r.y == wrap_u64(a.y + b.y),
        r.z == wrap_u64(a.z + b.z),
        r.w == wrap_u64(a.w + b.w),
{
    a.wrapping_add(b)
}

/// [`U64Vec4::wrapping_sub`]: the lane-wise difference, wrapped into the range
/// of `u64`.
#[verifier::external_body]
pub(crate) fn wrapping_sub(a: U64Vec4, b: U64Vec4) -> (r: U64Vec4)
    ensures
        r.x == wrap_u64(a.x - b.x),
        r.y == wrap_u64(a.y - b.y),
        r.z == wrap_u64(a.z - b.z),
        r.w == wrap_u64(a.w - b.w),
{
    a.wrapping_sub(b)
}

/// [`U64Vec4::wrapping_mul`]: the lane-wise product, wrapped into the range of
/// `u64`.
#[verifier::external_body]
pub(crate) fn wrapping_mul(a: U64Vec4, b: U64Vec4) -> (r: U64Vec4)
    ensures
        r.x == wrap_u64(a.x * b.x),
        r.y == wrap_u64(a.y * b.y),
        r.z == wrap_u64(a.z * b.z),
        r.w == wrap_u64(a.w * b.w),
{
    a.wrapping_mul(b)
}

/// [`U64Vec4::wrapping_div`]: the lane-wise quotient rounded towards zero,
/// wrapped into the range of `u64`. `u64::wrapping_div` panics on a zero
/// divisor.
#[verifier::external_body]
pub(crate) fn wrapping_div(a: U64Vec4, b: U64Vec4) -> (r: U64Vec4)
    requires
        b.x != 0,
        b.y != 0,
        b.z != 0,
        b.w != 0,
    ensures
        r.x == wrap_u64(trunc_div(a.x as int, b.x as int)),
        r.y == wrap_u64(trunc_div(a.y as int, b.y as int)),
        r.z == wrap_u64(trunc_div(a.z as int, b.z as int)),
        r.w == wrap_u64(trunc_div(a.w as int, b.w as int)),
{
    a.wrapping_div(b)
}

/// [`U64Vec4::saturating_add`]: the lane-wise sum, saturated to the range of
/// `u64`.
#[verifier::external_body]
pub(crate) fn saturating_add(a: U64Vec4, b: U64Vec4) -> (r: U64Vec4)
    ensures
        r.x == sat_u64(a.x + b.x),
        r.y == sat_u64(a.y + b.y),
        r.z == sat_u64(a.z + b.z),
        r.w == sat_u64(a.w + b.w),
{
    a.saturating_add(b)
}

/// [`U64Vec4::saturating_sub`]: the lane-wise difference, saturated to the
/// range of `u64`.
#[verifier::external_body]
pub(crate) fn saturating_sub(a: U64Vec4, b: U64Vec4) -> (r: U64Vec4)
    ensures
        r.x == sat_u64(a.x - b.x),
        r.y == sat_u64(a.y - b.y),
        r.z == sat_u64(a.z - b.z),
        r.w == sat_u64(a.w - b.w),
{
    a.saturating_sub(b)
}

/// [`U64Vec4::saturating_mul`]: the lane-wise product, saturated to the range
/// of `u64`.
#[verifier::external_body]
pub(crate) fn saturating_mul(a: U64Vec4, b: U64Vec4) -> (r: U64Vec4)
    ensures
        r.x == sat_u64(a.x * b.x),
        r.y == sat_u64(a.y * b.y),
        r.z == sat_u64(a.z * b.z),
        r.w == sat_u64(a.w * b.w),
{
    a.saturating_mul(b)
}

/// [`U64Vec4::saturating_div`]: the lane-wise quotient rounded towards zero,
/// saturated to the range of `u64`. `u64::saturating_div` panics on a zero
/// divisor.
#[verifier::external_body]
pub(crate) fn saturating_div(a: U64Vec4, b: U64Vec4) -> (r: U64Vec4)
    requires
        b.x != 0,
        b.y != 0,
        b.z != 0,
        b.w != 0,
    ensures
        r.x == sat_u64(trunc_div(a.x as int, b.x as int)),
        r.y == sat_u64(trunc_div(a.y as int, b.y as int)),
        r.z == sat_u64(trunc_div(a.z as int, b.z as int)),
        r.w == sat_u64(trunc_div(a.w as int, b.w as int)),
{
    a.saturating_div(b)
}

/// [`U64Vec4::manhattan_distance`]: the distances between the lanes, added in
/// `u64`: the sum may not overflow.
#[verifier::external_body]
pub(crate) fn manhattan_distance(a: U64Vec4, b: U64Vec4) -> (r: u64)
    requires
        fits_u64(
            gap(a.x as int, b.x as int) + gap(a.y as int, b.y as int)
                + gap(a.z as int, b.z as int) + gap(a.w as int, b.w as int),
        ),
    ensures
        r == gap(a.x as int, b.x as int) + gap(a.y as int, b.y as int)
            + gap(a.z as int, b.z as int) + gap(a.w as int, b.w as int),
{
    a.manhattan_distance(b)
}

/// [`U64Vec4::checked_manhattan_distance`]: the distances between the lanes
/// added in `u64`, and `None` exactly where the sum overflows.
#[verifier::external_body]
pub(crate) fn checked_manhattan_distance(a: U64Vec4, b: U64Vec4) -> (r: Option<u64>)
    ensures
        r.is_some() <==> fits_u64(
            gap(a.x as int, b.x as int) + gap(a.y as int, b.y as int)
                + gap(a.z as int, b.z as int) + gap(a.w as int, b.w as int),
        ),
        r.is_some() ==> r.unwrap() == gap(a.x as int, b.x as int) + gap(a.y as int, b.y as int)
            + gap(a.z as int, b.z as int) + gap(a.w as int, b.w as int),
{
    a.checked_manhattan_distance(b)
}

/// [`U64Vec4::chebyshev_distance`]: the greatest distance between a lane of `a`
/// and that of `b`.
#[verifier::external_body]
pub(crate) fn chebyshev_distance(a: U64Vec4, b: U64Vec4) -> (r: u64)
    ensures
        r == max2(
            max2(gap(a.x as int, b.x as int), gap(a.y as int, b.y as int)),
            max2(gap(a.z as int, b.z as int), gap(a.w as int, b.w as int)),
        ),
{
    a.chebyshev_distance(b)
}

} // verus!
