//! What this crate takes from `glam::IVec4`.
//!
//! Each function here calls one function of `glam` and states, unproved, what
//! that function does, as its source shows it.

use crate::math::{
    first_max_at, first_min_at, fits_i32, fits_u32, gap, magnitude, max2, min2, sat_i32, sign,
    trunc_div, wrap_i32,
};
use glam::{BVec4, IVec3, IVec4};
use vstd::prelude::*;

verus! {

/// `glam::IVec4`, whose lanes are public fields.
#[verifier::external_type_specification]
pub struct ExIVec4(IVec4);

/// [`IVec4::new`]: the vector with the given lanes.
#[verifier::external_body]
pub(crate) fn new(x: i32, y: i32, z: i32, w: i32) -> (r: IVec4)
    ensures
        r.x == x,
        r.y == y,
        r.z == z,
        r.w == w,
{
    IVec4::new(x, y, z, w)
}

/// [`IVec4::splat`]: every lane is `v`.
#[verifier::external_body]
pub(crate) fn splat(v: i32) -> (r: IVec4)
    ensures
        r.x == v,
        r.y == v,
        r.z == v,
        r.w == v,
{
    IVec4::splat(v)
}

/// [`IVec4::map`]: calls `f` on each lane, so `f` must accept each lane, and
/// each lane of the result is what `f` gave for that lane.
#[verifier::external_body]
pub(crate) fn map<F: Fn(i32) -> i32>(v: IVec4, f: F) -> (r: IVec4)
    requires
        call_requires(f, (v.x,)),
        call_requires(f, (v.y,)),
        call_requires(f, (v.z,)),
        call_requires(f, (v.w,)),
    ensures
        call_ensures(f, (v.x,), r.x),
        call_ensures(f, (v.y,), r.y),
        call_ensures(f, (v.z,), r.z),
        call_ensures(f, (v.w,), r.w),
{
    v.map(f)
}

/// [`IVec4::from_array`]: the lanes are the elements of `a` in order.
#[verifier::external_body]
pub(crate) fn from_array(a: [i32; 4]) -> (r: IVec4)
    ensures
        r.x == a@[0],
        r.y == a@[1],
        r.z == a@[2],
        r.w == a@[3],
{
    IVec4::from_array(a)
}

/// [`IVec4::to_array`]: the array of the lanes in order.
#[verifier::external_body]
pub(crate) fn to_array(v: &IVec4) -> (r: [i32; 4])
    ensures
        r@ == seq![v.x, v.y, v.z, v.w],
{
    v.to_array()
}

/// [`IVec4::from_slice`]: the lanes are the first 4 elements of `slice`; it
/// panics on a shorter slice.
#[verifier::external_body]
pub(crate) fn from_slice(slice: &[i32]) -> (r: IVec4)
    requires
        slice@.len() >= 4,
    ensures
        r.x == slice@[0],
        r.y == slice@[1],
        r.z == slice@[2],
        r.w == slice@[3],
{
    IVec4::from_slice(slice)
}

/// [`IVec4::write_to_slice`]: copies the lanes over the first 4 elements of
/// `slice` and leaves the rest; it panics on a shorter slice.
#[verifier::external_body]
pub(crate) fn write_to_slice(v: IVec4, slice: &mut [i32])
    requires
        old(slice)@.len() >= 4,
    ensures
        final(slice)@ == old(slice)@.update(0, v.x).update(1, v.y).update(2, v.z).update(3, v.w),
{
    v.write_to_slice(slice)
}

/// Indexing a `IVec4` with a `usize`: the lane at `index`; it panics on an
/// index past the last lane.
#[verifier::external_body]
pub(crate) fn lane(v: &IVec4, index: usize) -> (r: i32)
    requires
        index < 4,
    ensures
        index == 0 ==> r == v.x,
        index == 1 ==> r == v.y,
        index == 2 ==> r == v.z,
        index == 3 ==> r == v.w,
{
    v[index]
}

/// [`IVec4::truncate`]: the lanes of `v` without the last.
#[verifier::external_body]
pub(crate) fn truncate(v: IVec4) -> (r: IVec3)
    ensures
        r.x == v.x,
        r.y == v.y,
        r.z == v.z,
{
    v.truncate()
}

/// [`IVec4::with_x`]: `v` with the lane `x` replaced.
#[verifier::external_body]
pub(crate) fn with_x(v: IVec4, x: i32) -> (r: IVec4)
    ensures
        r.x == x,
        r.y == v.y,
        r.z == v.z,
        r.w == v.w,
{
    v.with_x(x)
}

/// [`IVec4::with_y`]: `v` with the lane `y` replaced.
#[verifier::external_body]
pub(crate) fn with_y(v: IVec4, y: i32) -> (r: IVec4)
    ensures
        r.x == v.x,
        r.y == y,
        r.z == v.z,
        r.w == v.w,
{
    v.with_y(y)
}

/// [`IVec4::with_z`]: `v` with the lane `z` replaced.
#[verifier::external_body]
pub(crate) fn with_z(v: IVec4, z: i32) -> (r: IVec4)
    ensures
        r.x == v.x,
        r.y == v.y,
        r.z == z,
        r.w == v.w,
{
    v.with_z(z)
}

/// [`IVec4::with_w`]: `v` with the lane `w` replaced.
#[verifier::external_body]
pub(crate) fn with_w(v: IVec4, w: i32) -> (r: IVec4)
    ensures
        r.x == v.x,
        r.y == v.y,
        r.z == v.z,
        r.w == w,
{
    v.with_w(w)
}

/// [`IVec4::dot`]: the lane products added from the left. It computes in `i32`,
/// so no product and no sum on the way may overflow.
#[verifier::external_body]
pub(crate) fn dot(a: IVec4, b: IVec4) -> (r: i32)
    requires
        fits_i32(a.x * b.x),
        fits_i32(a.y * b.y),
        fits_i32(a.x * b.x + a.y * b.y),
        fits_i32(a.z * b.z),
        fits_i32(a.x * b.x + a.y * b.y + a.z * b.z),
        fits_i32(a.w * b.w),
        fits_i32(a.x * b.x + a.y * b.y + a.z * b.z + a.w * b.w),
    ensures
        r == a.x * b.x + a.y * b.y + a.z * b.z + a.w * b.w,
{
    a.dot(b)
}

/// [`IVec4::dot_into_vec`]: the dot product in every lane, under the conditions
/// of `dot`.
#[verifier::external_body]
pub(crate) fn dot_into_vec(a: IVec4, b: IVec4) -> (r: IVec4)
    requires
        fits_i32(a.x * b.x),
        fits_i32(a.y * b.y),
        fits_i32(a.x * b.x + a.y * b.y),
        fits_i32(a.z * b.z),
        fits_i32(a.x * b.x + a.y * b.y + a.z * b.z),
        fits_i32(a.w * b.w),
        fits_i32(a.x * b.x + a.y * b.y + a.z * b.z + a.w * b.w),
    ensures
        r.x == a.x * b.x + a.y * b.y + a.z * b.z + a.w * b.w,
        r.y == a.x * b.x + a.y * b.y + a.z * b.z + a.w * b.w,
        r.z == a.x * b.x + a.y * b.y + a.z * b.z + a.w * b.w,
        r.w == a.x * b.x + a.y * b.y + a.z * b.z + a.w * b.w,
{
    a.dot_into_vec(b)
}

/// [`IVec4::min`]: the smaller of the two lanes, lane by lane.
#[verifier::external_body]
pub(crate) fn min(a: IVec4, b: IVec4) -> (r: IVec4)
    ensures
        r.x == min2(a.x as int, b.x as int),
        r.y == min2(a.y as int, b.y as int),
        r.z == min2(a.z as int, b.z as int),
        r.w == min2(a.w as int, b.w as int),
{
    a.min(b)
}

/// [`IVec4::max`]: the larger of the two lanes, lane by lane.
#[verifier::external_body]
pub(crate) fn max(a: IVec4, b: IVec4) -> (r: IVec4)
    ensures
        r.x == max2(a.x as int, b.x as int),
        r.y == max2(a.y as int, b.y as int),
        r.z == max2(a.z as int, b.z as int),
        r.w == max2(a.w as int, b.w as int),
{
    a.max(b)
}

/// [`IVec4::clamp`]: `v.max(min).min(max)`. The crate asks for `min <= max` in
/// every lane and may assert it.
#[verifier::external_body]
pub(crate) fn clamp(v: IVec4, min: IVec4, max: IVec4) -> (r: IVec4)
    requires
        min.x <= max.x,
        min.y <= max.y,
        min.z <= max.z,
        min.w <= max.w,
    ensures
        r.x == min2(max2(v.x as int, min.x as int), max.x as int),
        r.y == min2(max2(v.y as int, min.y as int), max.y as int),
        r.z == min2(max2(v.z as int, min.z as int), max.z as int),
        r.w == min2(max2(v.w as int, min.w as int), max.w as int),
{
    v.clamp(min, max)
}

/// [`IVec4::min_element`]: the least lane.
#[verifier::external_body]
pub(crate) fn min_element(v: IVec4) -> (r: i32)
    ensures
        r == min2(v.x as int, min2(v.y as int, min2(v.z as int, v.w as int))),
{
    v.min_element()
}

/// [`IVec4::max_element`]: the greatest lane.
#[verifier::external_body]
pub(crate) fn max_element(v: IVec4) -> (r: i32)
    ensures
        r == max2(v.x as int, max2(v.y as int, max2(v.z as int, v.w as int))),
{
    v.max_element()
}

/// [`IVec4::min_position`]: the index of the first lane that holds the least
/// value.
#[verifier::external_body]
pub(crate) fn min_position(v: IVec4) -> (r: usize)
    ensures
        first_min_at(seq![v.x as int, v.y as int, v.z as int, v.w as int], r as int),
{
    v.min_position()
}

/// [`IVec4::max_position`]: the index of the first lane that holds the greatest
/// value.
#[verifier::external_body]
pub(crate) fn max_position(v: IVec4) -> (r: usize)
    ensures
        first_max_at(seq![v.x as int, v.y as int, v.z as int, v.w as int], r as int),
{
    v.max_position()
}

/// [`IVec4::element_sum`]: the lanes added from the left, in `i32`: no sum on
/// the way may overflow.
#[verifier::external_body]
pub(crate) fn element_sum(v: IVec4) -> (r: i32)
    requires
        fits_i32(v.x + v.y),
        fits_i32(v.x + v.y + v.z),
        fits_i32(v.x + v.y + v.z + v.w),
    ensures
        r == v.x + v.y + v.z + v.w,
{
    v.element_sum()
}

/// [`IVec4::element_product`]: the lanes multiplied from the left, in `i32`: no
/// product on the way may overflow.
#[verifier::external_body]
pub(crate) fn element_product(v: IVec4) -> (r: i32)
    requires
        fits_i32(v.x * v.y),
        fits_i32(v.x * v.y * v.z),
        fits_i32(v.x * v.y * v.z * v.w),
    ensures
        r == v.x * v.y * v.z * v.w,
{
    v.element_product()
}

/// [`IVec4::select`]: each lane comes from `if_true` where the lane of `mask`
/// is true and from `if_false` where it is false.
#[verifier::external_body]
pub(crate) fn select(mask: BVec4, if_true: IVec4, if_false: IVec4) -> (r: IVec4)
    ensures
        r.x == (if mask.x {
            if_true.x
        } else {
            if_false.x
        }),
        r.y == (if mask.y {
            if_true.y
        } else {
            if_false.y
        }),
        r.z == (if mask.z {
            if_true.z
        } else {
            if_false.z
        }),
        r.w == (if mask.w {
            if_true.w
        } else {
            if_false.w
        }),
{
    IVec4::select(mask, if_true, if_false)
}

/// [`IVec4::cmpeq`]: a lane of the mask is true where the lane of `a` is equal
/// to that of `b`.
#[verifier::external_body]
pub(crate) fn cmpeq(a: IVec4, b: IVec4) -> (r: BVec4)
    ensures
        r.x == (a.x == b.x),
        r.y == (a.y == b.y),
        r.z == (a.z == b.z),
        r.w == (a.w == b.w),
{
    a.cmpeq(b)
}

/// [`IVec4::cmpne`]: a lane of the mask is true where the lane of `a` is
/// different from that of `b`.
#[verifier::external_body]
pub(crate) fn cmpne(a: IVec4, b: IVec4) -> (r: BVec4)
    ensures
        r.x == (a.x != b.x),
        r.y == (a.y != b.y),
        r.z == (a.z != b.z),
        r.w == (a.w != b.w),
{
    a.cmpne(b)
}

/// [`IVec4::cmpge`]: a lane of the mask is true where the lane of `a` is at
/// least that of `b`.
#[verifier::external_body]
pub(crate) fn cmpge(a: IVec4, b: IVec4) -> (r: BVec4)
    ensures
        r.x == (a.x >= b.x),
        r.y == (a.y >= b.y),
        r.z == (a.z >= b.z),
        r.w == (a.w >= b.w),
{
    a.cmpge(b)
}

/// [`IVec4::cmpgt`]: a lane of the mask is true where the lane of `a` is
/// greater than that of `b`.
#[verifier::external_body]
pub(crate) fn cmpgt(a: IVec4, b: IVec4) -> (r: BVec4)
    ensures
        r.x == (a.x > b.x),
        r.y == (a.y > b.y),
        r.z == (a.z > b.z),
        r.w == (a.w > b.w),
{
    a.cmpgt(b)
}

/// [`IVec4::cmple`]: a lane of the mask is true where the lane of `a` is at
/// most that of `b`.
#[verifier::external_body]
pub(crate) fn cmple(a: IVec4, b: IVec4) -> (r: BVec4)
    ensures
        r.x == (a.x <= b.x),
        r.y == (a.y <= b.y),
        r.z == (a.z <= b.z),
        r.w == (a.w <= b.w),
{
    a.cmple(b)
}

/// [`IVec4::cmplt`]: a lane of the mask is true where the lane of `a` is less
/// than that of `b`.
#[verifier::external_body]
pub(crate) fn cmplt(a: IVec4, b: IVec4) -> (r: BVec4)
    ensures
        r.x == (a.x < b.x),
        r.y == (a.y < b.y),
        r.z == (a.z < b.z),
        r.w == (a.w < b.w),
{
    a.cmplt(b)
}

/// [`IVec4::length_squared`]: the dot product of `v` with itself, under the
/// conditions of `dot`.
#[verifier::external_body]
pub(crate) fn length_squared(v: IVec4) -> (r: i32)
    requires
        fits_i32(v.x * v.x),
        fits_i32(v.y * v.y),
        fits_i32(v.x * v.x + v.y * v.y),
        fits_i32(v.z * v.z),
        fits_i32(v.x * v.x + v.y * v.y + v.z * v.z),
        fits_i32(v.w * v.w),
        fits_i32(v.x * v.x + v.y * v.y + v.z * v.z + v.w * v.w),
    ensures
        r == v.x * v.x + v.y * v.y + v.z * v.z + v.w * v.w,
{
    v.length_squared()
}

/// [`IVec4::abs`]: the absolute value of each lane. `i32::abs` overflows on
/// `i32::MIN`.
#[verifier::external_body]
pub(crate) fn abs(v: IVec4) -> (r: IVec4)
    requires
        v.x != i32::MIN,
        v.y != i32::MIN,
        v.z != i32::MIN,
        v.w != i32::MIN,
    ensures
        r.x == magnitude(v.x as int),
        r.y == magnitude(v.y as int),
        r.z == magnitude(v.z as int),
        r.w == magnitude(v.w as int),
{
    v.abs()
}

/// [`IVec4::signum`]: `-1`, `0` or `1` by the sign of each lane.
#[verifier::external_body]
pub(crate) fn signum(v: IVec4) -> (r: IVec4)
    ensures
        r.x == sign(v.x as int),
        r.y == sign(v.y as int),
        r.z == sign(v.z as int),
        r.w == sign(v.w as int),
{
    v.signum()
}

/// [`IVec4::is_negative_bitmask`]: bit `i` is set where lane `i` is negative;
/// the bits are distinct, so their union is their sum.
#[verifier::external_body]
pub(crate) fn is_negative_bitmask(v: IVec4) -> (r: u32)
    ensures
        r == (if v.x < 0 {
            1int
        } else {
            0int
        }) + (if v.y < 0 {
            2int
        } else {
            0int
        }) + (if v.z < 0 {
            4int
        } else {
            0int
        }) + (if v.w < 0 {
            8int
        } else {
            0int
        }),
{
    v.is_negative_bitmask()
}

/// [`IVec4::distance_squared`]: `(a - b).length_squared()`, in `i32`: no
/// difference, product or sum on the way may overflow.
#[verifier::external_body]
pub(crate) fn distance_squared(a: IVec4, b: IVec4) -> (r: i32)
    requires
        fits_i32(a.x - b.x),
        fits_i32(a.y - b.y),
        fits_i32(a.z - b.z),
        fits_i32(a.w - b.w),
        fits_i32((a.x - b.x) * (a.x - b.x)),
        fits_i32((a.y - b.y) * (a.y - b.y)),
        fits_i32((a.x - b.x) * (a.x - b.x) + (a.y - b.y) * (a.y - b.y)),
        fits_i32((a.z - b.z) * (a.z - b.z)),
        fits_i32(
            (a.x - b.x) * (a.x - b.x) + (a.y - b.y) * (a.y - b.y)
                + (a.z - b.z) * (a.z - b.z),
        ),
        fits_i32((a.w - b.w) * (a.w - b.w)),
        fits_i32(
            (a.x - b.x) * (a.x - b.x) + (a.y - b.y) * (a.y - b.y)
                + (a.z - b.z) * (a.z - b.z) + (a.w - b.w) * (a.w - b.w),
        ),
    ensures
        r == (a.x - b.x) * (a.x - b.x) + (a.y - b.y) * (a.y - b.y)
            + (a.z - b.z) * (a.z - b.z) + (a.w - b.w) * (a.w - b.w),
{
    a.distance_squared(b)
}

/// [`IVec4::div_euclid`]: the quotient of Euclidean division, lane by lane.
/// `i32::div_euclid` panics on a zero divisor and on `i32::MIN / -1`.
#[verifier::external_body]
pub(crate) fn div_euclid(a: IVec4, b: IVec4) -> (r: IVec4)
    requires
        b.x != 0,
        b.y != 0,
        b.z != 0,
        b.w != 0,
        !(a.x == i32::MIN && b.x == -1),
        !(a.y == i32::MIN && b.y == -1),
        !(a.z == i32::MIN && b.z == -1),
        !(a.w == i32::MIN && b.w == -1),
    ensures
        r.x == (a.x as int) / (b.x as int),
        r.y == (a.y as int) / (b.y as int),
        r.z == (a.z as int) / (b.z as int),
        r.w == (a.w as int) / (b.w as int),
{
    a.div_euclid(b)
}

/// [`IVec4::rem_euclid`]: the remainder of Euclidean division, never negative,
/// lane by lane. `i32::rem_euclid` panics on a zero divisor and on `i32::MIN %
/// -1`.
#[verifier::external_body]
pub(crate) fn rem_euclid(a: IVec4, b: IVec4) -> (r: IVec4)
    requires
        b.x != 0,
        b.y != 0,
        b.z != 0,
        b.w != 0,
        !(a.x == i32::MIN && b.x == -1),
        !(a.y == i32::MIN && b.y == -1),
        !(a.z == i32::MIN && b.z == -1),
        !(a.w == i32::MIN && b.w == -1),
    ensures
        r.x == (a.x as int) % (b.x as int),
        r.y == (a.y as int) % (b.y as int),
        r.z == (a.z as int) % (b.z as int),
        r.w == (a.w as int) % (b.w as int),
{
    a.rem_euclid(b)
}

/// [`IVec4::checked_add`]: the lane-wise sum, and `None` exactly where some
/// lane leaves the range of `i32`.
#[verifier::external_body]
pub(crate) fn checked_add(a: IVec4, b: IVec4) -> (r: Option<IVec4>)
    ensures
        r.is_some() <==> (fits_i32(a.x + b.x)
            && fits_i32(a.y + b.y)
            && fits_i32(a.z + b.z)
            && fits_i32(a.w + b.w)),
        r.is_some() ==> r.unwrap().x == a.x + b.x,
        r.is_some() ==> r.unwrap().y == a.y + b.y,
        r.is_some() ==> r.unwrap().z == a.z + b.z,
        r.is_some() ==> r.unwrap().w == a.w + b.w,
{
    a.checked_add(b)
}

/// [`IVec4::checked_sub`]: the lane-wise difference, and `None` exactly where
/// some lane leaves the range of `i32`.
#[verifier::external_body]
pub(crate) fn checked_sub(a: IVec4, b: IVec4) -> (r: Option<IVec4>)
    ensures
        r.is_some() <==> (fits_i32(a.x - b.x)
            && fits_i32(a.y - b.y)
            && fits_i32(a.z - b.z)
            && fits_i32(a.w - b.w)),
        r.is_some() ==> r.unwrap().x == a.x - b.x,
        r.is_some() ==> r.unwrap().y == a.y - b.y,
        r.is_some() ==> r.unwrap().z == a.z - b.z,
        r.is_some() ==> r.unwrap().w == a.w - b.w,
{
    a.checked_sub(b)
}

/// [`IVec4::checked_mul`]: the lane-wise product, and `None` exactly where some
/// lane leaves the range of `i32`.
#[verifier::external_body]
pub(crate) fn checked_mul(a: IVec4, b: IVec4) -> (r: Option<IVec4>)
    ensures
        r.is_some() <==> (fits_i32(a.x * b.x)
            && fits_i32(a.y * b.y)
            && fits_i32(a.z * b.z)
            && fits_i32(a.w * b.w)),
        r.is_some() ==> r.unwrap().x == a.x * b.x,
        r.is_some() ==> r.unwrap().y == a.y * b.y,
        r.is_some() ==> r.unwrap().z == a.z * b.z,
        r.is_some() ==> r.unwrap().w == a.w * b.w,
{
    a.checked_mul(b)
}

/// [`IVec4::checked_div`]: the lane-wise quotient rounded towards zero, and
/// `None` exactly where some lane leaves the range of `i32`. `None` also where
/// a lane of `b` is zero.
#[verifier::external_body]
pub(crate) fn checked_div(a: IVec4, b: IVec4) -> (r: Option<IVec4>)
    ensures
        r.is_some() <==> (b.x != 0
            && b.y != 0
            && b.z != 0
            && b.w != 0
            && fits_i32(trunc_div(a.x as int, b.x as int))
            && fits_i32(trunc_div(a.y as int, b.y as int))
            && fits_i32(trunc_div(a.z as int, b.z as int))
            && fits_i32(trunc_div(a.w as int, b.w as int))),
        r.is_some() ==> r.unwrap().x == trunc_div(a.x as int, b.x as int),
        r.is_some() ==> r.unwrap().y == trunc_div(a.y as int, b.y as int),
        r.is_some() ==> r.unwrap().z == trunc_div(a.z as int, b.z as int),
        r.is_some() ==> r.unwrap().w == trunc_div(a.w as int, b.w as int),
{
    a.checked_div(b)
}

/// [`IVec4::wrapping_add`]: the lane-wise sum, wrapped into the range of `i32`.
#[verifier::external_body]
pub(crate) fn wrapping_add(a: IVec4, b: IVec4) -> (r: IVec4)
    ensures
        r.x == wrap_i32(a.x + b.x),
        r.y == wrap_i32(a.y + b.y),
        r.z == wrap_i32(a.z + b.z),
        r.w == wrap_i32(a.w + b.w),
{
    a.wrapping_add(b)
}

/// [`IVec4::wrapping_sub`]: the lane-wise difference, wrapped into the range of
/// `i32`.
#[verifier::external_body]
pub(crate) fn wrapping_sub(a: IVec4, b: IVec4) -> (r: IVec4)
    ensures
        r.x == wrap_i32(a.x - b.x),
        r.y == wrap_i32(a.y - b.y),
        r.z == wrap_i32(a.z - b.z),
        r.w == wrap_i32(a.w - b.w),
{
    a.wrapping_sub(b)
}

/// [`IVec4::wrapping_mul`]: the lane-wise product, wrapped into the range of
/// `i32`.
#[verifier::external_body]
pub(crate) fn wrapping_mul(a: IVec4, b: IVec4) -> (r: IVec4)
    ensures
        r.x == wrap_i32(a.x * b.x),
        r.y == wrap_i32(a.y * b.y),
        r.z == wrap_i32(a.z * b.z),
        r.w == wrap_i32(a.w * b.w),
{
    a.wrapping_mul(b)
}

/// [`IVec4::wrapping_div`]: the lane-wise quotient rounded towards zero,
/// wrapped into the range of `i32`. `i32::wrapping_div` panics on a zero
/// divisor.
#[verifier::external_body]
pub(crate) fn wrapping_div(a: IVec4, b: IVec4) -> (r: IVec4)
    requires
        b.x != 0,
        b.y != 0,
        b.z != 0,
        b.w != 0,
    ensures
        r.x == wrap_i32(trunc_div(a.x as int, b.x as int)),
        r.y == wrap_i32(trunc_div(a.y as int, b.y as int)),
        r.z == wrap_i32(trunc_div(a.z as int, b.z as int)),
        r.w == wrap_i32(trunc_div(a.w as int, b.w as int)),
{
    a.wrapping_div(b)
}

/// [`IVec4::saturating_add`]: the lane-wise sum, saturated to the range of
/// `i32`.
#[verifier::external_body]
pub(crate) fn saturating_add(a: IVec4, b: IVec4) -> (r: IVec4)
    ensures
        r.x == sat_i32(a.x + b.x),
        r.y == sat_i32(a.y + b.y),
        r.z == sat_i32(a.z + b.z),
        r.w == sat_i32(a.w + b.w),
{
    a.saturating_add(b)
}

/// [`IVec4::saturating_sub`]: the lane-wise difference, saturated to the range
/// of `i32`.
#[verifier::external_body]
pub(crate) fn saturating_sub(a: IVec4, b: IVec4) -> (r: IVec4)
    ensures
        r.x == sat_i32(a.x - b.x),
        r.y == sat_i32(a.y - b.y),
        r.z == sat_i32(a.z - b.z),
        r.w == sat_i32(a.w - b.w),
{
    a.saturating_sub(b)
}

/// [`IVec4::saturating_mul`]: the lane-wise product, saturated to the range of
/// `i32`.
#[verifier::external_body]
pub(crate) fn saturating_mul(a: IVec4, b: IVec4) -> (r: IVec4)
    ensures
        r.x == sat_i32(a.x * b.x),
        r.y == sat_i32(a.y * b.y),
        r.z == sat_i32(a.z * b.z),
        r.w == sat_i32(a.w * b.w),
{
    a.saturating_mul(b)
}

/// [`IVec4::saturating_div`]: the lane-wise quotient rounded towards zero,
/// saturated to the range of `i32`. `i32::saturating_div` panics on a zero
/// divisor.
#[verifier::external_body]
pub(crate) fn saturating_div(a: IVec4, b: IVec4) -> (r: IVec4)
    requires
        b.x != 0,
        b.y != 0,
        b.z != 0,
        b.w != 0,
    ensures
        r.x == sat_i32(trunc_div(a.x as int, b.x as int)),
        r.y == sat_i32(trunc_div(a.y as int, b.y as int)),
        r.z == sat_i32(trunc_div(a.z as int, b.z as int)),
        r.w == sat_i32(trunc_div(a.w as int, b.w as int)),
{
    a.saturating_div(b)
}

/// [`IVec4::manhattan_distance`]: the distances between the lanes, added in
/// `u32`: the sum may not overflow.
#[verifier::external_body]
pub(crate) fn manhattan_distance(a: IVec4, b: IVec4) -> (r: u32)
    requires
        fits_u32(
            gap(a.x as int, b.x as int) + gap(a.y as int, b.y as int)
                + gap(a.z as int, b.z as int) + gap(a.w as int, b.w as int),
        ),
    ensures
        r == gap(a.x as int, b.x as int) + gap(a.y as int, b.y as int)
            + gap(a.z as int, b.z as int) + gap(a.w as int, b.w as int),
{
    a.manhattan_distance(b)
}

/// [`IVec4::checked_manhattan_distance`]: the distances between the lanes added
/// in `u32`, and `None` exactly where the sum overflows.
#[verifier::external_body]
pub(crate) fn checked_manhattan_distance(a: IVec4, b: IVec4) -> (r: Option<u32>)
    ensures
        r.is_some() <==> fits_u32(
            gap(a.x as int, b.x as int) + gap(a.y as int, b.y as int)
                + gap(a.z as int, b.z as int) + gap(a.w as int, b.w as int),
        ),
        r.is_some() ==> r.unwrap() == gap(a.x as int, b.x as int) + gap(a.y as int, b.y as int)
            + gap(a.z as int, b.z as int) + gap(a.w as int, b.w as int),
{
    a.checked_manhattan_distance(b)
}

/// [`IVec4::chebyshev_distance`]: the greatest distance between a lane of `a`
/// and that of `b`.
#[verifier::external_body]
pub(crate) fn chebyshev_distance(a: IVec4, b: IVec4) -> (r: u32)
    ensures
        r == max2(
            max2(gap(a.x as int, b.x as int), gap(a.y as int, b.y as int)),
            max2(gap(a.z as int, b.z as int), gap(a.w as int, b.w as int)),
        ),
{
    a.chebyshev_distance(b)
}

} // verus!
