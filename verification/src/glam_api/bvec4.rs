//! What this crate takes from `glam::BVec4`.
//!
//! Each function here calls one function of `glam` and states, unproved, what
//! that function does, as its source shows it.

use glam::BVec4;
use vstd::prelude::*;

verus! {

/// `glam::BVec4`, whose lanes are public fields.
#[verifier::external_type_specification]
pub struct ExBVec4(BVec4);

/// [`BVec4::new`]: the mask with the given lanes.
#[verifier::external_body]
pub(crate) fn new(x: bool, y: bool, z: bool, w: bool) -> (r: BVec4)
    ensures
        r.x == x,
        r.y == y,
        r.z == z,
        r.w == w,
{
    BVec4::new(x, y, z, w)
}

/// [`BVec4::splat`]: every lane is `v`.
#[verifier::external_body]
pub(crate) fn splat(v: bool) -> (r: BVec4)
    ensures
        r.x == v,
        r.y == v,
        r.z == v,
        r.w == v,
{
    BVec4::splat(v)
}

/// [`BVec4::from_array`]: the lanes are the elements of `a` in order.
#[verifier::external_body]
pub(crate) fn from_array(a: [bool; 4]) -> (r: BVec4)
    ensures
        r.x == a@[0],
        r.y == a@[1],
        r.z == a@[2],
        r.w == a@[3],
{
    BVec4::from_array(a)
}

/// [`BVec4::bitmask`]: bit `i` is set where lane `i` is true; the bits are
/// distinct, so their union is their sum.
#[verifier::external_body]
pub(crate) fn bitmask(v: BVec4) -> (r: u32)
    ensures
        r == (if v.x {
            1int
        } else {
            0int
        }) + (if v.y {
            2int
        } else {
            0int
        }) + (if v.z {
            4int
        } else {
            0int
        }) + (if v.w {
            8int
        } else {
            0int
        }),
{
    v.bitmask()
}

/// [`BVec4::any`]: whether some lane is true.
#[verifier::external_body]
pub(crate) fn any(v: BVec4) -> (r: bool)
    ensures
        r == (v.x || v.y || v.z || v.w),
{
    v.any()
}

/// [`BVec4::all`]: whether every lane is true.
#[verifier::external_body]
pub(crate) fn all(v: BVec4) -> (r: bool)
    ensures
        r == (v.x && v.y && v.z && v.w),
{
    v.all()
}

/// [`BVec4::test`]: the lane at `index`; it panics on an index past the last
/// lane.
#[verifier::external_body]
pub(crate) fn test(v: &BVec4, index: usize) -> (r: bool)
    requires
        index < 4,
    ensures
        index == 0 ==> r == v.x,
        index == 1 ==> r == v.y,
        index == 2 ==> r == v.z,
        index == 3 ==> r == v.w,
{
    v.test(index)
}

/// [`BVec4::set`]: sets the lane at `index` and leaves the others; it panics on
/// an index past the last lane.
#[verifier::external_body]
pub(crate) fn set(v: &mut BVec4, index: usize, value: bool)
    requires
        index < 4,
    ensures
        final(v).x == (if index == 0 {
            value
        } else {
            old(v).x
        }),
        final(v).y == (if index == 1 {
            value
        } else {
            old(v).y
        }),
        final(v).z == (if index == 2 {
            value
        } else {
            old(v).z
        }),
        final(v).w == (if index == 3 {
            value
        } else {
            old(v).w
        }),
{
    v.set(index, value)
}

} // verus!
