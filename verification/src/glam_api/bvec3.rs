//! What this crate takes from `glam::BVec3`.
//!
//! Each function here calls one function of `glam` and states, unproved, what
//! that function does, as its source shows it.

use glam::BVec3;
use vstd::prelude::*;

verus! {

/// `glam::BVec3`, whose lanes are public fields.
#[verifier::external_type_specification]
pub struct ExBVec3(BVec3);

/// [`BVec3::new`]: the mask with the given lanes.
#[verifier::external_body]
pub(crate) fn new(x: bool, y: bool, z: bool) -> (r: BVec3)
    ensures
        r.x == x,
        r.y == y,
        r.z == z,
{
    BVec3::new(x, y, z)
}

/// [`BVec3::splat`]: every lane is `v`.
#[verifier::external_body]
pub(crate) fn splat(v: bool) -> (r: BVec3)
    ensures
        r.x == v,
        r.y == v,
        r.z == v,
{
    BVec3::splat(v)
}

/// [`BVec3::from_array`]: the lanes are the elements of `a` in order.
#[verifier::external_body]
pub(crate) fn from_array(a: [bool; 3]) -> (r: BVec3)
    ensures
        r.x == a@[0],
        r.y == a@[1],
        r.z == a@[2],
{
    BVec3::from_array(a)
}

/// [`BVec3::bitmask`]: bit `i` is set where lane `i` is true; the bits are
/// distinct, so their union is their sum.
#[verifier::external_body]
pub(crate) fn bitmask(v: BVec3) -> (r: u32)
    ensures
        r == (if v.x {
            1int
        } else {
            0int
        }) + (if v.y {
            2int
        } else {
            0int
        }) + (if v.z {
            4int
        } else {
            0int
        }),
{
    v.bitmask()
}

/// [`BVec3::any`]: whether some lane is true.
#[verifier::external_body]
pub(crate) fn any(v: BVec3) -> (r: bool)
    ensures
        r == (v.x || v.y || v.z),
{
    v.any()
}

/// [`BVec3::all`]: whether every lane is true.
#[verifier::external_body]
pub(crate) fn all(v: BVec3) -> (r: bool)
    ensures
        r == (v.x && v.y && v.z),
{
    v.all()
}

/// [`BVec3::test`]: the lane at `index`; it panics on an index past the last
/// lane.
#[verifier::external_body]
pub(crate) fn test(v: &BVec3, index: usize) -> (r: bool)
    requires
        index < 3,
    ensures
        index == 0 ==> r == v.x,
        index == 1 ==> r == v.y,
        index == 2 ==> r == v.z,
{
    v.test(index)
}

/// [`BVec3::set`]: sets the lane at `index` and leaves the others; it panics on
/// an index past the last lane.
#[verifier::external_body]
pub(crate) fn set(v: &mut BVec3, index: usize, value: bool)
    requires
        index < 3,
    ensures
        final(v).x == (if index == 0 {
            value
        } else {
            old(v).x
        }),
        final(v).y == (if index == 1 {
            value
        } else {
            old(v).y
        }),
        final(v).z == (if index == 2 {
            value
        } else {
            old(v).z
        }),
{
    v.set(index, value)
}

} // verus!
