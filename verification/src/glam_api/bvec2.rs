//! What this crate takes from `glam::BVec2`.
//!
//! Each function here calls one function of `glam` and states, unproved, what
//! that function does, as its source shows it.

use glam::BVec2;
use vstd::prelude::*;

verus! {

/// `glam::BVec2`, whose lanes are public fields.
#[verifier::external_type_specification]
pub struct ExBVec2(BVec2);

/// [`BVec2::splat`]: every lane is `v`.
#[verifier::external_body]
pub(crate) fn splat(v: bool) -> (r: BVec2)
    ensures
        r.x == v,
        r.y == v,
{
    BVec2::splat(v)
}

/// [`BVec2::from_array`]: the lanes are the elements of `a` in order.
#[verifier::external_body]
pub(crate) fn from_array(a: [bool; 2]) -> (r: BVec2)
    ensures
        r.x == a@[0],
        r.y == a@[1],
{
    BVec2::from_array(a)
}

/// [`BVec2::bitmask`]: bit `i` is set where lane `i` is true; the bits are
/// distinct, so their union is their sum.
#[verifier::external_body]
pub(crate) fn bitmask(v: BVec2) -> (r: u32)
    ensures
        r == (if v.x {
            1int
        } else {
            0int
        }) + (if v.y {
            2int
        } else {
            0int
        }),
{
    v.bitmask()
}

/// [`BVec2::any`]: whether some lane is true.
#[verifier::external_body]
pub(crate) fn any(v: BVec2) -> (r: bool)
    ensures
        r == (v.x || v.y),
{
    v.any()
}

/// [`BVec2::all`]: whether every lane is true.
#[verifier::external_body]
pub(crate) fn all(v: BVec2) -> (r: bool)
    ensures
        r == (v.x && v.y),
{
    v.all()
}

/// [`BVec2::test`]: the lane at `index`; it panics on an index past the last
/// lane.
#[verifier::external_body]
pub(crate) fn test(v: &BVec2, index: usize) -> (r: bool)
    requires
        index < 2,
    ensures
        index == 0 ==> r == v.x,
        index == 1 ==> r == v.y,
{
    v.test(index)
}

/// [`BVec2::set`]: sets the lane at `index` and leaves the others; it panics on
/// an index past the last lane.
#[verifier::external_body]
pub(crate) fn set(v: &mut BVec2, index: usize, value: bool)
    requires
        index < 2,
    ensures
        final(v).x == (if index == 0 {
            value
        } else {
            old(v).x
        }),
        final(v).y == (if index == 1 {
            value
        } else {
            old(v).y
        }),
{
    v.set(index, value)
}

} // verus!
