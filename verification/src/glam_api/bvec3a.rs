//! What this crate takes from `glam::BVec3A`.
//!
//! Each function here calls one function of `glam` and states, unproved, what
//! that function does, as its source shows it.

use glam::BVec3A;
use vstd::prelude::*;

verus! {

/// `glam::BVec3A`, a mask that the processor holds in one register. Its lanes
/// are not fields: they are read through [`bvec3a_lanes`].
#[verifier::external_type_specification]
#[verifier::external_body]
pub struct ExBVec3A(BVec3A);

/// The lanes of a `BVec3A`, `x` first: what `test` reads at the indices below 3.
pub uninterp spec fn bvec3a_lanes(v: BVec3A) -> Seq<bool>;

/// [`BVec3A::new`]: the mask with the given lanes.
#[verifier::external_body]
pub(crate) fn new(x: bool, y: bool, z: bool) -> (r: BVec3A)
    ensures
        bvec3a_lanes(r)[0] == x,
        bvec3a_lanes(r)[1] == y,
        bvec3a_lanes(r)[2] == z,
{
    BVec3A::new(x, y, z)
}

/// [`BVec3A::splat`]: every lane is `v`.
#[verifier::external_body]
pub(crate) fn splat(v: bool) -> (r: BVec3A)
    ensures
        bvec3a_lanes(r)[0] == v,
        bvec3a_lanes(r)[1] == v,
        bvec3a_lanes(r)[2] == v,
{
    BVec3A::splat(v)
}

/// [`BVec3A::from_array`]: the lanes are the elements of `a` in order.
#[verifier::external_body]
pub(crate) fn from_array(a: [bool; 3]) -> (r: BVec3A)
    ensures
        bvec3a_lanes(r)[0] == a@[0],
        bvec3a_lanes(r)[1] == a@[1],
        bvec3a_lanes(r)[2] == a@[2],
{
    BVec3A::from_array(a)
}

/// [`BVec3A::bitmask`]: bit `i` is set where lane `i` is true; the bits are
/// distinct, so their union is their sum.
#[verifier::external_body]
pub(crate) fn bitmask(v: BVec3A) -> (r: u32)
    ensures
        r == (if bvec3a_lanes(v)[0] {
            1int
        } else {
            0int
        }) + (if bvec3a_lanes(v)[1] {
            2int
        } else {
            0int
        }) + (if bvec3a_lanes(v)[2] {
            4int
        } else {
            0int
        }),
{
    v.bitmask()
}

/// [`BVec3A::any`]: whether some lane is true.
#[verifier::external_body]
pub(crate) fn any(v: BVec3A) -> (r: bool)
    ensures
        r == (bvec3a_lanes(v)[0] || bvec3a_lanes(v)[1] || bvec3a_lanes(v)[2]),
{
    v.any()
}

/// [`BVec3A::all`]: whether every lane is true.
#[verifier::external_body]
pub(crate) fn all(v: BVec3A) -> (r: bool)
    ensures
        r == (bvec3a_lanes(v)[0] && bvec3a_lanes(v)[1] && bvec3a_lanes(v)[2]),
{
    v.all()
}

/// [`BVec3A::test`]: the lane at `index`; it panics on an index past the last
/// lane.
#[verifier::external_body]
pub(crate) fn test(v: &BVec3A, index: usize) -> (r: bool)
    requires
        index < 3,
    ensures
        index == 0 ==> r == bvec3a_lanes(*v)[0],
        index == 1 ==> r == bvec3a_lanes(*v)[1],
        index == 2 ==> r == bvec3a_lanes(*v)[2],
{
    v.test(index)
}

/// [`BVec3A::set`]: sets the lane at `index` and leaves the others; it panics
/// on an index past the last lane.
#[verifier::external_body]
pub(crate) fn set(v: &mut BVec3A, index: usize, value: bool)
    requires
        index < 3,
    ensures
        bvec3a_lanes(*final(v))[0] == (if index == 0 {
            value
        } else {
            bvec3a_lanes(*old(v))[0]
        }),
        bvec3a_lanes(*final(v))[1] == (if index == 1 {
            value
        } else {
            bvec3a_lanes(*old(v))[1]
        }),
        bvec3a_lanes(*final(v))[2] == (if index == 2 {
            value
        } else {
            bvec3a_lanes(*old(v))[2]
        }),
{
    v.set(index, value)
}

} // verus!
