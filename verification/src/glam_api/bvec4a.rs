//! What this crate takes from `glam::BVec4A`.
//!
//! Each function here calls one function of `glam` and states, unproved, what
//! that function does, as its source shows it.

use glam::BVec4A;
use vstd::prelude::*;

verus! {

/// `glam::BVec4A`, a mask that the processor holds in one register. Its lanes
/// are not fields: they are read through [`bvec4a_lanes`].
#[verifier::external_type_specification]
#[verifier::external_body]
pub struct ExBVec4A(BVec4A);

/// The lanes of a `BVec4A`, `x` first: what `test` reads at the indices below 4.
pub uninterp spec fn bvec4a_lanes(v: BVec4A) -> Seq<bool>;

/// [`BVec4A::new`]: the mask with the given lanes.
#[verifier::external_body]
pub(crate) fn new(x: bool, y: bool, z: bool, w: bool) -> (r: BVec4A)
    ensures
        bvec4a_lanes(r)[0] == x,
        bvec4a_lanes(r)[1] == y,
        bvec4a_lanes(r)[2] == z,
        bvec4a_lanes(r)[3] == w,
{
    BVec4A::new(x, y, z, w)
}

/// [`BVec4A::splat`]: every lane is `v`.
#[verifier::external_body]
pub(crate) fn splat(v: bool) -> (r: BVec4A)
    ensures
        bvec4a_lanes(r)[0] == v,
        bvec4a_lanes(r)[1] == v,
        bvec4a_lanes(r)[2] == v,
        bvec4a_lanes(r)[3] == v,
{
    BVec4A::splat(v)
}

/// [`BVec4A::from_array`]: the lanes are the elements of `a` in order.
#[verifier::external_body]
pub(crate) fn from_array(a: [bool; 4]) -> (r: BVec4A)
    ensures
        bvec4a_lanes(r)[0] == a@[0],
        bvec4a_lanes(r)[1] == a@[1],
        bvec4a_lanes(r)[2] == a@[2],
        bvec4a_lanes(r)[3] == a@[3],
{
    BVec4A::from_array(a)
}

/// [`BVec4A::bitmask`]: bit `i` is set where lane `i` is true; the bits are
/// distinct, so their union is their sum.
#[verifier::external_body]
pub(crate) fn bitmask(v: BVec4A) -> (r: u32)
    ensures
        r == (if bvec4a_lanes(v)[0] {
            1int
        } else {
            0int
        }) + (if bvec4a_lanes(v)[1] {
            2int
        } else {
            0int
        }) + (if bvec4a_lanes(v)[2] {
            4int
        } else {
            0int
        }) + (if bvec4a_lanes(v)[3] {
            8int
        } else {
            0int
        }),
{
    v.bitmask()
}

/// [`BVec4A::any`]: whether some lane is true.
#[verifier::external_body]
pub(crate) fn any(v: BVec4A) -> (r: bool)
    ensures
        r == (bvec4a_lanes(v)[0] || bvec4a_lanes(v)[1] || bvec4a_lanes(v)[2] || bvec4a_lanes(v)[3]),
{
    v.any()
}

/// [`BVec4A::all`]: whether every lane is true.
#[verifier::external_body]
pub(crate) fn all(v: BVec4A) -> (r: bool)
    ensures
        r == (bvec4a_lanes(v)[0] && bvec4a_lanes(v)[1] && bvec4a_lanes(v)[2] && bvec4a_lanes(v)[3]),
{
    v.all()
}

/// [`BVec4A::test`]: the lane at `index`; it panics on an index past the last
/// lane.
#[verifier::external_body]
pub(crate) fn test(v: &BVec4A, index: usize) -> (r: bool)
    requires
        index < 4,
    ensures
        index == 0 ==> r == bvec4a_lanes(*v)[0],
        index == 1 ==> r == bvec4a_lanes(*v)[1],
        index == 2 ==> r == bvec4a_lanes(*v)[2],
        index == 3 ==> r == bvec4a_lanes(*v)[3],
{
    v.test(index)
}

/// [`BVec4A::set`]: sets the lane at `index` and leaves the others; it panics
/// on an index past the last lane.
#[verifier::external_body]
pub(crate) fn set(v: &mut BVec4A, index: usize, value: bool)
    requires
        index < 4,
    ensures
        bvec4a_lanes(*final(v))[0] == (if index == 0 {
            value
        } else {
            bvec4a_lanes(*old(v))[0]
        }),
        bvec4a_lanes(*final(v))[1] == (if index == 1 {
            value
        } else {
            bvec4a_lanes(*old(v))[1]
        }),
        bvec4a_lanes(*final(v))[2] == (if index == 2 {
            value
        } else {
            bvec4a_lanes(*old(v))[2]
        }),
        bvec4a_lanes(*final(v))[3] == (if index == 3 {
            value
        } else {
            bvec4a_lanes(*old(v))[3]
        }),
{
    v.set(index, value)
}

} // verus!
