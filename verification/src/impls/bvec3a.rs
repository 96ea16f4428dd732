//! The boolean vector traits for `glam::BVec3A`.

use crate::bvec::{BVec, GBVec, GBVec3};
use crate::glam_api::bvec3a;
use crate::lanes::BoolLanes;
use crate::math::{any_lane, every_lane, true_bits};
use crate::private::Sealed;
use glam::BVec3A;
use vstd::prelude::*;

verus! {

impl Sealed for BVec3A {
}

impl BoolLanes for BVec3A {
    open spec fn dim() -> nat {
        3
    }

    open spec fn lanes(self) -> Seq<bool> {
        seq![
            bvec3a::bvec3a_lanes(self)[0],
            bvec3a::bvec3a_lanes(self)[1],
            bvec3a::bvec3a_lanes(self)[2],
        ]
    }

    proof fn lanes_len(self) {
    }
}

impl BVec for BVec3A {
    type Array = [bool; 3];

    const DIM: usize = 3;

    open spec fn array_lanes(a: [bool; 3]) -> Seq<bool> {
        a@
    }

    proof fn dim_is_const() {
    }

    fn all_false() -> (r: Self) {
        bvec3a::splat(false)
    }

    fn all_true() -> (r: Self) {
        bvec3a::splat(true)
    }

    fn splat(v: bool) -> (r: Self) {
        bvec3a::splat(v)
    }

    fn from_array(a: [bool; 3]) -> (r: Self) {
        bvec3a::from_array(a)
    }

    fn bitmask(self) -> (r: u32) {
        proof {
            reveal_with_fuel(true_bits, 4);
        }
        bvec3a::bitmask(self)
    }

    fn any(self) -> (r: bool) {
        proof {
            reveal_with_fuel(any_lane, 4);
        }
        bvec3a::any(self)
    }

    fn all(self) -> (r: bool) {
        proof {
            reveal_with_fuel(every_lane, 4);
        }
        bvec3a::all(self)
    }

    fn test(&self, index: usize) -> (r: bool) {
        bvec3a::test(self, index)
    }

    fn set(&mut self, index: usize, value: bool) {
        bvec3a::set(self, index, value)
    }
}

impl GBVec for BVec3A {
    const DIM: usize = 3;

    proof fn dim_is_const() {
    }

    fn all_false() -> (r: Self) {
        bvec3a::splat(false)
    }

    fn all_true() -> (r: Self) {
        bvec3a::splat(true)
    }

    fn splat(v: bool) -> (r: Self) {
        bvec3a::splat(v)
    }

    fn bitmask(self) -> (r: u32) {
        proof {
            reveal_with_fuel(true_bits, 4);
        }
        bvec3a::bitmask(self)
    }

    fn any(self) -> (r: bool) {
        proof {
            reveal_with_fuel(any_lane, 4);
        }
        bvec3a::any(self)
    }

    fn all(self) -> (r: bool) {
        proof {
            reveal_with_fuel(every_lane, 4);
        }
        bvec3a::all(self)
    }

    fn test(&self, index: usize) -> (r: bool) {
        bvec3a::test(self, index)
    }

    fn set(&mut self, index: usize, value: bool) {
        bvec3a::set(self, index, value)
    }
}

impl GBVec3 for BVec3A {
    proof fn dim_is_three() {
    }

    fn all_false() -> (r: Self) {
        bvec3a::splat(false)
    }

    fn all_true() -> (r: Self) {
        bvec3a::splat(true)
    }

    fn splat(v: bool) -> (r: Self) {
        bvec3a::splat(v)
    }

    fn bitmask(self) -> (r: u32) {
        proof {
            reveal_with_fuel(true_bits, 4);
        }
        bvec3a::bitmask(self)
    }

    fn any(self) -> (r: bool) {
        proof {
            reveal_with_fuel(any_lane, 4);
        }
        bvec3a::any(self)
    }

    fn all(self) -> (r: bool) {
        proof {
            reveal_with_fuel(every_lane, 4);
        }
        bvec3a::all(self)
    }

    fn test(&self, index: usize) -> (r: bool) {
        bvec3a::test(self, index)
    }

    fn set(&mut self, index: usize, value: bool) {
        bvec3a::set(self, index, value)
    }

    fn new(x: bool, y: bool, z: bool) -> (r: Self) {
        bvec3a::new(x, y, z)
    }
}

} // verus!
