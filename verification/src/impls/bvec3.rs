//! The boolean vector traits for `glam::BVec3`.

use crate::bvec::{BVec, GBVec, GBVec3};
use crate::glam_api::bvec3;
use crate::lanes::BoolLanes;
use crate::math::{any_lane, every_lane, true_bits};
use crate::private::Sealed;
use glam::BVec3;
use vstd::prelude::*;

verus! {

impl Sealed for BVec3 {
}

impl BoolLanes for BVec3 {
    open spec fn dim() -> nat {
        3
    }

    open spec fn lanes(self) -> Seq<bool> {
        seq![self.x, self.y, self.z]
    }

    proof fn lanes_len(self) {
    }
}

impl BVec for BVec3 {
    type Array = [bool; 3];

    const DIM: usize = 3;

    open spec fn array_lanes(a: [bool; 3]) -> Seq<bool> {
        a@
    }

    proof fn dim_is_const() {
    }

    fn all_false() -> (r: Self) {
        bvec3::splat(false)
    }

    fn all_true() -> (r: Self) {
        bvec3::splat(true)
    }

    fn splat(v: bool) -> (r: Self) {
        bvec3::splat(v)
    }

    fn from_array(a: [bool; 3]) -> (r: Self) {
        bvec3::from_array(a)
    }

    fn bitmask(self) -> (r: u32) {
        proof {
            reveal_with_fuel(true_bits, 4);
        }
        bvec3::bitmask(self)
    }

    fn any(self) -> (r: bool) {
        proof {
            reveal_with_fuel(any_lane, 4);
        }
        bvec3::any(self)
    }

    fn all(self) -> (r: bool) {
        proof {
            reveal_with_fuel(every_lane, 4);
        }
        bvec3::all(self)
    }

    fn test(&self, index: usize) -> (r: bool) {
        bvec3::test(self, index)
    }

    fn set(&mut self, index: usize, value: bool) {
        bvec3::set(self, index, value)
    }
}

impl GBVec for BVec3 {
    const DIM: usize = 3;

    proof fn dim_is_const() {
    }

    fn all_false() -> (r: Self) {
        bvec3::splat(false)
    }

    fn all_true() -> (r: Self) {
        bvec3::splat(true)
    }

    fn splat(v: bool) -> (r: Self) {
        bvec3::splat(v)
    }

    fn bitmask(self) -> (r: u32) {
        proof {
            reveal_with_fuel(true_bits, 4);
        }
        bvec3::bitmask(self)
    }

    fn any(self) -> (r: bool) {
        proof {
            reveal_with_fuel(any_lane, 4);
        }
        bvec3::any(self)
    }

    fn all(self) -> (r: bool) {
        proof {
            reveal_with_fuel(every_lane, 4);
        }
        bvec3::all(self)
    }

    fn test(&self, index: usize) -> (r: bool) {
        bvec3::test(self, index)
    }

    fn set(&mut self, index: usize, value: bool) {
        bvec3::set(self, index, value)
    }
}

impl GBVec3 for BVec3 {
    proof fn dim_is_three() {
    }

    fn all_false() -> (r: Self) {
        bvec3::splat(false)
    }

    fn all_true() -> (r: Self) {
        bvec3::splat(true)
    }

    fn splat(v: bool) -> (r: Self) {
        bvec3::splat(v)
    }

    fn bitmask(self) -> (r: u32) {
        proof {
            reveal_with_fuel(true_bits, 4);
        }
        bvec3::bitmask(self)
    }

    fn any(self) -> (r: bool) {
        proof {
            reveal_with_fuel(any_lane, 4);
        }
        bvec3::any(self)
    }

    fn all(self) -> (r: bool) {
        proof {
            reveal_with_fuel(every_lane, 4);
        }
        bvec3::all(self)
    }

    fn test(&self, index: usize) -> (r: bool) {
        bvec3::test(self, index)
    }

    fn set(&mut self, index: usize, value: bool) {
        bvec3::set(self, index, value)
    }

    fn new(x: bool, y: bool, z: bool) -> (r: Self) {
        bvec3::new(x, y, z)
    }
}

} // verus!
