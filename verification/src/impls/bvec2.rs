//! The boolean vector traits for `glam::BVec2`.

use crate::bvec::{BVec, GBVec};
use crate::glam_api::bvec2;
use crate::lanes::BoolLanes;
use crate::math::{any_lane, every_lane, true_bits};
use crate::private::Sealed;
use glam::BVec2;
use vstd::prelude::*;

verus! {

impl Sealed for BVec2 {
}

impl BoolLanes for BVec2 {
    open spec fn dim() -> nat {
        2
    }

    open spec fn lanes(self) -> Seq<bool> {
        seq![self.x, self.y]
    }

    proof fn lanes_len(self) {
    }
}

impl BVec for BVec2 {
    type Array = [bool; 2];

    const DIM: usize = 2;

    open spec fn array_lanes(a: [bool; 2]) -> Seq<bool> {
        a@
    }

    proof fn dim_is_const() {
    }

    fn all_false() -> (r: Self) {
        bvec2::splat(false)
    }

    fn all_true() -> (r: Self) {
        bvec2::splat(true)
    }

    fn splat(v: bool) -> (r: Self) {
        bvec2::splat(v)
    }

    fn from_array(a: [bool; 2]) -> (r: Self) {
        bvec2::from_array(a)
    }

    fn bitmask(self) -> (r: u32) {
        proof {
            reveal_with_fuel(true_bits, 3);
        }
        bvec2::bitmask(self)
    }

    fn any(self) -> (r: bool) {
        proof {
            reveal_with_fuel(any_lane, 3);
        }
        bvec2::any(self)
    }

    fn all(self) -> (r: bool) {
        proof {
            reveal_with_fuel(every_lane, 3);
        }
        bvec2::all(self)
    }

    fn test(&self, index: usize) -> (r: bool) {
        bvec2::test(self, index)
    }

    fn set(&mut self, index: usize, value: bool) {
        bvec2::set(self, index, value)
    }
}

impl GBVec for BVec2 {
    const DIM: usize = 2;

    proof fn dim_is_const() {
    }

    fn all_false() -> (r: Self) {
        bvec2::splat(false)
    }

    fn all_true() -> (r: Self) {
        bvec2::splat(true)
    }

    fn splat(v: bool) -> (r: Self) {
        bvec2::splat(v)
    }

    fn bitmask(self) -> (r: u32) {
        proof {
            reveal_with_fuel(true_bits, 3);
        }
        bvec2::bitmask(self)
    }

    fn any(self) -> (r: bool) {
        proof {
            reveal_with_fuel(any_lane, 3);
        }
        bvec2::any(self)
    }

    fn all(self) -> (r: bool) {
        proof {
            reveal_with_fuel(every_lane, 3);
        }
        bvec2::all(self)
    }

    fn test(&self, index: usize) -> (r: bool) {
        bvec2::test(self, index)
    }

    fn set(&mut self, index: usize, value: bool) {
        bvec2::set(self, index, value)
    }
}

} // verus!
