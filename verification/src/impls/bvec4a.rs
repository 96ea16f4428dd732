//! The boolean vector traits for `glam::BVec4A`.

use crate::bvec::{BVec, GBVec, GBVec4};
use crate::glam_api::bvec4a;
use crate::lanes::BoolLanes;
use crate::math::{any_lane, every_lane, true_bits};
use crate::private::Sealed;
use glam::BVec4A;
use vstd::prelude::*;

verus! {

impl Sealed for BVec4A {
}

impl BoolLanes for BVec4A {
    open spec fn dim() -> nat {
        4
    }

    open spec fn lanes(self) -> Seq<bool> {
        seq![
            bvec4a::bvec4a_lanes(self)[0],
            bvec4a::bvec4a_lanes(self)[1],
            bvec4a::bvec4a_lanes(self)[2],
            bvec4a::bvec4a_lanes(self)[3],
        ]
    }

    proof fn lanes_len(self) {
    }
}

impl BVec for BVec4A {
    type Array = [bool; 4];

    const DIM: usize = 4;

    open spec fn array_lanes(a: [bool; 4]) -> Seq<bool> {
        a@
    }

    proof fn dim_is_const() {
    }

    fn all_false() -> (r: Self) {
        bvec4a::splat(false)
    }

    fn all_true() -> (r: Self) {
        bvec4a::splat(true)
    }

    fn splat(v: bool) -> (r: Self) {
        bvec4a::splat(v)
    }

    fn from_array(a: [bool; 4]) -> (r: Self) {
        bvec4a::from_array(a)
    }

    fn bitmask(self) -> (r: u32) {
        proof {
            reveal_with_fuel(true_bits, 5);
        }
        bvec4a::bitmask(self)
    }

    fn any(self) -> (r: bool) {
        proof {
            reveal_with_fuel(any_lane, 5);
        }
        bvec4a::any(self)
    }

    fn all(self) -> (r: bool) {
        proof {
            reveal_with_fuel(every_lane, 5);
        }
        bvec4a::all(self)
    }

    fn test(&self, index: usize) -> (r: bool) {
        bvec4a::test(self, index)
    }

    fn set(&mut self, index: usize, value: bool) {
        bvec4a::set(self, index, value)
    }
}

impl GBVec for BVec4A {
    const DIM: usize = 4;

    proof fn dim_is_const() {
    }

    fn all_false() -> (r: Self) {
        bvec4a::splat(false)
    }

    fn all_true() -> (r: Self) {
        bvec4a::splat(true)
    }

    fn splat(v: bool) -> (r: Self) {
        bvec4a::splat(v)
    }

    fn bitmask(self) -> (r: u32) {
        proof {
            reveal_with_fuel(true_bits, 5);
        }
        bvec4a::bitmask(self)
    }

    fn any(self) -> (r: bool) {
        proof {
            reveal_with_fuel(any_lane, 5);
        }
        bvec4a::any(self)
    }

    fn all(self) -> (r: bool) {
        proof {
            reveal_with_fuel(every_lane, 5);
        }
        bvec4a::all(self)
    }

    fn test(&self, index: usize) -> (r: bool) {
        bvec4a::test(self, index)
    }

    fn set(&mut self, index: usize, value: bool) {
        bvec4a::set(self, index, value)
    }
}

impl GBVec4 for BVec4A {
    proof fn dim_is_four() {
    }

    fn all_false() -> (r: Self) {
        bvec4a::splat(false)
    }

    fn all_true() -> (r: Self) {
        bvec4a::splat(true)
    }

    fn splat(v: bool) -> (r: Self) {
        bvec4a::splat(v)
    }

    fn bitmask(self) -> (r: u32) {
        proof {
            reveal_with_fuel(true_bits, 5);
        }
        bvec4a::bitmask(self)
    }

    fn any(self) -> (r: bool) {
        proof {
            reveal_with_fuel(any_lane, 5);
        }
        bvec4a::any(self)
    }

    fn all(self) -> (r: bool) {
        proof {
            reveal_with_fuel(every_lane, 5);
        }
        bvec4a::all(self)
    }

    fn test(&self, index: usize) -> (r: bool) {
        bvec4a::test(self, index)
    }

    fn set(&mut self, index: usize, value: bool) {
        bvec4a::set(self, index, value)
    }

    fn new(x: bool, y: bool, z: bool, w: bool) -> (r: Self) {
        bvec4a::new(x, y, z, w)
    }

    fn from_array(a: [bool; 4]) -> (r: Self) {
        bvec4a::from_array(a)
    }
}

} // verus!
