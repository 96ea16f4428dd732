//! The vector traits for `glam::UVec2`.

use crate::glam_api::{i16vec2, i64vec2, i8vec2, ivec2, u16vec2, u64vec2, u8vec2, usizevec2, uvec2};
use crate::lanes::IntLanes;
use crate::math::{
    dot_fits, dot_prefix, gap_max, gap_sum, lane_diff, lane_mul, lane_quot, lane_sum, max_prefix,
    min_prefix, product_fits, product_prefix, sum_fits, sum_prefix, trunc_div,
};
use crate::private::Sealed;
use crate::vec::{GVec, IntVec, U32Vec, UIntVec};
use crate::vec2::{GVec2, IntVec2, UIntVec2};
use glam::{
    BVec2, I16Vec2, I64Vec2, I8Vec2, IVec2, U16Vec2, U64Vec2, U8Vec2, USizeVec2, UVec2, UVec3,
};
use vstd::prelude::*;

verus! {

impl Sealed for UVec2 {
}

impl IntLanes for UVec2 {
    open spec fn dim() -> nat {
        2
    }

    open spec fn lanes(self) -> Seq<int> {
        seq![self.x as int, self.y as int]
    }

    proof fn lanes_len(self) {
    }
}

impl GVec for UVec2 {
    type Scalar = u32;

    type BVec = BVec2;

    type Axes = [UVec2; 2];

    type Array = [u32; 2];

    type I8Vec = I8Vec2;

    type U8Vec = U8Vec2;

    type I16Vec = I16Vec2;

    type U16Vec = U16Vec2;

    type I32Vec = IVec2;

    type U32Vec = UVec2;

    type I64Vec = I64Vec2;

    type U64Vec = U64Vec2;

    type USizeVec = USizeVec2;

    const DIM: usize = 2;

    open spec fn lo() -> int {
        u32::MIN as int
    }

    open spec fn hi() -> int {
        u32::MAX as int
    }

    open spec fn val(s: u32) -> int {
        s as int
    }

    open spec fn scalar(v: int) -> u32 {
        v as u32
    }

    open spec fn array_lanes(a: [u32; 2]) -> Seq<int> {
        seq![a@[0] as int, a@[1] as int]
    }

    open spec fn axis_lanes(a: [UVec2; 2], i: int) -> Seq<int> {
        a@[i].lanes()
    }

    proof fn dim_is_const() {
    }

    proof fn lanes_in_range(self) {
    }

    proof fn lanes_decide(self, other: Self) {
        assert(self.lanes()[0] == other.lanes()[0]);
        assert(self.lanes()[1] == other.lanes()[1]);
    }

    proof fn val_of_scalar(s: u32) {
    }

    proof fn scalar_of_val(v: int) {
    }

    fn zero() -> (r: Self) {
        uvec2::splat(0)
    }

    fn one() -> (r: Self) {
        uvec2::splat(1)
    }

    fn min_value() -> (r: Self) {
        uvec2::splat(u32::MIN)
    }

    fn max_value() -> (r: Self) {
        uvec2::splat(u32::MAX)
    }

    fn axes() -> (r: [UVec2; 2]) {
        [uvec2::new(1, 0), uvec2::new(0, 1)]
    }

    fn splat(v: u32) -> (r: Self) {
        uvec2::splat(v)
    }

    fn map<F: Fn(u32) -> u32>(self, f: F) -> (r: Self) {
        proof {
            assert(self.lanes()[0] == self.x);
            assert(self.lanes()[1] == self.y);
        }
        uvec2::map(self, f)
    }

    fn from_array(a: [u32; 2]) -> (r: Self) {
        uvec2::from_array(a)
    }

    fn to_array(&self) -> (r: [u32; 2]) {
        uvec2::to_array(self)
    }

    fn from_slice(slice: &[u32]) -> (r: Self) {
        uvec2::from_slice(slice)
    }

    fn write_to_slice(self, slice: &mut [u32]) {
        uvec2::write_to_slice(self, slice)
    }

    fn lane(&self, index: usize) -> (r: u32) {
        uvec2::lane(self, index)
    }

    fn dot(self, rhs: Self) -> (r: u32) {
        proof {
            reveal_with_fuel(dot_fits, 3);
            reveal_with_fuel(dot_prefix, 3);
        }
        uvec2::dot(self, rhs)
    }

    fn dot_into_vec(self, rhs: Self) -> (r: Self) {
        proof {
            reveal_with_fuel(dot_fits, 3);
            reveal_with_fuel(dot_prefix, 3);
        }
        uvec2::dot_into_vec(self, rhs)
    }

    fn min(self, rhs: Self) -> (r: Self) {
        uvec2::min(self, rhs)
    }

    fn max(self, rhs: Self) -> (r: Self) {
        uvec2::max(self, rhs)
    }

    fn clamp(self, min: Self, max: Self) -> (r: Self) {
        proof {
            assert(min.lanes()[0] <= max.lanes()[0]);
            assert(min.lanes()[1] <= max.lanes()[1]);
        }
        uvec2::clamp(self, min, max)
    }

    fn min_element(self) -> (r: u32) {
        proof {
            reveal_with_fuel(min_prefix, 3);
        }
        uvec2::min_element(self)
    }

    fn max_element(self) -> (r: u32) {
        proof {
            reveal_with_fuel(max_prefix, 3);
        }
        uvec2::max_element(self)
    }

    fn min_position(self) -> (r: usize) {
        uvec2::min_position(self)
    }

    fn max_position(self) -> (r: usize) {
        uvec2::max_position(self)
    }

    fn element_sum(self) -> (r: u32) {
        proof {
            reveal_with_fuel(sum_fits, 3);
            reveal_with_fuel(sum_prefix, 3);
        }
        uvec2::element_sum(self)
    }

    fn element_product(self) -> (r: u32) {
        proof {
            reveal_with_fuel(product_fits, 3);
            reveal_with_fuel(product_prefix, 3);
        }
        uvec2::element_product(self)
    }

    fn select(mask: BVec2, if_true: Self, if_false: Self) -> (r: Self) {
        uvec2::select(mask, if_true, if_false)
    }

    fn cmpeq(self, rhs: Self) -> (r: BVec2) {
        uvec2::cmpeq(self, rhs)
    }

    fn cmpne(self, rhs: Self) -> (r: BVec2) {
        uvec2::cmpne(self, rhs)
    }

    fn cmpge(self, rhs: Self) -> (r: BVec2) {
        uvec2::cmpge(self, rhs)
    }

    fn cmpgt(self, rhs: Self) -> (r: BVec2) {
        uvec2::cmpgt(self, rhs)
    }

    fn cmple(self, rhs: Self) -> (r: BVec2) {
        uvec2::cmple(self, rhs)
    }

    fn cmplt(self, rhs: Self) -> (r: BVec2) {
        uvec2::cmplt(self, rhs)
    }

    fn length_squared(self) -> (r: u32) {
        proof {
            reveal_with_fuel(dot_fits, 3);
            reveal_with_fuel(dot_prefix, 3);
        }
        uvec2::length_squared(self)
    }

    fn as_i8vec(&self) -> (r: I8Vec2) {
        i8vec2::new(#[verifier::truncate] (self.x as i8), #[verifier::truncate] (self.y as i8))
    }

    fn as_u8vec(&self) -> (r: U8Vec2) {
        u8vec2::new(#[verifier::truncate] (self.x as u8), #[verifier::truncate] (self.y as u8))
    }

    fn as_i16vec(&self) -> (r: I16Vec2) {
        i16vec2::new(#[verifier::truncate] (self.x as i16), #[verifier::truncate] (self.y as i16))
    }

    fn as_u16vec(&self) -> (r: U16Vec2) {
        u16vec2::new(#[verifier::truncate] (self.x as u16), #[verifier::truncate] (self.y as u16))
    }

    fn as_ivec(&self) -> (r: IVec2) {
        ivec2::new(#[verifier::truncate] (self.x as i32), #[verifier::truncate] (self.y as i32))
    }

    fn as_uvec(&self) -> (r: UVec2) {
        uvec2::new(self.x, self.y)
    }

    fn as_i64vec(&self) -> (r: I64Vec2) {
        i64vec2::new(#[verifier::truncate] (self.x as i64), #[verifier::truncate] (self.y as i64))
    }

    fn as_u64vec(&self) -> (r: U64Vec2) {
        u64vec2::new(#[verifier::truncate] (self.x as u64), #[verifier::truncate] (self.y as u64))
    }

    fn as_usizevec(&self) -> (r: USizeVec2) {
        usizevec2::new(
            #[verifier::truncate] (self.x as usize),
            #[verifier::truncate] (self.y as usize),
        )
    }
}

impl GVec2 for UVec2 {
    type Extended = UVec3;

    proof fn dim_is_two() {
    }

    fn unit_x() -> (r: Self) {
        uvec2::new(1, 0)
    }

    fn unit_y() -> (r: Self) {
        uvec2::new(0, 1)
    }

    fn x(self) -> (r: u32) {
        self.x
    }

    fn y(self) -> (r: u32) {
        self.y
    }

    fn new(x: u32, y: u32) -> (r: Self) {
        uvec2::new(x, y)
    }

    fn extend(self, z: u32) -> (r: UVec3) {
        uvec2::extend(self, z)
    }

    fn with_x(self, x: u32) -> (r: Self) {
        uvec2::with_x(self, x)
    }

    fn with_y(self, y: u32) -> (r: Self) {
        uvec2::with_y(self, y)
    }
}

impl IntVec for UVec2 {
    type UnsignedScalar = u32;

    open spec fn uval(u: u32) -> int {
        u as int
    }

    proof fn uval_in_range(u: u32) {
    }

    fn checked_add(self, rhs: Self) -> (r: Option<Self>) {
        proof {
            let l = lane_sum(self.lanes(), rhs.lanes());
            assert(l[0] == self.x + rhs.x);
            assert(l[1] == self.y + rhs.y);
        }
        uvec2::checked_add(self, rhs)
    }

    fn checked_sub(self, rhs: Self) -> (r: Option<Self>) {
        proof {
            let l = lane_diff(self.lanes(), rhs.lanes());
            assert(l[0] == self.x - rhs.x);
            assert(l[1] == self.y - rhs.y);
        }
        uvec2::checked_sub(self, rhs)
    }

    fn checked_mul(self, rhs: Self) -> (r: Option<Self>) {
        proof {
            let l = lane_mul(self.lanes(), rhs.lanes());
            assert(l[0] == self.x * rhs.x);
            assert(l[1] == self.y * rhs.y);
        }
        uvec2::checked_mul(self, rhs)
    }

    fn checked_div(self, rhs: Self) -> (r: Option<Self>) {
        proof {
            let l = lane_quot(self.lanes(), rhs.lanes());
            assert(l[0] == trunc_div(self.x as int, rhs.x as int));
            assert(l[1] == trunc_div(self.y as int, rhs.y as int));
            assert(rhs.lanes()[0] == rhs.x);
            assert(rhs.lanes()[1] == rhs.y);
        }
        uvec2::checked_div(self, rhs)
    }

    fn wrapping_add(self, rhs: Self) -> (r: Self) {
        uvec2::wrapping_add(self, rhs)
    }

    fn wrapping_sub(self, rhs: Self) -> (r: Self) {
        uvec2::wrapping_sub(self, rhs)
    }

    fn wrapping_mul(self, rhs: Self) -> (r: Self) {
        uvec2::wrapping_mul(self, rhs)
    }

    fn wrapping_div(self, rhs: Self) -> (r: Self) {
        proof {
            assert(rhs.lanes()[0] == rhs.x);
            assert(rhs.lanes()[1] == rhs.y);
        }
        uvec2::wrapping_div(self, rhs)
    }

    fn saturating_add(self, rhs: Self) -> (r: Self) {
        uvec2::saturating_add(self, rhs)
    }

    fn saturating_sub(self, rhs: Self) -> (r: Self) {
        uvec2::saturating_sub(self, rhs)
    }

    fn saturating_mul(self, rhs: Self) -> (r: Self) {
        uvec2::saturating_mul(self, rhs)
    }

    fn saturating_div(self, rhs: Self) -> (r: Self) {
        proof {
            assert(rhs.lanes()[0] == rhs.x);
            assert(rhs.lanes()[1] == rhs.y);
        }
        uvec2::saturating_div(self, rhs)
    }

    fn manhattan_distance(self, rhs: Self) -> (r: u32) {
        proof {
            reveal_with_fuel(gap_sum, 3);
        }
        uvec2::manhattan_distance(self, rhs)
    }

    fn checked_manhattan_distance(self, rhs: Self) -> (r: Option<u32>) {
        proof {
            reveal_with_fuel(gap_sum, 3);
        }
        uvec2::checked_manhattan_distance(self, rhs)
    }

    fn chebyshev_distance(self, rhs: Self) -> (r: u32) {
        proof {
            reveal_with_fuel(gap_max, 3);
        }
        uvec2::chebyshev_distance(self, rhs)
    }
}

impl IntVec2 for UVec2 {
}

impl UIntVec for UVec2 {
    proof fn lo_is_zero() {
    }
}

impl UIntVec2 for UVec2 {
}

impl U32Vec for UVec2 {
    proof fn lanes_are_u32(s: u32) {
    }
}

} // verus!
