//! The vector traits for `glam::U16Vec3`.

use crate::glam_api::{i16vec3, i64vec3, i8vec3, ivec3, u16vec3, u64vec3, u8vec3, usizevec3, uvec3};
use crate::lanes::IntLanes;
use crate::math::{
    dot_fits, dot_prefix, gap_max, gap_sum, lane_diff, lane_mul, lane_quot, lane_sum, max_prefix,
    min_prefix, product_fits, product_prefix, sum_fits, sum_prefix, trunc_div,
};
use crate::private::Sealed;
use crate::vec::{GVec, IntVec, U16Vec, UIntVec};
use crate::vec3::{GVec3, IntVec3, UIntVec3};
use glam::{
    BVec3, I16Vec3, I64Vec3, I8Vec3, IVec3, U16Vec2, U16Vec3, U16Vec4, U64Vec3, U8Vec3,
    USizeVec3, UVec3,
};
use vstd::prelude::*;

verus! {

impl Sealed for U16Vec3 {
}

impl IntLanes for U16Vec3 {
    open spec fn dim() -> nat {
        3
    }

    open spec fn lanes(self) -> Seq<int> {
        seq![self.x as int, self.y as int, self.z as int]
    }

    proof fn lanes_len(self) {
    }
}

impl GVec for U16Vec3 {
    type Scalar = u16;

    type BVec = BVec3;

    type Axes = [U16Vec3; 3];

    type Array = [u16; 3];

    type I8Vec = I8Vec3;

    type U8Vec = U8Vec3;

    type I16Vec = I16Vec3;

    type U16Vec = U16Vec3;

    type I32Vec = IVec3;

    type U32Vec = UVec3;

    type I64Vec = I64Vec3;

    type U64Vec = U64Vec3;

    type USizeVec = USizeVec3;

    const DIM: usize = 3;

    open spec fn lo() -> int {
        u16::MIN as int
    }

    open spec fn hi() -> int {
        u16::MAX as int
    }

    open spec fn val(s: u16) -> int {
        s as int
    }

    open spec fn scalar(v: int) -> u16 {
        v as u16
    }

    open spec fn array_lanes(a: [u16; 3]) -> Seq<int> {
        seq![a@[0] as int, a@[1] as int, a@[2] as int]
    }

    open spec fn axis_lanes(a: [U16Vec3; 3], i: int) -> Seq<int> {
        a@[i].lanes()
    }

    proof fn dim_is_const() {
    }

    proof fn lanes_in_range(self) {
    }

    proof fn lanes_decide(self, other: Self) {
        assert(self.lanes()[0] == other.lanes()[0]);
        assert(self.lanes()[1] == other.lanes()[1]);
        assert(self.lanes()[2] == other.lanes()[2]);
    }

    proof fn val_of_scalar(s: u16) {
    }

    proof fn scalar_of_val(v: int) {
    }

    fn zero() -> (r: Self) {
        u16vec3::splat(0)
    }

    fn one() -> (r: Self) {
        u16vec3::splat(1)
    }

    fn min_value() -> (r: Self) {
        u16vec3::splat(u16::MIN)
    }

    fn max_value() -> (r: Self) {
        u16vec3::splat(u16::MAX)
    }

    fn axes() -> (r: [U16Vec3; 3]) {
        [u16vec3::new(1, 0, 0), u16vec3::new(0, 1, 0), u16vec3::new(0, 0, 1)]
    }

    fn splat(v: u16) -> (r: Self) {
        u16vec3::splat(v)
    }

    fn map<F: Fn(u16) -> u16>(self, f: F) -> (r: Self) {
        proof {
            assert(self.lanes()[0] == self.x);
            assert(self.lanes()[1] == self.y);
            assert(self.lanes()[2] == self.z);
        }
        u16vec3::map(self, f)
    }

    fn from_array(a: [u16; 3]) -> (r: Self) {
        u16vec3::from_array(a)
    }

    fn to_array(&self) -> (r: [u16; 3]) {
        u16vec3::to_array(self)
    }

    fn from_slice(slice: &[u16]) -> (r: Self) {
        u16vec3::from_slice(slice)
    }

    fn write_to_slice(self, slice: &mut [u16]) {
        u16vec3::write_to_slice(self, slice)
    }

    fn lane(&self, index: usize) -> (r: u16) {
        u16vec3::lane(self, index)
    }

    fn dot(self, rhs: Self) -> (r: u16) {
        proof {
            reveal_with_fuel(dot_fits, 4);
            reveal_with_fuel(dot_prefix, 4);
        }
        u16vec3::dot(self, rhs)
    }

    fn dot_into_vec(self, rhs: Self) -> (r: Self) {
        proof {
            reveal_with_fuel(dot_fits, 4);
            reveal_with_fuel(dot_prefix, 4);
        }
        u16vec3::dot_into_vec(self, rhs)
    }

    fn min(self, rhs: Self) -> (r: Self) {
        u16vec3::min(self, rhs)
    }

    fn max(self, rhs: Self) -> (r: Self) {
        u16vec3::max(self, rhs)
    }

    fn clamp(self, min: Self, max: Self) -> (r: Self) {
        proof {
            assert(min.lanes()[0] <= max.lanes()[0]);
            assert(min.lanes()[1] <= max.lanes()[1]);
            assert(min.lanes()[2] <= max.lanes()[2]);
        }
        u16vec3::clamp(self, min, max)
    }

    fn min_element(self) -> (r: u16) {
        proof {
            reveal_with_fuel(min_prefix, 4);
        }
        u16vec3::min_element(self)
    }

    fn max_element(self) -> (r: u16) {
        proof {
            reveal_with_fuel(max_prefix, 4);
        }
        u16vec3::max_element(self)
    }

    fn min_position(self) -> (r: usize) {
        u16vec3::min_position(self)
    }

    fn max_position(self) -> (r: usize) {
        u16vec3::max_position(self)
    }

    fn element_sum(self) -> (r: u16) {
        proof {
            reveal_with_fuel(sum_fits, 4);
            reveal_with_fuel(sum_prefix, 4);
        }
        u16vec3::element_sum(self)
    }

    fn element_product(self) -> (r: u16) {
        proof {
            reveal_with_fuel(product_fits, 4);
            reveal_with_fuel(product_prefix, 4);
        }
        u16vec3::element_product(self)
    }

    fn select(mask: BVec3, if_true: Self, if_false: Self) -> (r: Self) {
        u16vec3::select(mask, if_true, if_false)
    }

    fn cmpeq(self, rhs: Self) -> (r: BVec3) {
        u16vec3::cmpeq(self, rhs)
    }

    fn cmpne(self, rhs: Self) -> (r: BVec3) {
        u16vec3::cmpne(self, rhs)
    }

    fn cmpge(self, rhs: Self) -> (r: BVec3) {
        u16vec3::cmpge(self, rhs)
    }

    fn cmpgt(self, rhs: Self) -> (r: BVec3) {
        u16vec3::cmpgt(self, rhs)
    }

    fn cmple(self, rhs: Self) -> (r: BVec3) {
        u16vec3::cmple(self, rhs)
    }

    fn cmplt(self, rhs: Self) -> (r: BVec3) {
        u16vec3::cmplt(self, rhs)
    }

    fn length_squared(self) -> (r: u16) {
        proof {
            reveal_with_fuel(dot_fits, 4);
            reveal_with_fuel(dot_prefix, 4);
        }
        u16vec3::length_squared(self)
    }

    fn as_i8vec(&self) -> (r: I8Vec3) {
        i8vec3::new(
            #[verifier::truncate] (self.x as i8),
            #[verifier::truncate] (self.y as i8),
            #[verifier::truncate] (self.z as i8),
        )
    }

    fn as_u8vec(&self) -> (r: U8Vec3) {
        u8vec3::new(
            #[verifier::truncate] (self.x as u8),
            #[verifier::truncate] (self.y as u8),
            #[verifier::truncate] (self.z as u8),
        )
    }

    fn as_i16vec(&self) -> (r: I16Vec3) {
        i16vec3::new(
            #[verifier::truncate] (self.x as i16),
            #[verifier::truncate] (self.y as i16),
            #[verifier::truncate] (self.z as i16),
        )
    }

    fn as_u16vec(&self) -> (r: U16Vec3) {
        u16vec3::new(self.x, self.y, self.z)
    }

    fn as_ivec(&self) -> (r: IVec3) {
        ivec3::new(
            #[verifier::truncate] (self.x as i32),
            #[verifier::truncate] (self.y as i32),
            #[verifier::truncate] (self.z as i32),
        )
    }

    fn as_uvec(&self) -> (r: UVec3) {
        uvec3::new(
            #[verifier::truncate] (self.x as u32),
            #[verifier::truncate] (self.y as u32),
            #[verifier::truncate] (self.z as u32),
        )
    }

    fn as_i64vec(&self) -> (r: I64Vec3) {
        i64vec3::new(
            #[verifier::truncate] (self.x as i64),
            #[verifier::truncate] (self.y as i64),
            #[verifier::truncate] (self.z as i64),
        )
    }

    fn as_u64vec(&self) -> (r: U64Vec3) {
        u64vec3::new(
            #[verifier::truncate] (self.x as u64),
            #[verifier::truncate] (self.y as u64),
            #[verifier::truncate] (self.z as u64),
        )
    }

    fn as_usizevec(&self) -> (r: USizeVec3) {
        usizevec3::new(
            #[verifier::truncate] (self.x as usize),
            #[verifier::truncate] (self.y as usize),
            #[verifier::truncate] (self.z as usize),
        )
    }
}

impl GVec3 for U16Vec3 {
    type Extended = U16Vec4;

    type Truncated = U16Vec2;

    proof fn dim_is_three() {
    }

    fn unit_x() -> (r: Self) {
        u16vec3::new(1, 0, 0)
    }

    fn unit_y() -> (r: Self) {
        u16vec3::new(0, 1, 0)
    }

    fn unit_z() -> (r: Self) {
        u16vec3::new(0, 0, 1)
    }

    fn x(self) -> (r: u16) {
        self.x
    }

    fn y(self) -> (r: u16) {
        self.y
    }

    fn z(self) -> (r: u16) {
        self.z
    }

    fn new(x: u16, y: u16, z: u16) -> (r: Self) {
        u16vec3::new(x, y, z)
    }

    fn extend(self, w: u16) -> (r: U16Vec4) {
        u16vec3::extend(self, w)
    }

    fn truncate(self) -> (r: U16Vec2) {
        u16vec3::truncate(self)
    }

    fn with_x(self, x: u16) -> (r: Self) {
        u16vec3::with_x(self, x)
    }

    fn with_y(self, y: u16) -> (r: Self) {
        u16vec3::with_y(self, y)
    }

    fn with_z(self, z: u16) -> (r: Self) {
        u16vec3::with_z(self, z)
    }

    fn cross(self, rhs: Self) -> (r: Self) {
        u16vec3::cross(self, rhs)
    }
}

impl IntVec for U16Vec3 {
    type UnsignedScalar = u16;

    open spec fn uval(u: u16) -> int {
        u as int
    }

    proof fn uval_in_range(u: u16) {
    }

    fn checked_add(self, rhs: Self) -> (r: Option<Self>) {
        proof {
            let l = lane_sum(self.lanes(), rhs.lanes());
            assert(l[0] == self.x + rhs.x);
            assert(l[1] == self.y + rhs.y);
            assert(l[2] == self.z + rhs.z);
        }
        u16vec3::checked_add(self, rhs)
    }

    fn checked_sub(self, rhs: Self) -> (r: Option<Self>) {
        proof {
            let l = lane_diff(self.lanes(), rhs.lanes());
            assert(l[0] == self.x - rhs.x);
            assert(l[1] == self.y - rhs.y);
            assert(l[2] == self.z - rhs.z);
        }
        u16vec3::checked_sub(self, rhs)
    }

    fn checked_mul(self, rhs: Self) -> (r: Option<Self>) {
        proof {
            let l = lane_mul(self.lanes(), rhs.lanes());
            assert(l[0] == self.x * rhs.x);
            assert(l[1] == self.y * rhs.y);
            assert(l[2] == self.z * rhs.z);
        }
        u16vec3::checked_mul(self, rhs)
    }

    fn checked_div(self, rhs: Self) -> (r: Option<Self>) {
        proof {
            let l = lane_quot(self.lanes(), rhs.lanes());
            assert(l[0] == trunc_div(self.x as int, rhs.x as int));
            assert(l[1] == trunc_div(self.y as int, rhs.y as int));
            assert(l[2] == trunc_div(self.z as int, rhs.z as int));
            assert(rhs.lanes()[0] == rhs.x);
            assert(rhs.lanes()[1] == rhs.y);
            assert(rhs.lanes()[2] == rhs.z);
        }
        u16vec3::checked_div(self, rhs)
    }

    fn wrapping_add(self, rhs: Self) -> (r: Self) {
        u16vec3::wrapping_add(self, rhs)
    }

    fn wrapping_sub(self, rhs: Self) -> (r: Self) {
        u16vec3::wrapping_sub(self, rhs)
    }

    fn wrapping_mul(self, rhs: Self) -> (r: Self) {
        u16vec3::wrapping_mul(self, rhs)
    }

    fn wrapping_div(self, rhs: Self) -> (r: Self) {
        proof {
            assert(rhs.lanes()[0] == rhs.x);
            assert(rhs.lanes()[1] == rhs.y);
            assert(rhs.lanes()[2] == rhs.z);
        }
        u16vec3::wrapping_div(self, rhs)
    }

    fn saturating_add(self, rhs: Self) -> (r: Self) {
        u16vec3::saturating_add(self, rhs)
    }

    fn saturating_sub(self, rhs: Self) -> (r: Self) {
        u16vec3::saturating_sub(self, rhs)
    }

    fn saturating_mul(self, rhs: Self) -> (r: Self) {
        u16vec3::saturating_mul(self, rhs)
    }

    fn saturating_div(self, rhs: Self) -> (r: Self) {
        proof {
            assert(rhs.lanes()[0] == rhs.x);
            assert(rhs.lanes()[1] == rhs.y);
            assert(rhs.lanes()[2] == rhs.z);
        }
        u16vec3::saturating_div(self, rhs)
    }

    fn manhattan_distance(self, rhs: Self) -> (r: u16) {
        proof {
            reveal_with_fuel(gap_sum, 4);
        }
        u16vec3::manhattan_distance(self, rhs)
    }

    fn checked_manhattan_distance(self, rhs: Self) -> (r: Option<u16>) {
        proof {
            reveal_with_fuel(gap_sum, 4);
        }
        u16vec3::checked_manhattan_distance(self, rhs)
    }

    fn chebyshev_distance(self, rhs: Self) -> (r: u16) {
        proof {
            reveal_with_fuel(gap_max, 4);
        }
        u16vec3::chebyshev_distance(self, rhs)
    }
}

impl IntVec3 for U16Vec3 {
}

impl UIntVec for U16Vec3 {
    proof fn lo_is_zero() {
    }
}

impl UIntVec3 for U16Vec3 {
}

impl U16Vec for U16Vec3 {
    proof fn lanes_are_u16(s: u16) {
    }
}

} // verus!
