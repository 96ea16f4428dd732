//! The vector traits for `glam::I64Vec3`.

use crate::glam_api::{i16vec3, i64vec3, i8vec3, ivec3, u16vec3, u64vec3, u8vec3, usizevec3, uvec3};
use crate::lanes::IntLanes;
use crate::math::{
    dot_fits, dot_prefix, gap_max, gap_sum, lane_diff, lane_mul, lane_quot, lane_sum, max_prefix,
    min_prefix, product_fits, product_prefix, sign_bits, sum_fits, sum_prefix, trunc_div,
};
use crate::private::Sealed;
use crate::vec::{GVec, I64Vec, IntVec, SIntVec, SignedVec};
use crate::vec3::{GVec3, IntVec3, SIntVec3, SignedVec3};
use glam::{
    BVec3, I16Vec3, I64Vec2, I64Vec3, I64Vec4, I8Vec3, IVec3, U16Vec3, U64Vec3, U8Vec3,
    USizeVec3, UVec3,
};
use vstd::prelude::*;

verus! {

impl Sealed for I64Vec3 {
}

impl IntLanes for I64Vec3 {
    open spec fn dim() -> nat {
        3
    }

    open spec fn lanes(self) -> Seq<int> {
        seq![self.x as int, self.y as int, self.z as int]
    }

    proof fn lanes_len(self) {
    }
}

impl GVec for I64Vec3 {
    type Scalar = i64;

    type BVec = BVec3;

    type Axes = [I64Vec3; 3];

    type Array = [i64; 3];

    type I8Vec = I8Vec3;

    type U8Vec = U8Vec3;

    type I16Vec = I16Vec3;

    type U16Vec = U16Vec3;

    type I32Vec = IVec3;

    type U32Vec = UVec3;

    type I64Vec = I64Vec3;

    type U64Vec = U64Vec3;

    type USizeVec = USizeVec3;

    const DIM: usize = 3;

    open spec fn lo() -> int {
        i64::MIN as int
    }

    open spec fn hi() -> int {
        i64::MAX as int
    }

    open spec fn val(s: i64) -> int {
        s as int
    }

    open spec fn scalar(v: int) -> i64 {
        v as i64
    }

    open spec fn array_lanes(a: [i64; 3]) -> Seq<int> {
        seq![a@[0] as int, a@[1] as int, a@[2] as int]
    }

    open spec fn axis_lanes(a: [I64Vec3; 3], i: int) -> Seq<int> {
        a@[i].lanes()
    }

    proof fn dim_is_const() {
    }

    proof fn lanes_in_range(self) {
    }

    proof fn lanes_decide(self, other: Self) {
        assert(self.lanes()[0] == other.lanes()[0]);
        assert(self.lanes()[1] == other.lanes()[1]);
        assert(self.lanes()[2] == other.lanes()[2]);
    }

    proof fn val_of_scalar(s: i64) {
    }

    proof fn scalar_of_val(v: int) {
    }

    fn zero() -> (r: Self) {
        i64vec3::splat(0)
    }

    fn one() -> (r: Self) {
        i64vec3::splat(1)
    }

    fn min_value() -> (r: Self) {
        i64vec3::splat(i64::MIN)
    }

    fn max_value() -> (r: Self) {
        i64vec3::splat(i64::MAX)
    }

    fn axes() -> (r: [I64Vec3; 3]) {
        [i64vec3::new(1, 0, 0), i64vec3::new(0, 1, 0), i64vec3::new(0, 0, 1)]
    }

    fn splat(v: i64) -> (r: Self) {
        i64vec3::splat(v)
    }

    fn map<F: Fn(i64) -> i64>(self, f: F) -> (r: Self) {
        proof {
            assert(self.lanes()[0] == self.x);
            assert(self.lanes()[1] == self.y);
            assert(self.lanes()[2] == self.z);
        }
        i64vec3::map(self, f)
    }

    fn from_array(a: [i64; 3]) -> (r: Self) {
        i64vec3::from_array(a)
    }

    fn to_array(&self) -> (r: [i64; 3]) {
        i64vec3::to_array(self)
    }

    fn from_slice(slice: &[i64]) -> (r: Self) {
        i64vec3::from_slice(slice)
    }

    fn write_to_slice(self, slice: &mut [i64]) {
        i64vec3::write_to_slice(self, slice)
    }

    fn lane(&self, index: usize) -> (r: i64) {
        i64vec3::lane(self, index)
    }

    fn dot(self, rhs: Self) -> (r: i64) {
        proof {
            reveal_with_fuel(dot_fits, 4);
            reveal_with_fuel(dot_prefix, 4);
        }
        i64vec3::dot(self, rhs)
    }

    fn dot_into_vec(self, rhs: Self) -> (r: Self) {
        proof {
            reveal_with_fuel(dot_fits, 4);
            reveal_with_fuel(dot_prefix, 4);
        }
        i64vec3::dot_into_vec(self, rhs)
    }

    fn min(self, rhs: Self) -> (r: Self) {
        i64vec3::min(self, rhs)
    }

    fn max(self, rhs: Self) -> (r: Self) {
        i64vec3::max(self, rhs)
    }

    fn clamp(self, min: Self, max: Self) -> (r: Self) {
        proof {
            assert(min.lanes()[0] <= max.lanes()[0]);
            assert(min.lanes()[1] <= max.lanes()[1]);
            assert(min.lanes()[2] <= max.lanes()[2]);
        }
        i64vec3::clamp(self, min, max)
    }

    fn min_element(self) -> (r: i64) {
        proof {
            reveal_with_fuel(min_prefix, 4);
        }
        i64vec3::min_element(self)
    }

    fn max_element(self) -> (r: i64) {
        proof {
            reveal_with_fuel(max_prefix, 4);
        }
        i64vec3::max_element(self)
    }

    fn min_position(self) -> (r: usize) {
        i64vec3::min_position(self)
    }

    fn max_position(self) -> (r: usize) {
        i64vec3::max_position(self)
    }

    fn element_sum(self) -> (r: i64) {
        proof {
            reveal_with_fuel(sum_fits, 4);
            reveal_with_fuel(sum_prefix, 4);
        }
        i64vec3::element_sum(self)
    }

    fn element_product(self) -> (r: i64) {
        proof {
            reveal_with_fuel(product_fits, 4);
            reveal_with_fuel(product_prefix, 4);
        }
        i64vec3::element_product(self)
    }

    fn select(mask: BVec3, if_true: Self, if_false: Self) -> (r: Self) {
        i64vec3::select(mask, if_true, if_false)
    }

    fn cmpeq(self, rhs: Self) -> (r: BVec3) {
        i64vec3::cmpeq(self, rhs)
    }

    fn cmpne(self, rhs: Self) -> (r: BVec3) {
        i64vec3::cmpne(self, rhs)
    }

    fn cmpge(self, rhs: Self) -> (r: BVec3) {
        i64vec3::cmpge(self, rhs)
    }

    fn cmpgt(self, rhs: Self) -> (r: BVec3) {
        i64vec3::cmpgt(self, rhs)
    }

    fn cmple(self, rhs: Self) -> (r: BVec3) {
        i64vec3::cmple(self, rhs)
    }

    fn cmplt(self, rhs: Self) -> (r: BVec3) {
        i64vec3::cmplt(self, rhs)
    }

    fn length_squared(self) -> (r: i64) {
        proof {
            reveal_with_fuel(dot_fits, 4);
            reveal_with_fuel(dot_prefix, 4);
        }
        i64vec3::length_squared(self)
    }

    fn as_i8vec(&self) -> (r: I8Vec3) {
        i8vec3::new(
            #[verifier::truncate] (self.x as i8),
            #[verifier::truncate] (self.y as i8),
            #[verifier::truncate] (self.z as i8),
        )
    }

    fn as_u8vec(&self) -> (r: U8Vec3) {
        u8vec3::new(
            #[verifier::truncate] (self.x as u8),
            #[verifier::truncate] (self.y as u8),
            #[verifier::truncate] (self.z as u8),
        )
    }

    fn as_i16vec(&self) -> (r: I16Vec3) {
        i16vec3::new(
            #[verifier::truncate] (self.x as i16),
            #[verifier::truncate] (self.y as i16),
            #[verifier::truncate] (self.z as i16),
        )
    }

    fn as_u16vec(&self) -> (r: U16Vec3) {
        u16vec3::new(
            #[verifier::truncate] (self.x as u16),
            #[verifier::truncate] (self.y as u16),
            #[verifier::truncate] (self.z as u16),
        )
    }

    fn as_ivec(&self) -> (r: IVec3) {
        ivec3::new(
            #[verifier::truncate] (self.x as i32),
            #[verifier::truncate] (self.y as i32),
            #[verifier::truncate] (self.z as i32),
        )
    }

    fn as_uvec(&self) -> (r: UVec3) {
        uvec3::new(
            #[verifier::truncate] (self.x as u32),
            #[verifier::truncate] (self.y as u32),
            #[verifier::truncate] (self.z as u32),
        )
    }

    fn as_i64vec(&self) -> (r: I64Vec3) {
        i64vec3::new(self.x, self.y, self.z)
    }

    fn as_u64vec(&self) -> (r: U64Vec3) {
        u64vec3::new(
            #[verifier::truncate] (self.x as u64),
            #[verifier::truncate] (self.y as u64),
            #[verifier::truncate] (self.z as u64),
        )
    }

    fn as_usizevec(&self) -> (r: USizeVec3) {
        usizevec3::new(
            #[verifier::truncate] (self.x as usize),
            #[verifier::truncate] (self.y as usize),
            #[verifier::truncate] (self.z as usize),
        )
    }
}

impl GVec3 for I64Vec3 {
    type Extended = I64Vec4;

    type Truncated = I64Vec2;

    proof fn dim_is_three() {
    }

    fn unit_x() -> (r: Self) {
        i64vec3::new(1, 0, 0)
    }

    fn unit_y() -> (r: Self) {
        i64vec3::new(0, 1, 0)
    }

    fn unit_z() -> (r: Self) {
        i64vec3::new(0, 0, 1)
    }

    fn x(self) -> (r: i64) {
        self.x
    }

    fn y(self) -> (r: i64) {
        self.y
    }

    fn z(self) -> (r: i64) {
        self.z
    }

    fn new(x: i64, y: i64, z: i64) -> (r: Self) {
        i64vec3::new(x, y, z)
    }

    fn extend(self, w: i64) -> (r: I64Vec4) {
        i64vec3::extend(self, w)
    }

    fn truncate(self) -> (r: I64Vec2) {
        i64vec3::truncate(self)
    }

    fn with_x(self, x: i64) -> (r: Self) {
        i64vec3::with_x(self, x)
    }

    fn with_y(self, y: i64) -> (r: Self) {
        i64vec3::with_y(self, y)
    }

    fn with_z(self, z: i64) -> (r: Self) {
        i64vec3::with_z(self, z)
    }

    fn cross(self, rhs: Self) -> (r: Self) {
        i64vec3::cross(self, rhs)
    }
}

impl SignedVec for I64Vec3 {
    proof fn lo_is_negative() {
    }

    fn neg_one() -> (r: Self) {
        i64vec3::splat(-1)
    }

    fn abs(self) -> (r: Self) {
        proof {
            assert(self.lanes()[0] == self.x);
            assert(self.lanes()[1] == self.y);
            assert(self.lanes()[2] == self.z);
        }
        i64vec3::abs(self)
    }

    fn signum(self) -> (r: Self) {
        i64vec3::signum(self)
    }

    fn is_negative_bitmask(self) -> (r: u32) {
        proof {
            reveal_with_fuel(sign_bits, 4);
        }
        i64vec3::is_negative_bitmask(self)
    }

    fn distance_squared(self, rhs: Self) -> (r: i64) {
        proof {
            reveal_with_fuel(dot_fits, 4);
            reveal_with_fuel(dot_prefix, 4);
            let d = lane_diff(self.lanes(), rhs.lanes());
            assert(d[0] == self.x - rhs.x);
            assert(d[1] == self.y - rhs.y);
            assert(d[2] == self.z - rhs.z);
        }
        i64vec3::distance_squared(self, rhs)
    }

    fn div_euclid(self, rhs: Self) -> (r: Self) {
        proof {
            assert(rhs.lanes()[0] == rhs.x && self.lanes()[0] == self.x);
            assert(rhs.lanes()[1] == rhs.y && self.lanes()[1] == self.y);
            assert(rhs.lanes()[2] == rhs.z && self.lanes()[2] == self.z);
        }
        i64vec3::div_euclid(self, rhs)
    }

    fn rem_euclid(self, rhs: Self) -> (r: Self) {
        proof {
            assert(rhs.lanes()[0] == rhs.x && self.lanes()[0] == self.x);
            assert(rhs.lanes()[1] == rhs.y && self.lanes()[1] == self.y);
            assert(rhs.lanes()[2] == rhs.z && self.lanes()[2] == self.z);
        }
        i64vec3::rem_euclid(self, rhs)
    }
}

impl SignedVec3 for I64Vec3 {
    fn neg_unit_x() -> (r: Self) {
        i64vec3::new(-1, 0, 0)
    }

    fn neg_unit_y() -> (r: Self) {
        i64vec3::new(0, -1, 0)
    }

    fn neg_unit_z() -> (r: Self) {
        i64vec3::new(0, 0, -1)
    }
}

impl IntVec for I64Vec3 {
    type UnsignedScalar = u64;

    open spec fn uval(u: u64) -> int {
        u as int
    }

    proof fn uval_in_range(u: u64) {
    }

    fn checked_add(self, rhs: Self) -> (r: Option<Self>) {
        proof {
            let l = lane_sum(self.lanes(), rhs.lanes());
            assert(l[0] == self.x + rhs.x);
            assert(l[1] == self.y + rhs.y);
            assert(l[2] == self.z + rhs.z);
        }
        i64vec3::checked_add(self, rhs)
    }

    fn checked_sub(self, rhs: Self) -> (r: Option<Self>) {
        proof {
            let l = lane_diff(self.lanes(), rhs.lanes());
            assert(l[0] == self.x - rhs.x);
            assert(l[1] == self.y - rhs.y);
            assert(l[2] == self.z - rhs.z);
        }
        i64vec3::checked_sub(self, rhs)
    }

    fn checked_mul(self, rhs: Self) -> (r: Option<Self>) {
        proof {
            let l = lane_mul(self.lanes(), rhs.lanes());
            assert(l[0] == self.x * rhs.x);
            assert(l[1] == self.y * rhs.y);
            assert(l[2] == self.z * rhs.z);
        }
        i64vec3::checked_mul(self, rhs)
    }

    fn checked_div(self, rhs: Self) -> (r: Option<Self>) {
        proof {
            let l = lane_quot(self.lanes(), rhs.lanes());
            assert(l[0] == trunc_div(self.x as int, rhs.x as int));
            assert(l[1] == trunc_div(self.y as int, rhs.y as int));
            assert(l[2] == trunc_div(self.z as int, rhs.z as int));
            assert(rhs.lanes()[0] == rhs.x);
            assert(rhs.lanes()[1] == rhs.y);
            assert(rhs.lanes()[2] == rhs.z);
        }
        i64vec3::checked_div(self, rhs)
    }

    fn wrapping_add(self, rhs: Self) -> (r: Self) {
        i64vec3::wrapping_add(self, rhs)
    }

    fn wrapping_sub(self, rhs: Self) -> (r: Self) {
        i64vec3::wrapping_sub(self, rhs)
    }

    fn wrapping_mul(self, rhs: Self) -> (r: Self) {
        i64vec3::wrapping_mul(self, rhs)
    }

    fn wrapping_div(self, rhs: Self) -> (r: Self) {
        proof {
            assert(rhs.lanes()[0] == rhs.x);
            assert(rhs.lanes()[1] == rhs.y);
            assert(rhs.lanes()[2] == rhs.z);
        }
        i64vec3::wrapping_div(self, rhs)
    }

    fn saturating_add(self, rhs: Self) -> (r: Self) {
        i64vec3::saturating_add(self, rhs)
    }

    fn saturating_sub(self, rhs: Self) -> (r: Self) {
        i64vec3::saturating_sub(self, rhs)
    }

    fn saturating_mul(self, rhs: Self) -> (r: Self) {
        i64vec3::saturating_mul(self, rhs)
    }

    fn saturating_div(self, rhs: Self) -> (r: Self) {
        proof {
            assert(rhs.lanes()[0] == rhs.x);
            assert(rhs.lanes()[1] == rhs.y);
            assert(rhs.lanes()[2] == rhs.z);
        }
        i64vec3::saturating_div(self, rhs)
    }

    fn manhattan_distance(self, rhs: Self) -> (r: u64) {
        proof {
            reveal_with_fuel(gap_sum, 4);
        }
        i64vec3::manhattan_distance(self, rhs)
    }

    fn checked_manhattan_distance(self, rhs: Self) -> (r: Option<u64>) {
        proof {
            reveal_with_fuel(gap_sum, 4);
        }
        i64vec3::checked_manhattan_distance(self, rhs)
    }

    fn chebyshev_distance(self, rhs: Self) -> (r: u64) {
        proof {
            reveal_with_fuel(gap_max, 4);
        }
        i64vec3::chebyshev_distance(self, rhs)
    }
}

impl IntVec3 for I64Vec3 {
}

impl SIntVec for I64Vec3 {
}

impl SIntVec3 for I64Vec3 {
}

impl I64Vec for I64Vec3 {
    proof fn lanes_are_i64(s: i64) {
    }
}

} // verus!
