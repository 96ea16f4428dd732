//! The vector traits for `glam::USizeVec4`.

use crate::glam_api::{i16vec4, i64vec4, i8vec4, ivec4, u16vec4, u64vec4, u8vec4, usizevec4, uvec4};
use crate::lanes::IntLanes;
use crate::math::{
    dot_fits, dot_prefix, gap_max, gap_sum, lane_diff, lane_mul, lane_quot, lane_sum, max_prefix,
    min_prefix, product_fits, product_prefix, sum_fits, sum_prefix, trunc_div,
};
use crate::private::Sealed;
use crate::vec::{GVec, IntVec, UIntVec, USizeVec};
use crate::vec4::{GVec4, IntVec4, UIntVec4};
use glam::{
    BVec4, I16Vec4, I64Vec4, I8Vec4, IVec4, U16Vec4, U64Vec4, U8Vec4, USizeVec3, USizeVec4,
    UVec4,
};
use vstd::prelude::*;

verus! {

impl Sealed for USizeVec4 {
}

impl IntLanes for USizeVec4 {
    open spec fn dim() -> nat {
        4
    }

    open spec fn lanes(self) -> Seq<int> {
        seq![self.x as int, self.y as int, self.z as int, self.w as int]
    }

    proof fn lanes_len(self) {
    }
}

impl GVec for USizeVec4 {
    type Scalar = usize;

    type BVec = BVec4;

    type Axes = [USizeVec4; 4];

    type Array = [usize; 4];

    type I8Vec = I8Vec4;

    type U8Vec = U8Vec4;

    type I16Vec = I16Vec4;

    type U16Vec = U16Vec4;

    type I32Vec = IVec4;

    type U32Vec = UVec4;

    type I64Vec = I64Vec4;

    type U64Vec = U64Vec4;

    type USizeVec = USizeVec4;

    const DIM: usize = 4;

    open spec fn lo() -> int {
        usize::MIN as int
    }

    open spec fn hi() -> int {
        usize::MAX as int
    }

    open spec fn val(s: usize) -> int {
        s as int
    }

    open spec fn scalar(v: int) -> usize {
        v as usize
    }

    open spec fn array_lanes(a: [usize; 4]) -> Seq<int> {
        seq![a@[0] as int, a@[1] as int, a@[2] as int, a@[3] as int]
    }

    open spec fn axis_lanes(a: [USizeVec4; 4], i: int) -> Seq<int> {
        a@[i].lanes()
    }

    proof fn dim_is_const() {
    }

    proof fn lanes_in_range(self) {
    }

    proof fn lanes_decide(self, other: Self) {
        assert(self.lanes()[0] == other.lanes()[0]);
        assert(self.lanes()[1] == other.lanes()[1]);
        assert(self.lanes()[2] == other.lanes()[2]);
        assert(self.lanes()[3] == other.lanes()[3]);
    }

    proof fn val_of_scalar(s: usize) {
    }

    proof fn scalar_of_val(v: int) {
    }

    fn zero() -> (r: Self) {
        usizevec4::splat(0)
    }

    fn one() -> (r: Self) {
        usizevec4::splat(1)
    }

    fn min_value() -> (r: Self) {
        usizevec4::splat(usize::MIN)
    }

    fn max_value() -> (r: Self) {
        usizevec4::splat(usize::MAX)
    }

    fn axes() -> (r: [USizeVec4; 4]) {
        [
            usizevec4::new(1, 0, 0, 0),
            usizevec4::new(0, 1, 0, 0),
            usizevec4::new(0, 0, 1, 0),
            usizevec4::new(0, 0, 0, 1),
        ]
    }

    fn splat(v: usize) -> (r: Self) {
        usizevec4::splat(v)
    }

    fn map<F: Fn(usize) -> usize>(self, f: F) -> (r: Self) {
        proof {
            assert(self.lanes()[0] == self.x);
            assert(self.lanes()[1] == self.y);
            assert(self.lanes()[2] == self.z);
            assert(self.lanes()[3] == self.w);
        }
        usizevec4::map(self, f)
    }

    fn from_array(a: [usize; 4]) -> (r: Self) {
        usizevec4::from_array(a)
    }

    fn to_array(&self) -> (r: [usize; 4]) {
        usizevec4::to_array(self)
    }

    fn from_slice(slice: &[usize]) -> (r: Self) {
        usizevec4::from_slice(slice)
    }

    fn write_to_slice(self, slice: &mut [usize]) {
        usizevec4::write_to_slice(self, slice)
    }

    fn lane(&self, index: usize) -> (r: usize) {
        usizevec4::lane(self, index)
    }

    fn dot(self, rhs: Self) -> (r: usize) {
        proof {
            reveal_with_fuel(dot_fits, 5);
            reveal_with_fuel(dot_prefix, 5);
        }
        usizevec4::dot(self, rhs)
    }

    fn dot_into_vec(self, rhs: Self) -> (r: Self) {
        proof {
            reveal_with_fuel(dot_fits, 5);
            reveal_with_fuel(dot_prefix, 5);
        }
        usizevec4::dot_into_vec(self, rhs)
    }

    fn min(self, rhs: Self) -> (r: Self) {
        usizevec4::min(self, rhs)
    }

    fn max(self, rhs: Self) -> (r: Self) {
        usizevec4::max(self, rhs)
    }

    fn clamp(self, min: Self, max: Self) -> (r: Self) {
        proof {
            assert(min.lanes()[0] <= max.lanes()[0]);
            assert(min.lanes()[1] <= max.lanes()[1]);
            assert(min.lanes()[2] <= max.lanes()[2]);
            assert(min.lanes()[3] <= max.lanes()[3]);
        }
        usizevec4::clamp(self, min, max)
    }

    fn min_element(self) -> (r: usize) {
        proof {
            reveal_with_fuel(min_prefix, 5);
        }
        usizevec4::min_element(self)
    }

    fn max_element(self) -> (r: usize) {
        proof {
            reveal_with_fuel(max_prefix, 5);
        }
        usizevec4::max_element(self)
    }

    fn min_position(self) -> (r: usize) {
        usizevec4::min_position(self)
    }

    fn max_position(self) -> (r: usize) {
        usizevec4::max_position(self)
    }

    fn element_sum(self) -> (r: usize) {
        proof {
            reveal_with_fuel(sum_fits, 5);
            reveal_with_fuel(sum_prefix, 5);
        }
        usizevec4::element_sum(self)
    }

    fn element_product(self) -> (r: usize) {
        proof {
            reveal_with_fuel(product_fits, 5);
            reveal_with_fuel(product_prefix, 5);
        }
        usizevec4::element_product(self)
    }

    fn select(mask: BVec4, if_true: Self, if_false: Self) -> (r: Self) {
        usizevec4::select(mask, if_true, if_false)
    }

    fn cmpeq(self, rhs: Self) -> (r: BVec4) {
        usizevec4::cmpeq(self, rhs)
    }

    fn cmpne(self, rhs: Self) -> (r: BVec4) {
        usizevec4::cmpne(self, rhs)
    }

    fn cmpge(self, rhs: Self) -> (r: BVec4) {
        usizevec4::cmpge(self, rhs)
    }

    fn cmpgt(self, rhs: Self) -> (r: BVec4) {
        usizevec4::cmpgt(self, rhs)
    }

    fn cmple(self, rhs: Self) -> (r: BVec4) {
        usizevec4::cmple(self, rhs)
    }

    fn cmplt(self, rhs: Self) -> (r: BVec4) {
        usizevec4::cmplt(self, rhs)
    }

    fn length_squared(self) -> (r: usize) {
        proof {
            reveal_with_fuel(dot_fits, 5);
            reveal_with_fuel(dot_prefix, 5);
        }
        usizevec4::length_squared(self)
    }

    fn as_i8vec(&self) -> (r: I8Vec4) {
        i8vec4::new(
            #[verifier::truncate] (self.x as i8),
            #[verifier::truncate] (self.y as i8),
            #[verifier::truncate] (self.z as i8),
            #[verifier::truncate] (self.w as i8),
        )
    }

    fn as_u8vec(&self) -> (r: U8Vec4) {
        u8vec4::new(
            #[verifier::truncate] (self.x as u8),
            #[verifier::truncate] (self.y as u8),
            #[verifier::truncate] (self.z as u8),
            #[verifier::truncate] (self.w as u8),
        )
    }

    fn as_i16vec(&self) -> (r: I16Vec4) {
        i16vec4::new(
            #[verifier::truncate] (self.x as i16),
            #[verifier::truncate] (self.y as i16),
            #[verifier::truncate] (self.z as i16),
            #[verifier::truncate] (self.w as i16),
        )
    }

    fn as_u16vec(&self) -> (r: U16Vec4) {
        u16vec4::new(
            #[verifier::truncate] (self.x as u16),
            #[verifier::truncate] (self.y as u16),
            #[verifier::truncate] (self.z as u16),
            #[verifier::truncate] (self.w as u16),
        )
    }

    fn as_ivec(&self) -> (r: IVec4) {
        ivec4::new(
            #[verifier::truncate] (self.x as i32),
            #[verifier::truncate] (self.y as i32),
            #[verifier::truncate] (self.z as i32),
            #[verifier::truncate] (self.w as i32),
        )
    }

    fn as_uvec(&self) -> (r: UVec4) {
        uvec4::new(
            #[verifier::truncate] (self.x as u32),
            #[verifier::truncate] (self.y as u32),
            #[verifier::truncate] (self.z as u32),
            #[verifier::truncate] (self.w as u32),
        )
    }

    fn as_i64vec(&self) -> (r: I64Vec4) {
        i64vec4::new(
            #[verifier::truncate] (self.x as i64),
            #[verifier::truncate] (self.y as i64),
            #[verifier::truncate] (self.z as i64),
            #[verifier::truncate] (self.w as i64),
        )
    }

    fn as_u64vec(&self) -> (r: U64Vec4) {
        u64vec4::new(
            #[verifier::truncate] (self.x as u64),
            #[verifier::truncate] (self.y as u64),
            #[verifier::truncate] (self.z as u64),
            #[verifier::truncate] (self.w as u64),
        )
    }

    fn as_usizevec(&self) -> (r: USizeVec4) {
        usizevec4::new(self.x, self.y, self.z, self.w)
    }
}

impl GVec4 for USizeVec4 {
    type Truncated = USizeVec3;

    proof fn dim_is_four() {
    }

    fn unit_x() -> (r: Self) {
        usizevec4::new(1, 0, 0, 0)
    }

    fn unit_y() -> (r: Self) {
        usizevec4::new(0, 1, 0, 0)
    }

    fn unit_z() -> (r: Self) {
        usizevec4::new(0, 0, 1, 0)
    }

    fn unit_w() -> (r: Self) {
        usizevec4::new(0, 0, 0, 1)
    }

    fn x(self) -> (r: usize) {
        self.x
    }

    fn y(self) -> (r: usize) {
        self.y
    }

    fn z(self) -> (r: usize) {
        self.z
    }

    fn w(self) -> (r: usize) {
        self.w
    }

    fn new(x: usize, y: usize, z: usize, w: usize) -> (r: Self) {
        usizevec4::new(x, y, z, w)
    }

    fn truncate(self) -> (r: USizeVec3) {
        usizevec4::truncate(self)
    }

    fn with_x(self, x: usize) -> (r: Self) {
        usizevec4::with_x(self, x)
    }

    fn with_y(self, y: usize) -> (r: Self) {
        usizevec4::with_y(self, y)
    }

    fn with_z(self, z: usize) -> (r: Self) {
        usizevec4::with_z(self, z)
    }

    fn with_w(self, w: usize) -> (r: Self) {
        usizevec4::with_w(self, w)
    }
}

impl IntVec for USizeVec4 {
    type UnsignedScalar = usize;

    open spec fn uval(u: usize) -> int {
        u as int
    }

    proof fn uval_in_range(u: usize) {
    }

    fn checked_add(self, rhs: Self) -> (r: Option<Self>) {
        proof {
            let l = lane_sum(self.lanes(), rhs.lanes());
            assert(l[0] == self.x + rhs.x);
            assert(l[1] == self.y + rhs.y);
            assert(l[2] == self.z + rhs.z);
            assert(l[3] == self.w + rhs.w);
        }
        usizevec4::checked_add(self, rhs)
    }

    fn checked_sub(self, rhs: Self) -> (r: Option<Self>) {
        proof {
            let l = lane_diff(self.lanes(), rhs.lanes());
            assert(l[0] == self.x - rhs.x);
            assert(l[1] == self.y - rhs.y);
            assert(l[2] == self.z - rhs.z);
            assert(l[3] == self.w - rhs.w);
        }
        usizevec4::checked_sub(self, rhs)
    }

    fn checked_mul(self, rhs: Self) -> (r: Option<Self>) {
        proof {
            let l = lane_mul(self.lanes(), rhs.lanes());
            assert(l[0] == self.x * rhs.x);
            assert(l[1] == self.y * rhs.y);
            assert(l[2] == self.z * rhs.z);
            assert(l[3] == self.w * rhs.w);
        }
        usizevec4::checked_mul(self, rhs)
    }

    fn checked_div(self, rhs: Self) -> (r: Option<Self>) {
        proof {
            let l = lane_quot(self.lanes(), rhs.lanes());
            assert(l[0] == trunc_div(self.x as int, rhs.x as int));
            assert(l[1] == trunc_div(self.y as int, rhs.y as int));
            assert(l[2] == trunc_div(self.z as int, rhs.z as int));
            assert(l[3] == trunc_div(self.w as int, rhs.w as int));
            assert(rhs.lanes()[0] == rhs.x);
            assert(rhs.lanes()[1] == rhs.y);
            assert(rhs.lanes()[2] == rhs.z);
            assert(rhs.lanes()[3] == rhs.w);
        }
        usizevec4::checked_div(self, rhs)
    }

    fn wrapping_add(self, rhs: Self) -> (r: Self) {
        usizevec4::wrapping_add(self, rhs)
    }

    fn wrapping_sub(self, rhs: Self) -> (r: Self) {
        usizevec4::wrapping_sub(self, rhs)
    }

    fn wrapping_mul(self, rhs: Self) -> (r: Self) {
        usizevec4::wrapping_mul(self, rhs)
    }

    fn wrapping_div(self, rhs: Self) -> (r: Self) {
        proof {
            assert(rhs.lanes()[0] == rhs.x);
            assert(rhs.lanes()[1] == rhs.y);
            assert(rhs.lanes()[2] == rhs.z);
            assert(rhs.lanes()[3] == rhs.w);
        }
        usizevec4::wrapping_div(self, rhs)
    }

    fn saturating_add(self, rhs: Self) -> (r: Self) {
        usizevec4::saturating_add(self, rhs)
    }

    fn saturating_sub(self, rhs: Self) -> (r: Self) {
        usizevec4::saturating_sub(self, rhs)
    }

    fn saturating_mul(self, rhs: Self) -> (r: Self) {
        usizevec4::saturating_mul(self, rhs)
    }

    fn saturating_div(self, rhs: Self) -> (r: Self) {
        proof {
            assert(rhs.lanes()[0] == rhs.x);
            assert(rhs.lanes()[1] == rhs.y);
            assert(rhs.lanes()[2] == rhs.z);
            assert(rhs.lanes()[3] == rhs.w);
        }
        usizevec4::saturating_div(self, rhs)
    }

    fn manhattan_distance(self, rhs: Self) -> (r: usize) {
        proof {
            reveal_with_fuel(gap_sum, 5);
        }
        usizevec4::manhattan_distance(self, rhs)
    }

    fn checked_manhattan_distance(self, rhs: Self) -> (r: Option<usize>) {
        proof {
            reveal_with_fuel(gap_sum, 5);
        }
        usizevec4::checked_manhattan_distance(self, rhs)
    }

    fn chebyshev_distance(self, rhs: Self) -> (r: usize) {
        proof {
            reveal_with_fuel(gap_max, 5);
        }
        usizevec4::chebyshev_distance(self, rhs)
    }
}

impl IntVec4 for USizeVec4 {
}

impl UIntVec for USizeVec4 {
    proof fn lo_is_zero() {
    }
}

impl UIntVec4 for USizeVec4 {
}

impl USizeVec for USizeVec4 {
    proof fn lanes_are_usize(s: usize) {
    }
}

} // verus!
