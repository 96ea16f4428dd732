//! Traits of the integer vectors of any length.

use crate::bvec::BVec;
use crate::lanes::{BoolLanes, IntLanes};
use crate::math::{
    dot_fits, dot_prefix, first_max_at, first_min_at, fits, gap_max, gap_sum, lane_diff,
    lane_mul, lane_quot, lane_sum, lanes_fit, lanes_nonzero, lanes_saturated, lanes_wrapped,
    magnitude, max2, max_prefix, min2, min_prefix, product_fits, product_prefix, sign, sign_bits,
    sum_fits, sum_prefix,
};
use crate::private::Sealed;
use core::fmt::{Debug, Display};
use core::ops::{
    Add, BitAnd, BitOr, BitXor, Div, Index, IndexMut, Mul, Neg, Not, Rem, Shl, Shr, Sub,
};
use vstd::prelude::*;

verus! {

/// Generic vector of any length.
///
/// The model of a vector is the sequence of its lanes as integers
/// ([`IntLanes::lanes`]); `lo()` and `hi()` bound what a lane can hold.
pub trait GVec where
    Self: Sealed + IntLanes + Clone + Copy + PartialEq + Default + Display + Debug + Add<
        Output = Self,
    > + Add<Self::Scalar, Output = Self> + Sub<Output = Self> + Sub<Self::Scalar, Output = Self>
        + Mul<Output = Self> + Mul<Self::Scalar, Output = Self> + Div<Output = Self> + Div<
        Self::Scalar,
        Output = Self,
    > + Rem<Output = Self> + Rem<Self::Scalar, Output = Self> + From<Self::Array> + Into<
        Self::Array,
    > + Index<usize, Output = Self::Scalar> + IndexMut<usize, Output = Self::Scalar> + From<
        Self::BVec,
    >,
    Self::Scalar: 'static + Copy + PartialOrd + Add<Self, Output = Self> + Sub<
        Self,
        Output = Self,
    > + Mul<Self, Output = Self> + Div<Self, Output = Self> + Rem<Self, Output = Self>,
    Self::Axes: Index<usize, Output = Self>,
    Self::Array: Index<usize, Output = Self::Scalar>,
 {
    /// The type of a lane.
    type Scalar;

    /// The mask that comparisons give and `select` takes.
    type BVec: BVec;

    /// The array of the unit vectors.
    type Axes;

    /// The array with one scalar for each lane.
    type Array;

    /// The vector of the same length with `i8` lanes.
    type I8Vec: IntLanes;

    /// The vector of the same length with `u8` lanes.
    type U8Vec: IntLanes;

    /// The vector of the same length with `i16` lanes.
    type I16Vec: IntLanes;

    /// The vector of the same length with `u16` lanes.
    type U16Vec: IntLanes;

    /// The vector of the same length with `i32` lanes.
    type I32Vec: IntLanes;

    /// The vector of the same length with `u32` lanes.
    type U32Vec: IntLanes;

    /// The vector of the same length with `i64` lanes.
    type I64Vec: IntLanes;

    /// The vector of the same length with `u64` lanes.
    type U64Vec: IntLanes;

    /// The vector of the same length with `usize` lanes.
    type USizeVec: IntLanes;

    /// The number of lanes.
    const DIM: usize;

    /// The least value of a lane.
    spec fn lo() -> int;

    /// The greatest value of a lane.
    spec fn hi() -> int;

    /// The integer that a scalar stands for.
    spec fn val(s: Self::Scalar) -> int;

    /// The scalar that stands for `v`, for `v` in `lo()..=hi()`.
    spec fn scalar(v: int) -> Self::Scalar;

    /// The lanes of an array of the vector's length.
    spec fn array_lanes(a: Self::Array) -> Seq<int>;

    /// The lanes of the vector at `i` in an array of unit vectors.
    spec fn axis_lanes(a: Self::Axes, i: int) -> Seq<int>;

    /// `DIM` is the number of lanes of the model, from two to four, and the
    /// mask has as many.
    proof fn dim_is_const()
        ensures
            Self::DIM == Self::dim(),
            2 <= Self::dim() <= 4,
            <Self::BVec>::dim() == Self::dim(),
    ;

    /// Every lane lies in `lo()..=hi()`.
    proof fn lanes_in_range(self)
        ensures
            lanes_fit(self.lanes(), Self::lo(), Self::hi()),
    ;

    /// Two vectors with the same lanes are the same vector.
    proof fn lanes_decide(self, other: Self)
        requires
            self.lanes() == other.lanes(),
        ensures
            self == other,
    ;

    /// A scalar stands for an integer in `lo()..=hi()`, and `scalar` gives it
    /// back.
    proof fn val_of_scalar(s: Self::Scalar)
        ensures
            fits(Self::val(s), Self::lo(), Self::hi()),
            Self::scalar(Self::val(s)) == s,
    ;

    /// `scalar` of an integer in `lo()..=hi()` stands for that integer.
    proof fn scalar_of_val(v: int)
        requires
            fits(v, Self::lo(), Self::hi()),
        ensures
            Self::val(Self::scalar(v)) == v,
    ;

    /// All zeroes.
    fn zero() -> (r: Self)
        ensures
            r.lanes() =~= Seq::new(Self::dim(), |i: int| 0int),
    ;

    /// All ones.
    fn one() -> (r: Self)
        ensures
            r.lanes() =~= Seq::new(Self::dim(), |i: int| 1int),
    ;

    /// All lanes the least value of the scalar.
    fn min_value() -> (r: Self)
        ensures
            r.lanes() =~= Seq::new(Self::dim(), |i: int| Self::lo()),
    ;

    /// All lanes the greatest value of the scalar.
    fn max_value() -> (r: Self)
        ensures
            r.lanes() =~= Seq::new(Self::dim(), |i: int| Self::hi()),
    ;

    /// The unit vectors, that of `x` first.
    fn axes() -> (r: Self::Axes)
        ensures
            forall|i: int|
                0 <= i < Self::dim() ==> #[trigger] Self::axis_lanes(r, i) =~= Seq::new(
                    Self::dim(),
                    |j: int|
                        if j == i {
                            1int
                        } else {
                            0int
                        },
                ),
    ;

    /// The vector with every lane set to `v`.
    fn splat(v: Self::Scalar) -> (r: Self)
        ensures
            r.lanes() =~= Seq::new(Self::dim(), |i: int| Self::val(v)),
    ;

    /// The vector whose lanes are `f` of the lanes of `self`.
    fn map<F: Fn(Self::Scalar) -> Self::Scalar>(self, f: F) -> (r: Self)
        requires
            forall|i: int|
                0 <= i < Self::dim() ==> call_requires(
                    f,
                    (Self::scalar(#[trigger] self.lanes()[i]),),
                ),
        ensures
            r.lanes().len() == Self::dim(),
            forall|i: int|
                0 <= i < Self::dim() ==> call_ensures(
                    f,
                    (Self::scalar(self.lanes()[i]),),
                    Self::scalar(#[trigger] r.lanes()[i]),
                ),
    ;

    /// The vector whose lanes are the elements of `a`.
    fn from_array(a: Self::Array) -> (r: Self)
        ensures
            r.lanes() =~= Self::array_lanes(a),
    ;

    /// The lanes as an array.
    fn to_array(&self) -> (r: Self::Array)
        ensures
            Self::array_lanes(r) =~= self.lanes(),
    ;

    /// The vector whose lanes are the first elements of `slice`.
    fn from_slice(slice: &[Self::Scalar]) -> (r: Self)
        requires
            slice@.len() >= Self::dim(),
        ensures
            r.lanes() =~= Seq::new(Self::dim(), |i: int| Self::val(slice@[i])),
    ;

    /// Writes the lanes to the first elements of `slice` and leaves the rest.
    fn write_to_slice(self, slice: &mut [Self::Scalar])
        requires
            old(slice)@.len() >= Self::dim(),
        ensures
            final(slice)@.len() == old(slice)@.len(),
            forall|i: int|
                0 <= i < Self::dim() ==> Self::val(#[trigger] final(slice)@[i])
                    == self.lanes()[i],
            forall|i: int|
                Self::dim() <= i < old(slice)@.len() ==> #[trigger] final(slice)@[i] == old(
                    slice,
                )@[i],
    ;

    /// The lane at `index`: what indexing the vector gives.
    fn lane(&self, index: usize) -> (r: Self::Scalar)
        requires
            index < Self::dim(),
        ensures
            Self::val(r) == self.lanes()[index as int],
    ;

    /// The dot product of `self` and `rhs`.
    fn dot(self, rhs: Self) -> (r: Self::Scalar)
        requires
            dot_fits(self.lanes(), rhs.lanes(), Self::dim(), Self::lo(), Self::hi()),
        ensures
            Self::val(r) == dot_prefix(self.lanes(), rhs.lanes(), Self::dim()),
    ;

    /// The vector with the dot product of `self` and `rhs` in every lane.
    fn dot_into_vec(self, rhs: Self) -> (r: Self)
        requires
            dot_fits(self.lanes(), rhs.lanes(), Self::dim(), Self::lo(), Self::hi()),
        ensures
            r.lanes() =~= Seq::new(
                Self::dim(),
                |i: int| dot_prefix(self.lanes(), rhs.lanes(), Self::dim()),
            ),
    ;

    /// The lane-wise minimum of `self` and `rhs`.
    fn min(self, rhs: Self) -> (r: Self)
        ensures
            r.lanes() =~= Seq::new(Self::dim(), |i: int| min2(self.lanes()[i], rhs.lanes()[i])),
    ;

    /// The lane-wise maximum of `self` and `rhs`.
    fn max(self, rhs: Self) -> (r: Self)
        ensures
            r.lanes() =~= Seq::new(Self::dim(), |i: int| max2(self.lanes()[i], rhs.lanes()[i])),
    ;

    /// Each lane of `self` held between the lanes of `min` and `max`.
    fn clamp(self, min: Self, max: Self) -> (r: Self)
        requires
            forall|i: int| 0 <= i < Self::dim() ==> min.lanes()[i] <= #[trigger] max.lanes()[i],
        ensures
            r.lanes() =~= Seq::new(
                Self::dim(),
                |i: int| min2(max2(self.lanes()[i], min.lanes()[i]), max.lanes()[i]),
            ),
    ;

    /// The least lane.
    fn min_element(self) -> (r: Self::Scalar)
        ensures
            Self::val(r) == min_prefix(self.lanes(), Self::dim()),
    ;

    /// The greatest lane.
    fn max_element(self) -> (r: Self::Scalar)
        ensures
            Self::val(r) == max_prefix(self.lanes(), Self::dim()),
    ;

    /// The index of the first lane that holds the least value.
    fn min_position(self) -> (r: usize)
        ensures
            first_min_at(self.lanes(), r as int),
    ;

    /// The index of the first lane that holds the greatest value.
    fn max_position(self) -> (r: usize)
        ensures
            first_max_at(self.lanes(), r as int),
    ;

    /// The sum of the lanes.
    fn element_sum(self) -> (r: Self::Scalar)
        requires
            sum_fits(self.lanes(), Self::dim(), Self::lo(), Self::hi()),
        ensures
            Self::val(r) == sum_prefix(self.lanes(), Self::dim()),
    ;

    /// The product of the lanes.
    fn element_product(self) -> (r: Self::Scalar)
        requires
            product_fits(self.lanes(), Self::dim(), Self::lo(), Self::hi()),
        ensures
            Self::val(r) == product_prefix(self.lanes(), Self::dim()),
    ;

    /// Takes each lane from `if_true` where the lane of `mask` is true, and
    /// from `if_false` where it is false.
    fn select(mask: Self::BVec, if_true: Self, if_false: Self) -> (r: Self)
        ensures
            r.lanes() =~= Seq::new(
                Self::dim(),
                |i: int|
                    if mask.lanes()[i] {
                        if_true.lanes()[i]
                    } else {
                        if_false.lanes()[i]
                    },
            ),
    ;

    /// The mask of the lanes where `self == rhs`.
    fn cmpeq(self, rhs: Self) -> (r: Self::BVec)
        ensures
            r.lanes() =~= Seq::new(Self::dim(), |i: int| self.lanes()[i] == rhs.lanes()[i]),
    ;

    /// The mask of the lanes where `self != rhs`.
    fn cmpne(self, rhs: Self) -> (r: Self::BVec)
        ensures
            r.lanes() =~= Seq::new(Self::dim(), |i: int| self.lanes()[i] != rhs.lanes()[i]),
    ;

    /// The mask of the lanes where `self >= rhs`.
    fn cmpge(self, rhs: Self) -> (r: Self::BVec)
        ensures
            r.lanes() =~= Seq::new(Self::dim(), |i: int| self.lanes()[i] >= rhs.lanes()[i]),
    ;

    /// The mask of the lanes where `self > rhs`.
    fn cmpgt(self, rhs: Self) -> (r: Self::BVec)
        ensures
            r.lanes() =~= Seq::new(Self::dim(), |i: int| self.lanes()[i] > rhs.lanes()[i]),
    ;

    /// The mask of the lanes where `self <= rhs`.
    fn cmple(self, rhs: Self) -> (r: Self::BVec)
        ensures
            r.lanes() =~= Seq::new(Self::dim(), |i: int| self.lanes()[i] <= rhs.lanes()[i]),
    ;

    /// The mask of the lanes where `self < rhs`.
    fn cmplt(self, rhs: Self) -> (r: Self::BVec)
        ensures
            r.lanes() =~= Seq::new(Self::dim(), |i: int| self.lanes()[i] < rhs.lanes()[i]),
    ;

    /// The dot product of `self` with itself.
    fn length_squared(self) -> (r: Self::Scalar)
        requires
            dot_fits(self.lanes(), self.lanes(), Self::dim(), Self::lo(), Self::hi()),
        ensures
            Self::val(r) == dot_prefix(self.lanes(), self.lanes(), Self::dim()),
    ;

    /// Each lane cast to `i8` with `as`.
    fn as_i8vec(&self) -> (r: Self::I8Vec)
        ensures
            r.lanes() =~= Seq::new(Self::dim(), |i: int| (self.lanes()[i] as i8) as int),
    ;

    /// Each lane cast to `u8` with `as`.
    fn as_u8vec(&self) -> (r: Self::U8Vec)
        ensures
            r.lanes() =~= Seq::new(Self::dim(), |i: int| (self.lanes()[i] as u8) as int),
    ;

    /// Each lane cast to `i16` with `as`.
    fn as_i16vec(&self) -> (r: Self::I16Vec)
        ensures
            r.lanes() =~= Seq::new(Self::dim(), |i: int| (self.lanes()[i] as i16) as int),
    ;

    /// Each lane cast to `u16` with `as`.
    fn as_u16vec(&self) -> (r: Self::U16Vec)
        ensures
            r.lanes() =~= Seq::new(Self::dim(), |i: int| (self.lanes()[i] as u16) as int),
    ;

    /// Each lane cast to `i32` with `as`.
    fn as_ivec(&self) -> (r: Self::I32Vec)
        ensures
            r.lanes() =~= Seq::new(Self::dim(), |i: int| (self.lanes()[i] as i32) as int),
    ;

    /// Each lane cast to `u32` with `as`.
    fn as_uvec(&self) -> (r: Self::U32Vec)
        ensures
            r.lanes() =~= Seq::new(Self::dim(), |i: int| (self.lanes()[i] as u32) as int),
    ;

    /// Each lane cast to `i64` with `as`.
    fn as_i64vec(&self) -> (r: Self::I64Vec)
        ensures
            r.lanes() =~= Seq::new(Self::dim(), |i: int| (self.lanes()[i] as i64) as int),
    ;

    /// Each lane cast to `u64` with `as`.
    fn as_u64vec(&self) -> (r: Self::U64Vec)
        ensures
            r.lanes() =~= Seq::new(Self::dim(), |i: int| (self.lanes()[i] as u64) as int),
    ;

    /// Each lane cast to `usize` with `as`.
    fn as_usizevec(&self) -> (r: Self::USizeVec)
        ensures
            r.lanes() =~= Seq::new(Self::dim(), |i: int| (self.lanes()[i] as usize) as int),
    ;
}

/// Vector of any length whose elements are a signed type.
pub trait SignedVec: GVec + Neg {
    /// The least lane value is negative: the scalar is signed.
    proof fn lo_is_negative()
        ensures
            Self::lo() < 0,
            Self::hi() == -Self::lo() - 1,
    ;

    /// All negative ones.
    fn neg_one() -> (r: Self)
        ensures
            r.lanes() =~= Seq::new(Self::dim(), |i: int| -1int),
    ;

    /// The absolute value of each lane.
    fn abs(self) -> (r: Self)
        requires
            forall|i: int| 0 <= i < Self::dim() ==> #[trigger] self.lanes()[i] != Self::lo(),
        ensures
            r.lanes() =~= Seq::new(Self::dim(), |i: int| magnitude(self.lanes()[i])),
    ;

    /// The sign of each lane: `-1`, `0` or `1`.
    fn signum(self) -> (r: Self)
        ensures
            r.lanes() =~= Seq::new(Self::dim(), |i: int| sign(self.lanes()[i])),
    ;

    /// The signs of the lanes as bits, lane 0 lowest: a bit is set where the
    /// lane is negative.
    fn is_negative_bitmask(self) -> (r: u32)
        ensures
            r == sign_bits(self.lanes(), Self::dim()),
    ;

    /// The squared distance between `self` and `rhs`.
    fn distance_squared(self, rhs: Self) -> (r: Self::Scalar)
        requires
            lanes_fit(lane_diff(self.lanes(), rhs.lanes()), Self::lo(), Self::hi()),
            dot_fits(
                lane_diff(self.lanes(), rhs.lanes()),
                lane_diff(self.lanes(), rhs.lanes()),
                Self::dim(),
                Self::lo(),
                Self::hi(),
            ),
        ensures
            Self::val(r) == dot_prefix(
                lane_diff(self.lanes(), rhs.lanes()),
                lane_diff(self.lanes(), rhs.lanes()),
                Self::dim(),
            ),
    ;

    /// The lane-wise quotient of Euclidean division.
    fn div_euclid(self, rhs: Self) -> (r: Self)
        requires
            lanes_nonzero(rhs.lanes()),
            forall|i: int|
                0 <= i < Self::dim() ==> !(#[trigger] self.lanes()[i] == Self::lo()
                    && rhs.lanes()[i] == -1),
        ensures
            r.lanes() =~= Seq::new(Self::dim(), |i: int| self.lanes()[i] / rhs.lanes()[i]),
    ;

    /// The lane-wise remainder of Euclidean division, never negative.
    fn rem_euclid(self, rhs: Self) -> (r: Self)
        requires
            lanes_nonzero(rhs.lanes()),
            forall|i: int|
                0 <= i < Self::dim() ==> !(#[trigger] self.lanes()[i] == Self::lo()
                    && rhs.lanes()[i] == -1),
        ensures
            r.lanes() =~= Seq::new(Self::dim(), |i: int| self.lanes()[i] % rhs.lanes()[i]),
    ;
}

/// Vector of any length whose elements are an integer type.
pub trait IntVec where
    Self: GVec + Eq + Not<Output = Self> + BitAnd<Output = Self> + BitAnd<
        Self::Scalar,
        Output = Self,
    > + BitOr<Output = Self> + BitOr<Self::Scalar, Output = Self> + BitXor<Output = Self>
        + BitXor<Self::Scalar, Output = Self> + Shl<i8, Output = Self> + Shr<i8, Output = Self>
        + Shl<i16, Output = Self> + Shr<i16, Output = Self> + Shl<i32, Output = Self> + Shr<
        i32,
        Output = Self,
    > + Shl<i64, Output = Self> + Shr<i64, Output = Self> + Shl<u8, Output = Self> + Shr<
        u8,
        Output = Self,
    > + Shl<u16, Output = Self> + Shr<u16, Output = Self> + Shl<u32, Output = Self> + Shr<
        u32,
        Output = Self,
    > + Shl<u64, Output = Self> + Shr<u64, Output = Self>,
 {
    /// The unsigned integer as wide as a lane.
    type UnsignedScalar;

    /// The integer that an unsigned scalar stands for.
    spec fn uval(u: Self::UnsignedScalar) -> int;

    /// An unsigned scalar stands for an integer from zero to `hi() - lo()`.
    proof fn uval_in_range(u: Self::UnsignedScalar)
        ensures
            fits(Self::uval(u), 0, Self::hi() - Self::lo()),
    ;

    /// The lane-wise sum, or `None` where a lane leaves the scalar's range.
    fn checked_add(self, rhs: Self) -> (r: Option<Self>)
        ensures
            r.is_some() <==> lanes_fit(
                lane_sum(self.lanes(), rhs.lanes()),
                Self::lo(),
                Self::hi(),
            ),
            r.is_some() ==> r.unwrap().lanes() =~= lane_sum(self.lanes(), rhs.lanes()),
    ;

    /// The lane-wise difference, or `None` where a lane leaves the scalar's
    /// range.
    fn checked_sub(self, rhs: Self) -> (r: Option<Self>)
        ensures
            r.is_some() <==> lanes_fit(
                lane_diff(self.lanes(), rhs.lanes()),
                Self::lo(),
                Self::hi(),
            ),
            r.is_some() ==> r.unwrap().lanes() =~= lane_diff(self.lanes(), rhs.lanes()),
    ;

    /// The lane-wise product, or `None` where a lane leaves the scalar's range.
    fn checked_mul(self, rhs: Self) -> (r: Option<Self>)
        ensures
            r.is_some() <==> lanes_fit(
                lane_mul(self.lanes(), rhs.lanes()),
                Self::lo(),
                Self::hi(),
            ),
            r.is_some() ==> r.unwrap().lanes() =~= lane_mul(self.lanes(), rhs.lanes()),
    ;

    /// The lane-wise quotient rounded towards zero, or `None` where a lane of
    /// `rhs` is zero or a quotient leaves the scalar's range.
    fn checked_div(self, rhs: Self) -> (r: Option<Self>)
        ensures
            r.is_some() <==> lanes_nonzero(rhs.lanes()) && lanes_fit(
                lane_quot(self.lanes(), rhs.lanes()),
                Self::lo(),
                Self::hi(),
            ),
            r.is_some() ==> r.unwrap().lanes() =~= lane_quot(self.lanes(), rhs.lanes()),
    ;

    /// The lane-wise sum, wrapped into the scalar's range.
    fn wrapping_add(self, rhs: Self) -> (r: Self)
        ensures
            r.lanes() =~= lanes_wrapped(
                lane_sum(self.lanes(), rhs.lanes()),
                Self::lo(),
                Self::hi(),
            ),
    ;

    /// The lane-wise difference, wrapped into the scalar's range.
    fn wrapping_sub(self, rhs: Self) -> (r: Self)
        ensures
            r.lanes() =~= lanes_wrapped(
                lane_diff(self.lanes(), rhs.lanes()),
                Self::lo(),
                Self::hi(),
            ),
    ;

    /// The lane-wise product, wrapped into the scalar's range.
    fn wrapping_mul(self, rhs: Self) -> (r: Self)
        ensures
            r.lanes() =~= lanes_wrapped(
                lane_mul(self.lanes(), rhs.lanes()),
                Self::lo(),
                Self::hi(),
            ),
    ;

    /// The lane-wise quotient rounded towards zero, wrapped into the scalar's
    /// range.
    fn wrapping_div(self, rhs: Self) -> (r: Self)
        requires
            lanes_nonzero(rhs.lanes()),
        ensures
            r.lanes() =~= lanes_wrapped(
                lane_quot(self.lanes(), rhs.lanes()),
                Self::lo(),
                Self::hi(),
            ),
    ;

    /// The lane-wise sum, saturated to the scalar's range.
    fn saturating_add(self, rhs: Self) -> (r: Self)
        ensures
            r.lanes() =~= lanes_saturated(
                lane_sum(self.lanes(), rhs.lanes()),
                Self::lo(),
                Self::hi(),
            ),
    ;

    /// The lane-wise difference, saturated to the scalar's range.
    fn saturating_sub(self, rhs: Self) -> (r: Self)
        ensures
            r.lanes() =~= lanes_saturated(
                lane_diff(self.lanes(), rhs.lanes()),
                Self::lo(),
                Self::hi(),
            ),
    ;

    /// The lane-wise product, saturated to the scalar's range.
    fn saturating_mul(self, rhs: Self) -> (r: Self)
        ensures
            r.lanes() =~= lanes_saturated(
                lane_mul(self.lanes(), rhs.lanes()),
                Self::lo(),
                Self::hi(),
            ),
    ;

    /// The lane-wise quotient rounded towards zero, saturated to the scalar's
    /// range.
    fn saturating_div(self, rhs: Self) -> (r: Self)
        requires
            lanes_nonzero(rhs.lanes()),
        ensures
            r.lanes() =~= lanes_saturated(
                lane_quot(self.lanes(), rhs.lanes()),
                Self::lo(),
                Self::hi(),
            ),
    ;

    /// The sum of the distances between the lanes of `self` and `rhs`.
    fn manhattan_distance(self, rhs: Self) -> (r: Self::UnsignedScalar)
        requires
            gap_sum(self.lanes(), rhs.lanes(), Self::dim()) <= Self::hi() - Self::lo(),
        ensures
            Self::uval(r) == gap_sum(self.lanes(), rhs.lanes(), Self::dim()),
    ;

    /// The sum of the distances between the lanes of `self` and `rhs`, or
    /// `None` where the unsigned scalar cannot hold it.
    fn checked_manhattan_distance(self, rhs: Self) -> (r: Option<Self::UnsignedScalar>)
        ensures
            r.is_some() <==> gap_sum(self.lanes(), rhs.lanes(), Self::dim()) <= Self::hi()
                - Self::lo(),
            r.is_some() ==> Self::uval(r.unwrap()) == gap_sum(
                self.lanes(),
                rhs.lanes(),
                Self::dim(),
            ),
    ;

    /// The greatest distance between a lane of `self` and that of `rhs`.
    fn chebyshev_distance(self, rhs: Self) -> (r: Self::UnsignedScalar)
        ensures
            Self::uval(r) == gap_max(self.lanes(), rhs.lanes(), Self::dim()),
    ;
}

/// Vector of any length whose elements are a signed integer type.
pub trait SIntVec: IntVec + SignedVec {
}

/// Vector of any length whose elements are an unsigned integer type.
pub trait UIntVec: IntVec {
    /// The least lane value is zero: the scalar is unsigned.
    proof fn lo_is_zero()
        ensures
            Self::lo() == 0,
    ;
}

/// Vector of any length whose elements are [`i8`].
pub trait I8Vec: SIntVec<Scalar = i8> {
    /// A lane holds what an `i8` holds, and a scalar stands for itself.
    proof fn lanes_are_i8(s: i8)
        ensures
            Self::lo() == i8::MIN,
            Self::hi() == i8::MAX,
            Self::val(s) == s,
    ;
}

/// Vector of any length whose elements are [`u8`].
pub trait U8Vec: UIntVec<Scalar = u8> {
    /// A lane holds what an `u8` holds, and a scalar stands for itself.
    proof fn lanes_are_u8(s: u8)
        ensures
            Self::lo() == u8::MIN,
            Self::hi() == u8::MAX,
            Self::val(s) == s,
    ;
}

/// Vector of any length whose elements are [`i16`].
pub trait I16Vec: SIntVec<Scalar = i16> {
    /// A lane holds what an `i16` holds, and a scalar stands for itself.
    proof fn lanes_are_i16(s: i16)
        ensures
            Self::lo() == i16::MIN,
            Self::hi() == i16::MAX,
            Self::val(s) == s,
    ;
}

/// Vector of any length whose elements are [`u16`].
pub trait U16Vec: UIntVec<Scalar = u16> {
    /// A lane holds what an `u16` holds, and a scalar stands for itself.
    proof fn lanes_are_u16(s: u16)
        ensures
            Self::lo() == u16::MIN,
            Self::hi() == u16::MAX,
            Self::val(s) == s,
    ;
}

/// Vector of any length whose elements are [`i32`].
pub trait I32Vec: SIntVec<Scalar = i32> {
    /// A lane holds what an `i32` holds, and a scalar stands for itself.
    proof fn lanes_are_i32(s: i32)
        ensures
            Self::lo() == i32::MIN,
            Self::hi() == i32::MAX,
            Self::val(s) == s,
    ;
}

/// Vector of any length whose elements are [`u32`].
pub trait U32Vec: UIntVec<Scalar = u32> {
    /// A lane holds what an `u32` holds, and a scalar stands for itself.
    proof fn lanes_are_u32(s: u32)
        ensures
            Self::lo() == u32::MIN,
            Self::hi() == u32::MAX,
            Self::val(s) == s,
    ;
}

/// Vector of any length whose elements are [`i64`].
pub trait I64Vec: SIntVec<Scalar = i64> {
    /// A lane holds what an `i64` holds, and a scalar stands for itself.
    proof fn lanes_are_i64(s: i64)
        ensures
            Self::lo() == i64::MIN,
            Self::hi() == i64::MAX,
            Self::val(s) == s,
    ;
}

/// Vector of any length whose elements are [`u64`].
pub trait U64Vec: UIntVec<Scalar = u64> {
    /// A lane holds what an `u64` holds, and a scalar stands for itself.
    proof fn lanes_are_u64(s: u64)
        ensures
            Self::lo() == u64::MIN,
            Self::hi() == u64::MAX,
            Self::val(s) == s,
    ;
}

/// Vector of any length whose elements are [`usize`].
pub trait USizeVec: UIntVec<Scalar = usize> {
    /// A lane holds what an `usize` holds, and a scalar stands for itself.
    proof fn lanes_are_usize(s: usize)
        ensures
            Self::lo() == usize::MIN,
            Self::hi() == usize::MAX,
            Self::val(s) == s,
    ;
}

} // verus!
