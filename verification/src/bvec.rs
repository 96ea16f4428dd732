//! Traits of the boolean vectors.

use crate::lanes::BoolLanes;
use crate::math::{any_lane, every_lane, true_bits};
use crate::private::Sealed;
use core::fmt::{Debug, Display};
use core::hash::Hash;
use core::ops::{BitAnd, BitOr, BitXor, Index, Not};
use vstd::prelude::*;

verus! {

/// Vector of any length whose elements are [`bool`].
pub trait BVec where
    Self: Sealed + BoolLanes + Clone + Copy + PartialEq + Eq + Hash + Default + Not<
        Output = Self,
    > + BitAnd<Output = Self> + BitOr<Output = Self> + BitXor<Output = Self> + Debug + Display
        + From<Self::Array> + Into<Self::Array>,
    Self::Array: Index<usize, Output = bool>,
 {
    /// The array with one `bool` for each lane.
    type Array;

    /// The number of lanes.
    const DIM: usize;

    /// The lanes of an array of the vector's length.
    spec fn array_lanes(a: Self::Array) -> Seq<bool>;

    /// `DIM` is the number of lanes of the model, from two to four.
    proof fn dim_is_const()
        ensures
            Self::DIM == Self::dim(),
            2 <= Self::dim() <= 4,
    ;

    /// The mask with every lane false.
    fn all_false() -> (r: Self)
        ensures
            r.lanes() =~= Seq::new(Self::dim(), |i: int| false),
    ;

    /// The mask with every lane true.
    fn all_true() -> (r: Self)
        ensures
            r.lanes() =~= Seq::new(Self::dim(), |i: int| true),
    ;

    /// The mask with every lane set to `v`.
    fn splat(v: bool) -> (r: Self)
        ensures
            r.lanes() =~= Seq::new(Self::dim(), |i: int| v),
    ;

    /// The mask whose lanes are the elements of `a`.
    fn from_array(a: Self::Array) -> (r: Self)
        ensures
            r.lanes() =~= Self::array_lanes(a),
    ;

    /// The lanes as bits, lane 0 lowest.
    fn bitmask(self) -> (r: u32)
        ensures
            r == true_bits(self.lanes(), Self::dim()),
    ;

    /// Whether some lane is true.
    fn any(self) -> (r: bool)
        ensures
            r == any_lane(self.lanes(), Self::dim()),
    ;

    /// Whether every lane is true.
    fn all(self) -> (r: bool)
        ensures
            r == every_lane(self.lanes(), Self::dim()),
    ;

    /// The lane at `index`.
    fn test(&self, index: usize) -> (r: bool)
        requires
            index < Self::dim(),
        ensures
            r == self.lanes()[index as int],
    ;

    /// Sets the lane at `index` to `value` and leaves the others.
    fn set(&mut self, index: usize, value: bool)
        requires
            index < Self::dim(),
        ensures
            final(self).lanes() =~= old(self).lanes().update(index as int, value),
    ;
}

/// Boolean vector of any length, without its array form.
pub trait GBVec where
    Self: BoolLanes + Clone + Copy + PartialEq + Eq + Hash + Default + Not + BitAnd + BitOr
        + BitXor + Debug + Display,
 {
    /// The number of lanes.
    const DIM: usize;

    /// `DIM` is the number of lanes of the model, from two to four.
    proof fn dim_is_const()
        ensures
            Self::DIM == Self::dim(),
            2 <= Self::dim() <= 4,
    ;

    /// The mask with every lane false.
    fn all_false() -> (r: Self)
        ensures
            r.lanes() =~= Seq::new(Self::dim(), |i: int| false),
    ;

    /// The mask with every lane true.
    fn all_true() -> (r: Self)
        ensures
            r.lanes() =~= Seq::new(Self::dim(), |i: int| true),
    ;

    /// The mask with every lane set to `v`.
    fn splat(v: bool) -> (r: Self)
        ensures
            r.lanes() =~= Seq::new(Self::dim(), |i: int| v),
    ;

    /// The lanes as bits, lane 0 lowest.
    fn bitmask(self) -> (r: u32)
        ensures
            r == true_bits(self.lanes(), Self::dim()),
    ;

    /// Whether some lane is true.
    fn any(self) -> (r: bool)
        ensures
            r == any_lane(self.lanes(), Self::dim()),
    ;

    /// Whether every lane is true.
    fn all(self) -> (r: bool)
        ensures
            r == every_lane(self.lanes(), Self::dim()),
    ;

    /// The lane at `index`.
    fn test(&self, index: usize) -> (r: bool)
        requires
            index < Self::dim(),
        ensures
            r == self.lanes()[index as int],
    ;

    /// Sets the lane at `index` to `value` and leaves the others.
    fn set(&mut self, index: usize, value: bool)
        requires
            index < Self::dim(),
        ensures
            final(self).lanes() =~= old(self).lanes().update(index as int, value),
    ;
}

/// Boolean vector of length 3.
pub trait GBVec3 where
    Self: BoolLanes + Clone + Copy + PartialEq + Eq + Hash + Default + Not + BitAnd + BitOr
        + BitXor + Debug + Display + Into<[bool; 3]> + Into<[u32; 3]>,
 {
    /// A mask of this kind has three lanes.
    proof fn dim_is_three()
        ensures
            Self::dim() == 3,
    ;

    /// The mask with every lane false.
    fn all_false() -> (r: Self)
        ensures
            r.lanes() =~= seq![false, false, false],
    ;

    /// The mask with every lane true.
    fn all_true() -> (r: Self)
        ensures
            r.lanes() =~= seq![true, true, true],
    ;

    /// The mask with every lane set to `v`.
    fn splat(v: bool) -> (r: Self)
        ensures
            r.lanes() =~= seq![v, v, v],
    ;

    /// The lanes as bits, lane 0 lowest.
    fn bitmask(self) -> (r: u32)
        ensures
            r == true_bits(self.lanes(), 3),
    ;

    /// Whether some lane is true.
    fn any(self) -> (r: bool)
        ensures
            r == any_lane(self.lanes(), 3),
    ;

    /// Whether every lane is true.
    fn all(self) -> (r: bool)
        ensures
            r == every_lane(self.lanes(), 3),
    ;

    /// The lane at `index`.
    fn test(&self, index: usize) -> (r: bool)
        requires
            index < 3,
        ensures
            r == self.lanes()[index as int],
    ;

    /// Sets the lane at `index` to `value` and leaves the others.
    fn set(&mut self, index: usize, value: bool)
        requires
            index < 3,
        ensures
            final(self).lanes() =~= old(self).lanes().update(index as int, value),
    ;

    /// The mask with the lanes `x`, `y` and `z`.
    fn new(x: bool, y: bool, z: bool) -> (r: Self)
        ensures
            r.lanes() =~= seq![x, y, z],
    ;
}

/// Boolean vector of length 4.
pub trait GBVec4 where
    Self: BoolLanes + Clone + Copy + PartialEq + Eq + Hash + Default + Not + BitAnd + BitOr
        + BitXor + Debug + Display + From<[bool; 4]> + Into<[bool; 4]> + Into<[u32; 4]>,
 {
    /// A mask of this kind has four lanes.
    proof fn dim_is_four()
        ensures
            Self::dim() == 4,
    ;

    /// The mask with every lane false.
    fn all_false() -> (r: Self)
        ensures
            r.lanes() =~= seq![false, false, false, false],
    ;

    /// The mask with every lane true.
    fn all_true() -> (r: Self)
        ensures
            r.lanes() =~= seq![true, true, true, true],
    ;

    /// The mask with every lane set to `v`.
    fn splat(v: bool) -> (r: Self)
        ensures
            r.lanes() =~= seq![v, v, v, v],
    ;

    /// The lanes as bits, lane 0 lowest.
    fn bitmask(self) -> (r: u32)
        ensures
            r == true_bits(self.lanes(), 4),
    ;

    /// Whether some lane is true.
    fn any(self) -> (r: bool)
        ensures
            r == any_lane(self.lanes(), 4),
    ;

    /// Whether every lane is true.
    fn all(self) -> (r: bool)
        ensures
            r == every_lane(self.lanes(), 4),
    ;

    /// The lane at `index`.
    fn test(&self, index: usize) -> (r: bool)
        requires
            index < 4,
        ensures
            r == self.lanes()[index as int],
    ;

    /// Sets the lane at `index` to `value` and leaves the others.
    fn set(&mut self, index: usize, value: bool)
        requires
            index < 4,
        ensures
            final(self).lanes() =~= old(self).lanes().update(index as int, value),
    ;

    /// The mask with the lanes `x`, `y`, `z` and `w`.
    fn new(x: bool, y: bool, z: bool, w: bool) -> (r: Self)
        ensures
            r.lanes() =~= seq![x, y, z, w],
    ;

    /// The mask whose lanes are the elements of `a`.
    fn from_array(a: [bool; 4]) -> (r: Self)
        ensures
            r.lanes() =~= a@,
    ;
}

} // verus!
