//! Traits of the integer vectors of length 4.

use crate::lanes::IntLanes;
use crate::vec::{GVec, IntVec, SIntVec, SignedVec, UIntVec};
use core::ops::{Shl, Shr};
use glam::{
    BVec4, I16Vec4, I64Vec4, I8Vec4, IVec4, U16Vec4, U64Vec4, U8Vec4, USizeVec4, UVec4,
};
use vstd::prelude::*;

verus! {

/// Generic vector of length 4.
pub trait GVec4 where
    Self: GVec<
        Axes = [Self; 4],
        Array = [<Self as GVec>::Scalar; 4],
        I8Vec = I8Vec4,
        U8Vec = U8Vec4,
        I16Vec = I16Vec4,
        U16Vec = U16Vec4,
        I32Vec = IVec4,
        U32Vec = UVec4,
        I64Vec = I64Vec4,
        U64Vec = U64Vec4,
        USizeVec = USizeVec4,
    > + From<(Self::Scalar, Self::Scalar, Self::Scalar, Self::Scalar)>
        + Into<(Self::Scalar, Self::Scalar, Self::Scalar, Self::Scalar)>,
 {
    /// The vector with one lane less.
    type Truncated: IntLanes;

    /// A vector of this kind has four lanes.
    proof fn dim_is_four()
        ensures
            Self::dim() == 4,
    ;

    /// The unit vector along `x`.
    fn unit_x() -> (r: Self)
        ensures
            r.lanes() =~= seq![1int, 0int, 0int, 0int],
    ;

    /// The unit vector along `y`.
    fn unit_y() -> (r: Self)
        ensures
            r.lanes() =~= seq![0int, 1int, 0int, 0int],
    ;

    /// The unit vector along `z`.
    fn unit_z() -> (r: Self)
        ensures
            r.lanes() =~= seq![0int, 0int, 1int, 0int],
    ;

    /// The unit vector along `w`.
    fn unit_w() -> (r: Self)
        ensures
            r.lanes() =~= seq![0int, 0int, 0int, 1int],
    ;

    /// The lane `x`.
    fn x(self) -> (r: Self::Scalar)
        ensures
            Self::val(r) == self.lanes()[0],
    ;

    /// The lane `y`.
    fn y(self) -> (r: Self::Scalar)
        ensures
            Self::val(r) == self.lanes()[1],
    ;

    /// The lane `z`.
    fn z(self) -> (r: Self::Scalar)
        ensures
            Self::val(r) == self.lanes()[2],
    ;

    /// The lane `w`.
    fn w(self) -> (r: Self::Scalar)
        ensures
            Self::val(r) == self.lanes()[3],
    ;

    /// The vector with the given lanes.
    fn new(x: Self::Scalar, y: Self::Scalar, z: Self::Scalar, w: Self::Scalar) -> (r: Self)
        ensures
            r.lanes() =~= seq![Self::val(x), Self::val(y), Self::val(z), Self::val(w)],
    ;

    /// The vector of `self` without its last lane.
    fn truncate(self) -> (r: Self::Truncated)
        ensures
            r.lanes() =~= self.lanes().subrange(0, 3),
    ;

    /// `self` with the lane `x` replaced.
    fn with_x(self, x: Self::Scalar) -> (r: Self)
        ensures
            r.lanes() =~= self.lanes().update(0, Self::val(x)),
    ;

    /// `self` with the lane `y` replaced.
    fn with_y(self, y: Self::Scalar) -> (r: Self)
        ensures
            r.lanes() =~= self.lanes().update(1, Self::val(y)),
    ;

    /// `self` with the lane `z` replaced.
    fn with_z(self, z: Self::Scalar) -> (r: Self)
        ensures
            r.lanes() =~= self.lanes().update(2, Self::val(z)),
    ;

    /// `self` with the lane `w` replaced.
    fn with_w(self, w: Self::Scalar) -> (r: Self)
        ensures
            r.lanes() =~= self.lanes().update(3, Self::val(w)),
    ;
}

/// Vector of length 4 whose elements are a signed type.
pub trait SignedVec4: SignedVec + GVec4 {
    /// The unit vector against `x`.
    fn neg_unit_x() -> (r: Self)
        ensures
            r.lanes() =~= seq![-1int, 0int, 0int, 0int],
    ;

    /// The unit vector against `y`.
    fn neg_unit_y() -> (r: Self)
        ensures
            r.lanes() =~= seq![0int, -1int, 0int, 0int],
    ;

    /// The unit vector against `z`.
    fn neg_unit_z() -> (r: Self)
        ensures
            r.lanes() =~= seq![0int, 0int, -1int, 0int],
    ;

    /// The unit vector against `w`.
    fn neg_unit_w() -> (r: Self)
        ensures
            r.lanes() =~= seq![0int, 0int, 0int, -1int],
    ;
}

/// Vector of length 4 whose elements are an integer type.
pub trait IntVec4 where
    Self: IntVec + GVec4<BVec = BVec4> + Shl<IVec4, Output = Self> + Shr<IVec4, Output = Self>
        + Shl<UVec4, Output = Self> + Shr<UVec4, Output = Self>,
 {
}

/// Vector of length 4 whose elements are a signed integer type.
pub trait SIntVec4: SIntVec + IntVec4 {
}

/// Vector of length 4 whose elements are an unsigned integer type.
pub trait UIntVec4: UIntVec + IntVec4 {
}

} // verus!
