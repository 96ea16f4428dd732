//! Traits of the integer vectors of length 3.

use crate::lanes::IntLanes;
use crate::math::{cross_fits, cross_lanes};
use crate::vec::{GVec, IntVec, SIntVec, SignedVec, UIntVec};
use core::ops::{Shl, Shr};
use glam::{
    BVec3, I16Vec3, I64Vec3, I8Vec3, IVec3, U16Vec3, U64Vec3, U8Vec3, USizeVec3, UVec3,
};
use vstd::prelude::*;

verus! {

/// Generic vector of length 3.
pub trait GVec3 where
    Self: GVec<
        Axes = [Self; 3],
        Array = [<Self as GVec>::Scalar; 3],
        I8Vec = I8Vec3,
        U8Vec = U8Vec3,
        I16Vec = I16Vec3,
        U16Vec = U16Vec3,
        I32Vec = IVec3,
        U32Vec = UVec3,
        I64Vec = I64Vec3,
        U64Vec = U64Vec3,
        USizeVec = USizeVec3,
    > + From<(Self::Scalar, Self::Scalar, Self::Scalar)>
        + Into<(Self::Scalar, Self::Scalar, Self::Scalar)>,
 {
    /// The vector with one lane more.
    type Extended: IntLanes;

    /// The vector with one lane less.
    type Truncated: IntLanes;

    /// A vector of this kind has three lanes.
    proof fn dim_is_three()
        ensures
            Self::dim() == 3,
    ;

    /// The unit vector along `x`.
    fn unit_x() -> (r: Self)
        ensures
            r.lanes() =~= seq![1int, 0int, 0int],
    ;

    /// The unit vector along `y`.
    fn unit_y() -> (r: Self)
        ensures
            r.lanes() =~= seq![0int, 1int, 0int],
    ;

    /// The unit vector along `z`.
    fn unit_z() -> (r: Self)
        ensures
            r.lanes() =~= seq![0int, 0int, 1int],
    ;

    /// The lane `x`.
    fn x(self) -> (r: Self::Scalar)
        ensures
            Self::val(r) == self.lanes()[0],
    ;

    /// The lane `y`.
    fn y(self) -> (r: Self::Scalar)
        ensures
            Self::val(r) == self.lanes()[1],
    ;

    /// The lane `z`.
    fn z(self) -> (r: Self::Scalar)
        ensures
            Self::val(r) == self.lanes()[2],
    ;

    /// The vector with the given lanes.
    fn new(x: Self::Scalar, y: Self::Scalar, z: Self::Scalar) -> (r: Self)
        ensures
            r.lanes() =~= seq![Self::val(x), Self::val(y), Self::val(z)],
    ;

    /// The vector of `self` followed by the lane `w`.
    fn extend(self, w: Self::Scalar) -> (r: Self::Extended)
        ensures
            r.lanes() =~= self.lanes().push(Self::val(w)),
    ;

    /// The vector of `self` without its last lane.
    fn truncate(self) -> (r: Self::Truncated)
        ensures
            r.lanes() =~= self.lanes().subrange(0, 2),
    ;

    /// `self` with the lane `x` replaced.
    fn with_x(self, x: Self::Scalar) -> (r: Self)
        ensures
            r.lanes() =~= self.lanes().update(0, Self::val(x)),
    ;

    /// `self` with the lane `y` replaced.
    fn with_y(self, y: Self::Scalar) -> (r: Self)
        ensures
            r.lanes() =~= self.lanes().update(1, Self::val(y)),
    ;

    /// `self` with the lane `z` replaced.
    fn with_z(self, z: Self::Scalar) -> (r: Self)
        ensures
            r.lanes() =~= self.lanes().update(2, Self::val(z)),
    ;

    /// The cross product of `self` and `rhs`.
    fn cross(self, rhs: Self) -> (r: Self)
        requires
            cross_fits(self.lanes(), rhs.lanes(), Self::lo(), Self::hi()),
        ensures
            r.lanes() =~= cross_lanes(self.lanes(), rhs.lanes()),
    ;
}

/// Vector of length 3 whose elements are a signed type.
pub trait SignedVec3: SignedVec + GVec3 {
    /// The unit vector against `x`.
    fn neg_unit_x() -> (r: Self)
        ensures
            r.lanes() =~= seq![-1int, 0int, 0int],
    ;

    /// The unit vector against `y`.
    fn neg_unit_y() -> (r: Self)
        ensures
            r.lanes() =~= seq![0int, -1int, 0int],
    ;

    /// The unit vector against `z`.
    fn neg_unit_z() -> (r: Self)
        ensures
            r.lanes() =~= seq![0int, 0int, -1int],
    ;
}

/// Vector of length 3 whose elements are an integer type.
pub trait IntVec3 where
    Self: IntVec + GVec3<BVec = BVec3> + Shl<IVec3, Output = Self> + Shr<IVec3, Output = Self>
        + Shl<UVec3, Output = Self> + Shr<UVec3, Output = Self>,
 {
}

/// Vector of length 3 whose elements are a signed integer type.
pub trait SIntVec3: SIntVec + IntVec3 {
}

/// Vector of length 3 whose elements are an unsigned integer type.
pub trait UIntVec3: UIntVec + IntVec3 {
}

} // verus!
