//! Traits of the integer vectors of length 2.

use crate::lanes::IntLanes;
use crate::math::{perp_dot_fits, perp_dot_value, rotate_fits, rotate_lanes};
use crate::vec::{GVec, IntVec, SIntVec, SignedVec, UIntVec};
use core::ops::{Shl, Shr};
use glam::{
    I16Vec2, I64Vec2, I8Vec2, IVec2, U16Vec2, U64Vec2, U8Vec2, USizeVec2, UVec2,
};
use vstd::prelude::*;

verus! {

/// Generic vector of length 2.
pub trait GVec2 where
    Self: GVec<
        Axes = [Self; 2],
        Array = [<Self as GVec>::Scalar; 2],
        I8Vec = I8Vec2,
        U8Vec = U8Vec2,
        I16Vec = I16Vec2,
        U16Vec = U16Vec2,
        I32Vec = IVec2,
        U32Vec = UVec2,
        I64Vec = I64Vec2,
        U64Vec = U64Vec2,
        USizeVec = USizeVec2,
    > + From<(Self::Scalar, Self::Scalar)> + Into<(Self::Scalar, Self::Scalar)>,
 {
    /// The vector with one lane more.
    type Extended: IntLanes;

    /// A vector of this kind has two lanes.
    proof fn dim_is_two()
        ensures
            Self::dim() == 2,
    ;

    /// The unit vector along `x`.
    fn unit_x() -> (r: Self)
        ensures
            r.lanes() =~= seq![1int, 0int],
    ;

    /// The unit vector along `y`.
    fn unit_y() -> (r: Self)
        ensures
            r.lanes() =~= seq![0int, 1int],
    ;

    /// The lane `x`.
    fn x(self) -> (r: Self::Scalar)
        ensures
            Self::val(r) == self.lanes()[0],
    ;

    /// The lane `y`.
    fn y(self) -> (r: Self::Scalar)
        ensures
            Self::val(r) == self.lanes()[1],
    ;

    /// The vector with the given lanes.
    fn new(x: Self::Scalar, y: Self::Scalar) -> (r: Self)
        ensures
            r.lanes() =~= seq![Self::val(x), Self::val(y)],
    ;

    /// The vector of `self` followed by the lane `z`.
    fn extend(self, z: Self::Scalar) -> (r: Self::Extended)
        ensures
            r.lanes() =~= self.lanes().push(Self::val(z)),
    ;

    /// `self` with the lane `x` replaced.
    fn with_x(self, x: Self::Scalar) -> (r: Self)
        ensures
            r.lanes() =~= self.lanes().update(0, Self::val(x)),
    ;

    /// `self` with the lane `y` replaced.
    fn with_y(self, y: Self::Scalar) -> (r: Self)
        ensures
            r.lanes() =~= self.lanes().update(1, Self::val(y)),
    ;
}

/// Vector of length 2 whose elements are a signed type.
pub trait SignedVec2: SignedVec + GVec2 {
    /// The unit vector against `x`.
    fn neg_unit_x() -> (r: Self)
        ensures
            r.lanes() =~= seq![-1int, 0int],
    ;

    /// The unit vector against `y`.
    fn neg_unit_y() -> (r: Self)
        ensures
            r.lanes() =~= seq![0int, -1int],
    ;

    /// `self` turned by a quarter turn: `(-y, x)`.
    fn perp(self) -> (r: Self)
        requires
            self.lanes()[1] != Self::lo(),
        ensures
            r.lanes() =~= seq![-self.lanes()[1], self.lanes()[0]],
    ;

    /// The perpendicular dot product of `self` and `rhs`.
    fn perp_dot(self, rhs: Self) -> (r: Self::Scalar)
        requires
            perp_dot_fits(self.lanes(), rhs.lanes(), Self::lo(), Self::hi()),
        ensures
            Self::val(r) == perp_dot_value(self.lanes(), rhs.lanes()),
    ;

    /// `rhs` turned by the angle of `self` and scaled by its length.
    fn rotate(self, rhs: Self) -> (r: Self)
        requires
            rotate_fits(self.lanes(), rhs.lanes(), Self::lo(), Self::hi()),
        ensures
            r.lanes() =~= rotate_lanes(self.lanes(), rhs.lanes()),
    ;
}

/// Vector of length 2 whose elements are an integer type.
pub trait IntVec2 where
    Self: IntVec + GVec2 + Shl<IVec2, Output = Self> + Shr<IVec2, Output = Self>
        + Shl<UVec2, Output = Self> + Shr<UVec2, Output = Self>,
 {
}

/// Vector of length 2 whose elements are a signed integer type.
pub trait SIntVec2: SIntVec + IntVec2 {
}

/// Vector of length 2 whose elements are an unsigned integer type.
pub trait UIntVec2: UIntVec + IntVec2 {
}

} // verus!
