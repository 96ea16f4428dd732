//! The mathematical model of a vector: the sequence of its lanes.

use vstd::prelude::*;

verus! {

/// A vector of integers, seen as the sequence of its lanes.
pub trait IntLanes: Sized + Copy {
    /// The number of lanes.
    spec fn dim() -> nat;

    /// The lanes, `x` first.
    spec fn lanes(self) -> Seq<int>;

    /// A vector has as many lanes as its type says.
    proof fn lanes_len(self)
        ensures
            self.lanes().len() == Self::dim(),
    ;
}

/// A vector of booleans, seen as the sequence of its lanes.
pub trait BoolLanes: Sized + Copy {
    /// The number of lanes.
    spec fn dim() -> nat;

    /// The lanes, `x` first.
    spec fn lanes(self) -> Seq<bool>;

    /// A mask has as many lanes as its type says.
    proof fn lanes_len(self)
        ensures
            self.lanes().len() == Self::dim(),
    ;
}

} // verus!
