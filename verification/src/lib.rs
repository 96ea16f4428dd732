//! Traits for the vectors of `glam`.
//!
//! There are traits for these characteristics of a vector, for any length and
//! for the lengths 2, 3 and 4:
//!
//! |              | Any         | 2            | 3            | 4            |
//! |--------------|-------------|--------------|--------------|--------------|
//! | Any          | [`GVec`]    | [`GVec2`]    | [`GVec3`]    | [`GVec4`]    |
//! | Signed       | [`SignedVec`] | [`SignedVec2`] | [`SignedVec3`] | [`SignedVec4`] |
//! | Int          | [`IntVec`]  | [`IntVec2`]  | [`IntVec3`]  | [`IntVec4`]  |
//! | Signed int   | [`SIntVec`] | [`SIntVec2`] | [`SIntVec3`] | [`SIntVec4`] |
//! | Unsigned int | [`UIntVec`] | [`UIntVec2`] | [`UIntVec3`] | [`UIntVec4`] |
//!
//! and for the scalar of a vector of any length: [`I8Vec`], [`U8Vec`],
//! [`I16Vec`], [`U16Vec`], [`I32Vec`], [`U32Vec`], [`I64Vec`], [`U64Vec`],
//! [`USizeVec`]. [`BVec`] covers the boolean vectors.
//!
//! Every method hands its work to the method of `glam` of the same name. Its
//! contract says what comes back, over the lanes of the vectors as
//! mathematical integers ([`IntLanes`], [`BoolLanes`]).

pub mod bvec;
pub mod codegen;
pub mod ext;
mod glam_api;
mod impls;
pub mod lanes;
pub mod math;
mod private;
pub mod tera_api;
pub mod vec;
pub mod vec2;
pub mod vec3;
pub mod vec4;

pub use crate::bvec::{BVec, GBVec, GBVec3, GBVec4};
pub use crate::ext::select;
pub use crate::lanes::{BoolLanes, IntLanes};
pub use crate::vec::{
    GVec, I16Vec, I32Vec, I64Vec, I8Vec, IntVec, SIntVec, SignedVec, U16Vec, U32Vec, U64Vec,
    U8Vec, UIntVec, USizeVec,
};
pub use crate::vec2::{GVec2, IntVec2, SIntVec2, SignedVec2, UIntVec2};
pub use crate::vec3::{GVec3, IntVec3, SIntVec3, SignedVec3, UIntVec3};
pub use crate::vec4::{GVec4, IntVec4, SIntVec4, SignedVec4, UIntVec4};
