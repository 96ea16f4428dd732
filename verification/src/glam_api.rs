//! The functions of `glam` that this crate calls, one module for each type.

pub(crate) mod bvec2;
pub(crate) mod bvec3;
pub(crate) mod bvec3a;
pub(crate) mod bvec4;
pub(crate) mod bvec4a;
pub(crate) mod i16vec2;
pub(crate) mod i16vec3;
pub(crate) mod i16vec4;
pub(crate) mod i64vec2;
pub(crate) mod i64vec3;
pub(crate) mod i64vec4;
pub(crate) mod i8vec2;
pub(crate) mod i8vec3;
pub(crate) mod i8vec4;
pub(crate) mod ivec2;
pub(crate) mod ivec3;
pub(crate) mod ivec4;
pub(crate) mod u16vec2;
pub(crate) mod u16vec3;
pub(crate) mod u16vec4;
pub(crate) mod u64vec2;
pub(crate) mod u64vec3;
pub(crate) mod u64vec4;
pub(crate) mod u8vec2;
pub(crate) mod u8vec3;
pub(crate) mod u8vec4;
pub(crate) mod usizevec2;
pub(crate) mod usizevec3;
pub(crate) mod usizevec4;
pub(crate) mod uvec2;
pub(crate) mod uvec3;
pub(crate) mod uvec4;
