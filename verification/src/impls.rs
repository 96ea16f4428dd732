//! The traits of this crate, implemented for the types of `glam`.

mod bvec2;
mod bvec3;
mod bvec3a;
mod bvec4;
mod bvec4a;
mod i16vec2;
mod i16vec3;
mod i16vec4;
mod i64vec2;
mod i64vec3;
mod i64vec4;
mod i8vec2;
mod i8vec3;
mod i8vec4;
mod ivec2;
mod ivec3;
mod ivec4;
mod u16vec2;
mod u16vec3;
mod u16vec4;
mod u64vec2;
mod u64vec3;
mod u64vec4;
mod u8vec2;
mod u8vec3;
mod u8vec4;
mod usizevec2;
mod usizevec3;
mod usizevec4;
mod uvec2;
mod uvec3;
mod uvec4;
