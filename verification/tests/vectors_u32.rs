use glam::{
    BVec2, BVec3, BVec4, I16Vec2, I16Vec3, I16Vec4, I64Vec2, I64Vec3, I64Vec4, I8Vec2, I8Vec3,
    I8Vec4, IVec2, IVec3, IVec4, U16Vec2, U16Vec3, U16Vec4, U64Vec2, U64Vec3, U64Vec4, U8Vec2,
    U8Vec3, U8Vec4, USizeVec2, USizeVec3, USizeVec4, UVec2, UVec3, UVec4,
};
use glam_traits::{GVec, GVec2, GVec3, GVec4, IntVec};

#[test]
fn uvec2_constants() {
    assert_eq!(<UVec2 as GVec>::zero(), UVec2::ZERO);
    assert_eq!(<UVec2 as GVec>::zero(), UVec2::new(0, 0));
    assert_eq!(<UVec2 as GVec>::one(), UVec2::ONE);
    assert_eq!(<UVec2 as GVec>::one(), UVec2::new(1, 1));
    assert_eq!(<UVec2 as GVec>::min_value(), UVec2::MIN);
    assert_eq!(<UVec2 as GVec>::min_value(), UVec2::splat(u32::MIN));
    assert_eq!(<UVec2 as GVec>::max_value(), UVec2::MAX);
    assert_eq!(<UVec2 as GVec>::max_value(), UVec2::splat(u32::MAX));
    assert_eq!(<UVec2 as GVec>::axes(), UVec2::AXES);
    assert_eq!(<UVec2 as GVec>::DIM, 2);
    assert_eq!(<UVec2 as GVec2>::unit_x(), UVec2::X);
    assert_eq!(<UVec2 as GVec2>::unit_x(), UVec2::new(1, 0));
    assert_eq!(<UVec2 as GVec>::axes()[0], UVec2::new(1, 0));
    assert_eq!(<UVec2 as GVec2>::unit_y(), UVec2::Y);
    assert_eq!(<UVec2 as GVec2>::unit_y(), UVec2::new(0, 1));
    assert_eq!(<UVec2 as GVec>::axes()[1], UVec2::new(0, 1));
}

#[test]
fn uvec2_build_and_read() {
    let a = UVec2::new(3, 4);
    assert_eq!(<UVec2 as GVec2>::new(3, 4), a);
    assert_eq!(GVec2::x(a), 3);
    assert_eq!(GVec::lane(&a, 0), 3);
    assert_eq!(GVec2::with_x(a, 9), UVec2::new(9, 4));
    assert_eq!(GVec2::y(a), 4);
    assert_eq!(GVec::lane(&a, 1), 4);
    assert_eq!(GVec2::with_y(a, 9), UVec2::new(3, 9));
    assert_eq!(<UVec2 as GVec>::splat(7), UVec2::new(7, 7));
    assert_eq!(<UVec2 as GVec>::from_array([3, 4]), a);
    assert_eq!(GVec::to_array(&a), [3, 4]);
    assert_eq!(<UVec2 as GVec>::from_slice(&[3, 4, 11, 12]), a);
    let mut buffer = [0, 0, 0, 0];
    buffer[2] = 11;
    buffer[3] = 12;
    GVec::write_to_slice(a, &mut buffer);
    assert_eq!(buffer, [3, 4, 11, 12]);
    assert_eq!(GVec2::extend(a, 9), UVec3::new(3, 4, 9));
    assert_eq!(GVec::map(a, |v| v * 2 + 1), UVec2::new(7, 9));
}

#[test]
fn uvec2_horizontal() {
    let a = UVec2::new(3, 4);
    let b = UVec2::new(2, 7);
    assert_eq!(GVec::dot(a, b), 34);
    assert_eq!(GVec::dot(a, b), a.dot(b));
    assert_eq!(GVec::dot_into_vec(a, b), UVec2::new(34, 34));
    assert_eq!(GVec::length_squared(a), 25);
    assert_eq!(GVec::length_squared(a), a.length_squared());
    assert_eq!(GVec::element_sum(a), 7);
    assert_eq!(GVec::element_product(UVec2::new(3, 4)), 12);
    assert_eq!(GVec::min_element(a), 3);
    assert_eq!(GVec::max_element(a), 4);
    assert_eq!(GVec::min_position(a), 0);
    assert_eq!(GVec::max_position(a), 1);
    assert_eq!(GVec::min_position(UVec2::new(5, 5)), 0);
    assert_eq!(GVec::max_position(UVec2::new(5, 5)), 0);
    assert_eq!(GVec::min_position(UVec2::new(5, 4)), 1);
    assert_eq!(GVec::max_position(UVec2::new(5, 6)), 1);
}

#[test]
fn uvec2_lanewise() {
    let a = UVec2::new(3, 4);
    let b = UVec2::new(2, 7);
    assert_eq!(GVec::min(a, b), UVec2::new(2, 4));
    assert_eq!(GVec::min(a, b), a.min(b));
    assert_eq!(GVec::max(a, b), UVec2::new(3, 7));
    assert_eq!(GVec::max(a, b), a.max(b));
    assert_eq!(GVec::clamp(a, UVec2::new(1, 1), UVec2::new(4, 4)), UVec2::new(3, 4));
    assert_eq!(<UVec2 as GVec>::select(BVec2::new(true, false), a, b), UVec2::new(3, 7));
}

#[test]
fn uvec2_comparisons() {
    let a = UVec2::new(3, 4);
    let c = UVec2::new(3, 9);
    assert_eq!(GVec::cmpeq(a, c), BVec2::new(true, false));
    assert_eq!(GVec::cmpne(a, c), BVec2::new(false, true));
    assert_eq!(GVec::cmpge(a, c), BVec2::new(true, false));
    assert_eq!(GVec::cmpgt(a, c), BVec2::new(false, false));
    assert_eq!(GVec::cmple(a, c), BVec2::new(true, true));
    assert_eq!(GVec::cmplt(a, c), BVec2::new(false, true));
}

#[test]
fn uvec2_conversions() {
    let v = UVec2::new(255, 300);
    assert_eq!(GVec::as_i8vec(&v), I8Vec2::new(-1, 44));
    assert_eq!(GVec::as_u8vec(&v), U8Vec2::new(u8::MAX, 44));
    assert_eq!(GVec::as_i16vec(&v), I16Vec2::new(255, 300));
    assert_eq!(GVec::as_u16vec(&v), U16Vec2::new(255, 300));
    assert_eq!(GVec::as_ivec(&v), IVec2::new(255, 300));
    assert_eq!(GVec::as_uvec(&v), UVec2::new(255, 300));
    assert_eq!(GVec::as_i64vec(&v), I64Vec2::new(255, 300));
    assert_eq!(GVec::as_u64vec(&v), U64Vec2::new(255, 300));
    assert_eq!(GVec::as_usizevec(&v), USizeVec2::new(255, 300));
}

#[test]
fn uvec2_checked_wrapping_saturating() {
    let a = UVec2::new(3, 4);
    let b = UVec2::new(2, 7);
    let top = UVec2::MAX;
    let bottom = UVec2::MIN;
    let one = UVec2::ONE;
    assert_eq!(IntVec::checked_add(a, b), Some(UVec2::new(5, 11)));
    assert_eq!(IntVec::checked_add(top, one), None);
    assert_eq!(IntVec::checked_add(UVec2::new(u32::MAX, 0), UVec2::new(0, 0)), Some(UVec2::new(u32::MAX, 0)));
    assert_eq!(IntVec::checked_sub(a, b), None);
    assert_eq!(IntVec::checked_sub(bottom, one), None);
    assert_eq!(IntVec::checked_mul(a, b), Some(UVec2::new(6, 28)));
    assert_eq!(IntVec::checked_mul(top, UVec2::new(2, 2)), None);
    assert_eq!(IntVec::checked_div(a, b), Some(UVec2::new(1, 0)));
    assert_eq!(IntVec::checked_div(a, UVec2::ZERO), None);
    assert_eq!(IntVec::checked_div(a, UVec2::new(1, 0)), None);
    assert_eq!(IntVec::wrapping_add(top, one), UVec2::new(0, 0));
    assert_eq!(IntVec::wrapping_add(a, b), UVec2::new(5, 11));
    assert_eq!(IntVec::wrapping_sub(bottom, one), UVec2::new(u32::MAX, u32::MAX));
    assert_eq!(IntVec::wrapping_sub(a, b), UVec2::new(1, 4294967293));
    assert_eq!(IntVec::wrapping_mul(top, UVec2::new(3, 3)), UVec2::new(4294967293, 4294967293));
    assert_eq!(IntVec::wrapping_mul(a, b), UVec2::new(6, 28));
    assert_eq!(IntVec::wrapping_div(a, b), UVec2::new(1, 0));
    assert_eq!(IntVec::saturating_add(top, one), top);
    assert_eq!(IntVec::saturating_add(a, b), UVec2::new(5, 11));
    assert_eq!(IntVec::saturating_sub(bottom, one), bottom);
    assert_eq!(IntVec::saturating_sub(a, b), UVec2::new(1, 0));
    assert_eq!(IntVec::saturating_mul(top, UVec2::new(3, 3)), top);
    assert_eq!(IntVec::saturating_mul(a, b), UVec2::new(6, 28));
    assert_eq!(IntVec::saturating_div(a, b), UVec2::new(1, 0));
}

#[test]
fn uvec2_distances() {
    let a = UVec2::new(3, 4);
    let b = UVec2::new(2, 7);
    assert_eq!(IntVec::manhattan_distance(a, b), 4);
    assert_eq!(IntVec::checked_manhattan_distance(a, b), Some(4));
    assert_eq!(IntVec::chebyshev_distance(a, b), 3);
    assert_eq!(IntVec::checked_manhattan_distance(UVec2::MAX, UVec2::MIN), None);
    assert_eq!(IntVec::chebyshev_distance(UVec2::MAX, UVec2::MIN), u32::MAX);
    assert_eq!(IntVec::checked_manhattan_distance(UVec2::new(u32::MAX, 0), UVec2::new(0, 0)), Some(u32::MAX));
    assert_eq!(IntVec::manhattan_distance(UVec2::new(u32::MAX, 0), UVec2::new(0, 0)), u32::MAX);
}

#[test]
fn uvec2_same_as_inherent() {
    let a = UVec2::new(3, 4);
    let b = UVec2::new(2, 7);
    assert_eq!(GVec::dot(a, b), a.dot(b));
    assert_eq!(GVec::dot_into_vec(a, b), a.dot_into_vec(b));
    assert_eq!(GVec::min(a, b), a.min(b));
    assert_eq!(GVec::max(a, b), a.max(b));
    assert_eq!(GVec::cmpeq(a, b), a.cmpeq(b));
    assert_eq!(GVec::cmpne(a, b), a.cmpne(b));
    assert_eq!(GVec::cmpge(a, b), a.cmpge(b));
    assert_eq!(GVec::cmpgt(a, b), a.cmpgt(b));
    assert_eq!(GVec::cmple(a, b), a.cmple(b));
    assert_eq!(GVec::cmplt(a, b), a.cmplt(b));
    assert_eq!(GVec::clamp(a, UVec2::ONE, UVec2::splat(4)), a.clamp(UVec2::ONE, UVec2::splat(4)));
    assert_eq!(GVec::length_squared(a), a.length_squared());
    assert_eq!(GVec::element_sum(a), a.element_sum());
    assert_eq!(GVec::min_element(a), a.min_element());
    assert_eq!(GVec::max_element(a), a.max_element());
    assert_eq!(GVec::min_position(a), a.min_position());
    assert_eq!(GVec::max_position(a), a.max_position());
    assert_eq!(GVec::to_array(&a), a.to_array());
    assert_eq!(GVec::lane(&a, 1), a[1]);
    assert_eq!(GVec::map(b, |v| v / 2), b.map(|v| v / 2));
    assert_eq!(GVec::as_i8vec(&a), a.as_i8vec2());
    assert_eq!(GVec::as_u8vec(&a), a.as_u8vec2());
    assert_eq!(GVec::as_i16vec(&a), a.as_i16vec2());
    assert_eq!(GVec::as_u16vec(&a), a.as_u16vec2());
    assert_eq!(GVec::as_ivec(&a), a.as_ivec2());
    assert_eq!(GVec::as_i64vec(&a), a.as_i64vec2());
    assert_eq!(GVec::as_u64vec(&a), a.as_u64vec2());
    assert_eq!(GVec::as_usizevec(&a), a.as_usizevec2());
    assert_eq!(IntVec::checked_add(a, b), a.checked_add(b));
    assert_eq!(IntVec::checked_sub(a, b), a.checked_sub(b));
    assert_eq!(IntVec::checked_mul(a, b), a.checked_mul(b));
    assert_eq!(IntVec::checked_div(a, b), a.checked_div(b));
    assert_eq!(IntVec::wrapping_add(a, b), a.wrapping_add(b));
    assert_eq!(IntVec::wrapping_sub(a, b), a.wrapping_sub(b));
    assert_eq!(IntVec::wrapping_mul(a, b), a.wrapping_mul(b));
    assert_eq!(IntVec::wrapping_div(a, b), a.wrapping_div(b));
    assert_eq!(IntVec::saturating_add(a, b), a.saturating_add(b));
    assert_eq!(IntVec::saturating_sub(a, b), a.saturating_sub(b));
    assert_eq!(IntVec::saturating_mul(a, b), a.saturating_mul(b));
    assert_eq!(IntVec::saturating_div(a, b), a.saturating_div(b));
    assert_eq!(IntVec::manhattan_distance(a, b), a.manhattan_distance(b));
    assert_eq!(IntVec::checked_manhattan_distance(a, b), a.checked_manhattan_distance(b));
    assert_eq!(IntVec::chebyshev_distance(a, b), a.chebyshev_distance(b));
    assert_eq!(GVec2::with_x(a, 1), a.with_x(1));
    assert_eq!(GVec2::with_y(a, 1), a.with_y(1));
    assert_eq!(GVec2::extend(a, 1), a.extend(1));
}

#[test]
fn uvec3_constants() {
    assert_eq!(<UVec3 as GVec>::zero(), UVec3::ZERO);
    assert_eq!(<UVec3 as GVec>::zero(), UVec3::new(0, 0, 0));
    assert_eq!(<UVec3 as GVec>::one(), UVec3::ONE);
    assert_eq!(<UVec3 as GVec>::one(), UVec3::new(1, 1, 1));
    assert_eq!(<UVec3 as GVec>::min_value(), UVec3::MIN);
    assert_eq!(<UVec3 as GVec>::min_value(), UVec3::splat(u32::MIN));
    assert_eq!(<UVec3 as GVec>::max_value(), UVec3::MAX);
    assert_eq!(<UVec3 as GVec>::max_value(), UVec3::splat(u32::MAX));
    assert_eq!(<UVec3 as GVec>::axes(), UVec3::AXES);
    assert_eq!(<UVec3 as GVec>::DIM, 3);
    assert_eq!(<UVec3 as GVec3>::unit_x(), UVec3::X);
    assert_eq!(<UVec3 as GVec3>::unit_x(), UVec3::new(1, 0, 0));
    assert_eq!(<UVec3 as GVec>::axes()[0], UVec3::new(1, 0, 0));
    assert_eq!(<UVec3 as GVec3>::unit_y(), UVec3::Y);
    assert_eq!(<UVec3 as GVec3>::unit_y(), UVec3::new(0, 1, 0));
    assert_eq!(<UVec3 as GVec>::axes()[1], UVec3::new(0, 1, 0));
    assert_eq!(<UVec3 as GVec3>::unit_z(), UVec3::Z);
    assert_eq!(<UVec3 as GVec3>::unit_z(), UVec3::new(0, 0, 1));
    assert_eq!(<UVec3 as GVec>::axes()[2], UVec3::new(0, 0, 1));
}

#[test]
fn uvec3_build_and_read() {
    let a = UVec3::new(3, 4, 5);
    assert_eq!(<UVec3 as GVec3>::new(3, 4, 5), a);
    assert_eq!(GVec3::x(a), 3);
    assert_eq!(GVec::lane(&a, 0), 3);
    assert_eq!(GVec3::with_x(a, 9), UVec3::new(9, 4, 5));
    assert_eq!(GVec3::y(a), 4);
    assert_eq!(GVec::lane(&a, 1), 4);
    assert_eq!(GVec3::with_y(a, 9), UVec3::new(3, 9, 5));
    assert_eq!(GVec3::z(a), 5);
    assert_eq!(GVec::lane(&a, 2), 5);
    assert_eq!(GVec3::with_z(a, 9), UVec3::new(3, 4, 9));
    assert_eq!(<UVec3 as GVec>::splat(7), UVec3::new(7, 7, 7));
    assert_eq!(<UVec3 as GVec>::from_array([3, 4, 5]), a);
    assert_eq!(GVec::to_array(&a), [3, 4, 5]);
    assert_eq!(<UVec3 as GVec>::from_slice(&[3, 4, 5, 11, 12]), a);
    let mut buffer = [0, 0, 0, 0, 0];
    buffer[3] = 11;
    buffer[4] = 12;
    GVec::write_to_slice(a, &mut buffer);
    assert_eq!(buffer, [3, 4, 5, 11, 12]);
    assert_eq!(GVec3::extend(a, 9), UVec4::new(3, 4, 5, 9));
    assert_eq!(GVec3::truncate(a), UVec2::new(3, 4));
    assert_eq!(GVec::map(a, |v| v * 2 + 1), UVec3::new(7, 9, 11));
}

#[test]
fn uvec3_horizontal() {
    let a = UVec3::new(3, 4, 5);
    let b = UVec3::new(2, 7, 1);
    assert_eq!(GVec::dot(a, b), 39);
    assert_eq!(GVec::dot(a, b), a.dot(b));
    assert_eq!(GVec::dot_into_vec(a, b), UVec3::new(39, 39, 39));
    assert_eq!(GVec::length_squared(a), 50);
    assert_eq!(GVec::length_squared(a), a.length_squared());
    assert_eq!(GVec::element_sum(a), 12);
    assert_eq!(GVec::element_product(UVec3::new(3, 4, 5)), 60);
    assert_eq!(GVec::min_element(a), 3);
    assert_eq!(GVec::max_element(a), 5);
    assert_eq!(GVec::min_position(a), 0);
    assert_eq!(GVec::max_position(a), 2);
    assert_eq!(GVec::min_position(UVec3::new(5, 5, 5)), 0);
    assert_eq!(GVec::max_position(UVec3::new(5, 5, 5)), 0);
    assert_eq!(GVec::min_position(UVec3::new(5, 5, 4)), 2);
    assert_eq!(GVec::max_position(UVec3::new(5, 5, 6)), 2);
}

#[test]
fn uvec3_lanewise() {
    let a = UVec3::new(3, 4, 5);
    let b = UVec3::new(2, 7, 1);
    assert_eq!(GVec::min(a, b), UVec3::new(2, 4, 1));
    assert_eq!(GVec::min(a, b), a.min(b));
    assert_eq!(GVec::max(a, b), UVec3::new(3, 7, 5));
    assert_eq!(GVec::max(a, b), a.max(b));
    assert_eq!(GVec::clamp(a, UVec3::new(1, 1, 1), UVec3::new(4, 4, 4)), UVec3::new(3, 4, 4));
    assert_eq!(<UVec3 as GVec>::select(BVec3::new(true, false, false), a, b), UVec3::new(3, 7, 1));
}

#[test]
fn uvec3_comparisons() {
    let a = UVec3::new(3, 4, 5);
    let c = UVec3::new(3, 9, 5);
    assert_eq!(GVec::cmpeq(a, c), BVec3::new(true, false, true));
    assert_eq!(GVec::cmpne(a, c), BVec3::new(false, true, false));
    assert_eq!(GVec::cmpge(a, c), BVec3::new(true, false, true));
    assert_eq!(GVec::cmpgt(a, c), BVec3::new(false, false, false));
    assert_eq!(GVec::cmple(a, c), BVec3::new(true, true, true));
    assert_eq!(GVec::cmplt(a, c), BVec3::new(false, true, false));
}

#[test]
fn uvec3_conversions() {
    let v = UVec3::new(255, 300, 0);
    assert_eq!(GVec::as_i8vec(&v), I8Vec3::new(-1, 44, 0));
    assert_eq!(GVec::as_u8vec(&v), U8Vec3::new(u8::MAX, 44, 0));
    assert_eq!(GVec::as_i16vec(&v), I16Vec3::new(255, 300, 0));
    assert_eq!(GVec::as_u16vec(&v), U16Vec3::new(255, 300, 0));
    assert_eq!(GVec::as_ivec(&v), IVec3::new(255, 300, 0));
    assert_eq!(GVec::as_uvec(&v), UVec3::new(255, 300, 0));
    assert_eq!(GVec::as_i64vec(&v), I64Vec3::new(255, 300, 0));
    assert_eq!(GVec::as_u64vec(&v), U64Vec3::new(255, 300, 0));
    assert_eq!(GVec::as_usizevec(&v), USizeVec3::new(255, 300, 0));
}

#[test]
fn uvec3_checked_wrapping_saturating() {
    let a = UVec3::new(3, 4, 5);
    let b = UVec3::new(2, 7, 1);
    let top = UVec3::MAX;
    let bottom = UVec3::MIN;
    let one = UVec3::ONE;
    assert_eq!(IntVec::checked_add(a, b), Some(UVec3::new(5, 11, 6)));
    assert_eq!(IntVec::checked_add(top, one), None);
    assert_eq!(IntVec::checked_add(UVec3::new(u32::MAX, 0, 0), UVec3::new(0, 0, 0)), Some(UVec3::new(u32::MAX, 0, 0)));
    assert_eq!(IntVec::checked_sub(a, b), None);
    assert_eq!(IntVec::checked_sub(bottom, one), None);
    assert_eq!(IntVec::checked_mul(a, b), Some(UVec3::new(6, 28, 5)));
    assert_eq!(IntVec::checked_mul(top, UVec3::new(2, 2, 2)), None);
    assert_eq!(IntVec::checked_div(a, b), Some(UVec3::new(1, 0, 5)));
    assert_eq!(IntVec::checked_div(a, UVec3::ZERO), None);
    assert_eq!(IntVec::checked_div(a, UVec3::new(1, 1, 0)), None);
    assert_eq!(IntVec::wrapping_add(top, one), UVec3::new(0, 0, 0));
    assert_eq!(IntVec::wrapping_add(a, b), UVec3::new(5, 11, 6));
    assert_eq!(IntVec::wrapping_sub(bottom, one), UVec3::new(u32::MAX, u32::MAX, u32::MAX));
    assert_eq!(IntVec::wrapping_sub(a, b), UVec3::new(1, 4294967293, 4));
    assert_eq!(IntVec::wrapping_mul(top, UVec3::new(3, 3, 3)), UVec3::new(4294967293, 4294967293, 4294967293));
    assert_eq!(IntVec::wrapping_mul(a, b), UVec3::new(6, 28, 5));
    assert_eq!(IntVec::wrapping_div(a, b), UVec3::new(1, 0, 5));
    assert_eq!(IntVec::saturating_add(top, one), top);
    assert_eq!(IntVec::saturating_add(a, b), UVec3::new(5, 11, 6));
    assert_eq!(IntVec::saturating_sub(bottom, one), bottom);
    assert_eq!(IntVec::saturating_sub(a, b), UVec3::new(1, 0, 4));
    assert_eq!(IntVec::saturating_mul(top, UVec3::new(3, 3, 3)), top);
    assert_eq!(IntVec::saturating_mul(a, b), UVec3::new(6, 28, 5));
    assert_eq!(IntVec::saturating_div(a, b), UVec3::new(1, 0, 5));
}

#[test]
fn uvec3_distances() {
    let a = UVec3::new(3, 4, 5);
    let b = UVec3::new(2, 7, 1);
    assert_eq!(IntVec::manhattan_distance(a, b), 8);
    assert_eq!(IntVec::checked_manhattan_distance(a, b), Some(8));
    assert_eq!(IntVec::chebyshev_distance(a, b), 4);
    assert_eq!(IntVec::checked_manhattan_distance(UVec3::MAX, UVec3::MIN), None);
    assert_eq!(IntVec::chebyshev_distance(UVec3::MAX, UVec3::MIN), u32::MAX);
    assert_eq!(IntVec::checked_manhattan_distance(UVec3::new(u32::MAX, 0, 0), UVec3::new(0, 0, 0)), Some(u32::MAX));
    assert_eq!(IntVec::manhattan_distance(UVec3::new(u32::MAX, 0, 0), UVec3::new(0, 0, 0)), u32::MAX);
}

#[test]
fn uvec3_same_as_inherent() {
    let a = UVec3::new(3, 4, 5);
    let b = UVec3::new(2, 7, 1);
    assert_eq!(GVec::dot(a, b), a.dot(b));
    assert_eq!(GVec::dot_into_vec(a, b), a.dot_into_vec(b));
    assert_eq!(GVec::min(a, b), a.min(b));
    assert_eq!(GVec::max(a, b), a.max(b));
    assert_eq!(GVec::cmpeq(a, b), a.cmpeq(b));
    assert_eq!(GVec::cmpne(a, b), a.cmpne(b));
    assert_eq!(GVec::cmpge(a, b), a.cmpge(b));
    assert_eq!(GVec::cmpgt(a, b), a.cmpgt(b));
    assert_eq!(GVec::cmple(a, b), a.cmple(b));
    assert_eq!(GVec::cmplt(a, b), a.cmplt(b));
    assert_eq!(GVec::clamp(a, UVec3::ONE, UVec3::splat(4)), a.clamp(UVec3::ONE, UVec3::splat(4)));
    assert_eq!(GVec::length_squared(a), a.length_squared());
    assert_eq!(GVec::element_sum(a), a.element_sum());
    assert_eq!(GVec::min_element(a), a.min_element());
    assert_eq!(GVec::max_element(a), a.max_element());
    assert_eq!(GVec::min_position(a), a.min_position());
    assert_eq!(GVec::max_position(a), a.max_position());
    assert_eq!(GVec::to_array(&a), a.to_array());
    assert_eq!(GVec::lane(&a, 1), a[1]);
    assert_eq!(GVec::map(b, |v| v / 2), b.map(|v| v / 2));
    assert_eq!(GVec::as_i8vec(&a), a.as_i8vec3());
    assert_eq!(GVec::as_u8vec(&a), a.as_u8vec3());
    assert_eq!(GVec::as_i16vec(&a), a.as_i16vec3());
    assert_eq!(GVec::as_u16vec(&a), a.as_u16vec3());
    assert_eq!(GVec::as_ivec(&a), a.as_ivec3());
    assert_eq!(GVec::as_i64vec(&a), a.as_i64vec3());
    assert_eq!(GVec::as_u64vec(&a), a.as_u64vec3());
    assert_eq!(GVec::as_usizevec(&a), a.as_usizevec3());
    assert_eq!(IntVec::checked_add(a, b), a.checked_add(b));
    assert_eq!(IntVec::checked_sub(a, b), a.checked_sub(b));
    assert_eq!(IntVec::checked_mul(a, b), a.checked_mul(b));
    assert_eq!(IntVec::checked_div(a, b), a.checked_div(b));
    assert_eq!(IntVec::wrapping_add(a, b), a.wrapping_add(b));
    assert_eq!(IntVec::wrapping_sub(a, b), a.wrapping_sub(b));
    assert_eq!(IntVec::wrapping_mul(a, b), a.wrapping_mul(b));
    assert_eq!(IntVec::wrapping_div(a, b), a.wrapping_div(b));
    assert_eq!(IntVec::saturating_add(a, b), a.saturating_add(b));
    assert_eq!(IntVec::saturating_sub(a, b), a.saturating_sub(b));
    assert_eq!(IntVec::saturating_mul(a, b), a.saturating_mul(b));
    assert_eq!(IntVec::saturating_div(a, b), a.saturating_div(b));
    assert_eq!(IntVec::manhattan_distance(a, b), a.manhattan_distance(b));
    assert_eq!(IntVec::checked_manhattan_distance(a, b), a.checked_manhattan_distance(b));
    assert_eq!(IntVec::chebyshev_distance(a, b), a.chebyshev_distance(b));
    assert_eq!(GVec3::with_x(a, 1), a.with_x(1));
    assert_eq!(GVec3::with_y(a, 1), a.with_y(1));
    assert_eq!(GVec3::with_z(a, 1), a.with_z(1));
    assert_eq!(GVec3::extend(a, 1), a.extend(1));
    assert_eq!(GVec3::truncate(a), a.truncate());
}

#[test]
fn uvec3_cross() {
    let a = UVec3::new(0, 2, 0);
    let b = UVec3::new(0, 0, 3);
    assert_eq!(GVec3::cross(a, b), UVec3::new(6, 0, 0));
    assert_eq!(GVec3::cross(a, b), a.cross(b));
}

#[test]
fn uvec4_constants() {
    assert_eq!(<UVec4 as GVec>::zero(), UVec4::ZERO);
    assert_eq!(<UVec4 as GVec>::zero(), UVec4::new(0, 0, 0, 0));
    assert_eq!(<UVec4 as GVec>::one(), UVec4::ONE);
    assert_eq!(<UVec4 as GVec>::one(), UVec4::new(1, 1, 1, 1));
    assert_eq!(<UVec4 as GVec>::min_value(), UVec4::MIN);
    assert_eq!(<UVec4 as GVec>::min_value(), UVec4::splat(u32::MIN));
    assert_eq!(<UVec4 as GVec>::max_value(), UVec4::MAX);
    assert_eq!(<UVec4 as GVec>::max_value(), UVec4::splat(u32::MAX));
    assert_eq!(<UVec4 as GVec>::axes(), UVec4::AXES);
    assert_eq!(<UVec4 as GVec>::DIM, 4);
    assert_eq!(<UVec4 as GVec4>::unit_x(), UVec4::X);
    assert_eq!(<UVec4 as GVec4>::unit_x(), UVec4::new(1, 0, 0, 0));
    assert_eq!(<UVec4 as GVec>::axes()[0], UVec4::new(1, 0, 0, 0));
    assert_eq!(<UVec4 as GVec4>::unit_y(), UVec4::Y);
    assert_eq!(<UVec4 as GVec4>::unit_y(), UVec4::new(0, 1, 0, 0));
    assert_eq!(<UVec4 as GVec>::axes()[1], UVec4::new(0, 1, 0, 0));
    assert_eq!(<UVec4 as GVec4>::unit_z(), UVec4::Z);
    assert_eq!(<UVec4 as GVec4>::unit_z(), UVec4::new(0, 0, 1, 0));
    assert_eq!(<UVec4 as GVec>::axes()[2], UVec4::new(0, 0, 1, 0));
    assert_eq!(<UVec4 as GVec4>::unit_w(), UVec4::W);
    assert_eq!(<UVec4 as GVec4>::unit_w(), UVec4::new(0, 0, 0, 1));
    assert_eq!(<UVec4 as GVec>::axes()[3], UVec4::new(0, 0, 0, 1));
}

#[test]
fn uvec4_build_and_read() {
    let a = UVec4::new(3, 4, 5, 6);
    assert_eq!(<UVec4 as GVec4>::new(3, 4, 5, 6), a);
    assert_eq!(GVec4::x(a), 3);
    assert_eq!(GVec::lane(&a, 0), 3);
    assert_eq!(GVec4::with_x(a, 9), UVec4::new(9, 4, 5, 6));
    assert_eq!(GVec4::y(a), 4);
    assert_eq!(GVec::lane(&a, 1), 4);
    assert_eq!(GVec4::with_y(a, 9), UVec4::new(3, 9, 5, 6));
    assert_eq!(GVec4::z(a), 5);
    assert_eq!(GVec::lane(&a, 2), 5);
    assert_eq!(GVec4::with_z(a, 9), UVec4::new(3, 4, 9, 6));
    assert_eq!(GVec4::w(a), 6);
    assert_eq!(GVec::lane(&a, 3), 6);
    assert_eq!(GVec4::with_w(a, 9), UVec4::new(3, 4, 5, 9));
    assert_eq!(<UVec4 as GVec>::splat(7), UVec4::new(7, 7, 7, 7));
    assert_eq!(<UVec4 as GVec>::from_array([3, 4, 5, 6]), a);
    assert_eq!(GVec::to_array(&a), [3, 4, 5, 6]);
    assert_eq!(<UVec4 as GVec>::from_slice(&[3, 4, 5, 6, 11, 12]), a);
    let mut buffer = [0, 0, 0, 0, 0, 0];
    buffer[4] = 11;
    buffer[5] = 12;
    GVec::write_to_slice(a, &mut buffer);
    assert_eq!(buffer, [3, 4, 5, 6, 11, 12]);
    assert_eq!(GVec4::truncate(a), UVec3::new(3, 4, 5));
    assert_eq!(GVec::map(a, |v| v * 2 + 1), UVec4::new(7, 9, 11, 13));
}

#[test]
fn uvec4_horizontal() {
    let a = UVec4::new(3, 4, 5, 6);
    let b = UVec4::new(2, 7, 1, 8);
    assert_eq!(GVec::dot(a, b), 87);
    assert_eq!(GVec::dot(a, b), a.dot(b));
    assert_eq!(GVec::dot_into_vec(a, b), UVec4::new(87, 87, 87, 87));
    assert_eq!(GVec::length_squared(a), 86);
    assert_eq!(GVec::length_squared(a), a.length_squared());
    assert_eq!(GVec::element_sum(a), 18);
    assert_eq!(GVec::element_product(UVec4::new(3, 4, 5, 6)), 360);
    assert_eq!(GVec::min_element(a), 3);
    assert_eq!(GVec::max_element(a), 6);
    assert_eq!(GVec::min_position(a), 0);
    assert_eq!(GVec::max_position(a), 3);
    assert_eq!(GVec::min_position(UVec4::new(5, 5, 5, 5)), 0);
    assert_eq!(GVec::max_position(UVec4::new(5, 5, 5, 5)), 0);
    assert_eq!(GVec::min_position(UVec4::new(5, 5, 5, 4)), 3);
    assert_eq!(GVec::max_position(UVec4::new(5, 5, 5, 6)), 3);
}

#[test]
fn uvec4_lanewise() {
    let a = UVec4::new(3, 4, 5, 6);
    let b = UVec4::new(2, 7, 1, 8);
    assert_eq!(GVec::min(a, b), UVec4::new(2, 4, 1, 6));
    assert_eq!(GVec::min(a, b), a.min(b));
    assert_eq!(GVec::max(a, b), UVec4::new(3, 7, 5, 8));
    assert_eq!(GVec::max(a, b), a.max(b));
    assert_eq!(GVec::clamp(a, UVec4::new(1, 1, 1, 1), UVec4::new(4, 4, 4, 4)), UVec4::new(3, 4, 4, 4));
    assert_eq!(<UVec4 as GVec>::select(BVec4::new(true, false, false, true), a, b), UVec4::new(3, 7, 1, 6));
}

#[test]
fn uvec4_comparisons() {
    let a = UVec4::new(3, 4, 5, 6);
    let c = UVec4::new(3, 9, 5, 7);
    assert_eq!(GVec::cmpeq(a, c), BVec4::new(true, false, true, false));
    assert_eq!(GVec::cmpne(a, c), BVec4::new(false, true, false, true));
    assert_eq!(GVec::cmpge(a, c), BVec4::new(true, false, true, false));
    assert_eq!(GVec::cmpgt(a, c), BVec4::new(false, false, false, false));
    assert_eq!(GVec::cmple(a, c), BVec4::new(true, true, true, true));
    assert_eq!(GVec::cmplt(a, c), BVec4::new(false, true, false, true));
}

#[test]
fn uvec4_conversions() {
    let v = UVec4::new(255, 300, 0, u32::MAX);
    assert_eq!(GVec::as_i8vec(&v), I8Vec4::new(-1, 44, 0, -1));
    assert_eq!(GVec::as_u8vec(&v), U8Vec4::new(u8::MAX, 44, 0, u8::MAX));
    assert_eq!(GVec::as_i16vec(&v), I16Vec4::new(255, 300, 0, -1));
    assert_eq!(GVec::as_u16vec(&v), U16Vec4::new(255, 300, 0, u16::MAX));
    assert_eq!(GVec::as_ivec(&v), IVec4::new(255, 300, 0, -1));
    assert_eq!(GVec::as_uvec(&v), UVec4::new(255, 300, 0, u32::MAX));
    assert_eq!(GVec::as_i64vec(&v), I64Vec4::new(255, 300, 0, 4294967295));
    assert_eq!(GVec::as_u64vec(&v), U64Vec4::new(255, 300, 0, 4294967295));
    assert_eq!(GVec::as_usizevec(&v), USizeVec4::new(255, 300, 0, 4294967295));
}

#[test]
fn uvec4_checked_wrapping_saturating() {
    let a = UVec4::new(3, 4, 5, 6);
    let b = UVec4::new(2, 7, 1, 8);
    let top = UVec4::MAX;
    let bottom = UVec4::MIN;
    let one = UVec4::ONE;
    assert_eq!(IntVec::checked_add(a, b), Some(UVec4::new(5, 11, 6, 14)));
    assert_eq!(IntVec::checked_add(top, one), None);
    assert_eq!(IntVec::checked_add(UVec4::new(u32::MAX, 0, 0, 0), UVec4::new(0, 0, 0, 0)), Some(UVec4::new(u32::MAX, 0, 0, 0)));
    assert_eq!(IntVec::checked_sub(a, b), None);
    assert_eq!(IntVec::checked_sub(bottom, one), None);
    assert_eq!(IntVec::checked_mul(a, b), Some(UVec4::new(6, 28, 5, 48)));
    assert_eq!(IntVec::checked_mul(top, UVec4::new(2, 2, 2, 2)), None);
    assert_eq!(IntVec::checked_div(a, b), Some(UVec4::new(1, 0, 5, 0)));
    assert_eq!(IntVec::checked_div(a, UVec4::ZERO), None);
    assert_eq!(IntVec::checked_div(a, UVec4::new(1, 1, 1, 0)), None);
    assert_eq!(IntVec::wrapping_add(top, one), UVec4::new(0, 0, 0, 0));
    assert_eq!(IntVec::wrapping_add(a, b), UVec4::new(5, 11, 6, 14));
    assert_eq!(IntVec::wrapping_sub(bottom, one), UVec4::new(u32::MAX, u32::MAX, u32::MAX, u32::MAX));
    assert_eq!(IntVec::wrapping_sub(a, b), UVec4::new(1, 4294967293, 4, 4294967294));
    assert_eq!(IntVec::wrapping_mul(top, UVec4::new(3, 3, 3, 3)), UVec4::new(4294967293, 4294967293, 4294967293, 4294967293));
    assert_eq!(IntVec::wrapping_mul(a, b), UVec4::new(6, 28, 5, 48));
    assert_eq!(IntVec::wrapping_div(a, b), UVec4::new(1, 0, 5, 0));
    assert_eq!(IntVec::saturating_add(top, one), top);
    assert_eq!(IntVec::saturating_add(a, b), UVec4::new(5, 11, 6, 14));
    assert_eq!(IntVec::saturating_sub(bottom, one), bottom);
    assert_eq!(IntVec::saturating_sub(a, b), UVec4::new(1, 0, 4, 0));
    assert_eq!(IntVec::saturating_mul(top, UVec4::new(3, 3, 3, 3)), top);
    assert_eq!(IntVec::saturating_mul(a, b), UVec4::new(6, 28, 5, 48));
    assert_eq!(IntVec::saturating_div(a, b), UVec4::new(1, 0, 5, 0));
}

#[test]
fn uvec4_distances() {
    let a = UVec4::new(3, 4, 5, 6);
    let b = UVec4::new(2, 7, 1, 8);
    assert_eq!(IntVec::manhattan_distance(a, b), 10);
    assert_eq!(IntVec::checked_manhattan_distance(a, b), Some(10));
    assert_eq!(IntVec::chebyshev_distance(a, b), 4);
    assert_eq!(IntVec::checked_manhattan_distance(UVec4::MAX, UVec4::MIN), None);
    assert_eq!(IntVec::chebyshev_distance(UVec4::MAX, UVec4::MIN), u32::MAX);
    assert_eq!(IntVec::checked_manhattan_distance(UVec4::new(u32::MAX, 0, 0, 0), UVec4::new(0, 0, 0, 0)), Some(u32::MAX));
    assert_eq!(IntVec::manhattan_distance(UVec4::new(u32::MAX, 0, 0, 0), UVec4::new(0, 0, 0, 0)), u32::MAX);
}

#[test]
fn uvec4_same_as_inherent() {
    let a = UVec4::new(3, 4, 5, 6);
    let b = UVec4::new(2, 7, 1, 8);
    assert_eq!(GVec::dot(a, b), a.dot(b));
    assert_eq!(GVec::dot_into_vec(a, b), a.dot_into_vec(b));
    assert_eq!(GVec::min(a, b), a.min(b));
    assert_eq!(GVec::max(a, b), a.max(b));
    assert_eq!(GVec::cmpeq(a, b), a.cmpeq(b));
    assert_eq!(GVec::cmpne(a, b), a.cmpne(b));
    assert_eq!(GVec::cmpge(a, b), a.cmpge(b));
    assert_eq!(GVec::cmpgt(a, b), a.cmpgt(b));
    assert_eq!(GVec::cmple(a, b), a.cmple(b));
    assert_eq!(GVec::cmplt(a, b), a.cmplt(b));
    assert_eq!(GVec::clamp(a, UVec4::ONE, UVec4::splat(4)), a.clamp(UVec4::ONE, UVec4::splat(4)));
    assert_eq!(GVec::length_squared(a), a.length_squared());
    assert_eq!(GVec::element_sum(a), a.element_sum());
    assert_eq!(GVec::min_element(a), a.min_element());
    assert_eq!(GVec::max_element(a), a.max_element());
    assert_eq!(GVec::min_position(a), a.min_position());
    assert_eq!(GVec::max_position(a), a.max_position());
    assert_eq!(GVec::to_array(&a), a.to_array());
    assert_eq!(GVec::lane(&a, 1), a[1]);
    assert_eq!(GVec::map(b, |v| v / 2), b.map(|v| v / 2));
    assert_eq!(GVec::as_i8vec(&a), a.as_i8vec4());
    assert_eq!(GVec::as_u8vec(&a), a.as_u8vec4());
    assert_eq!(GVec::as_i16vec(&a), a.as_i16vec4());
    assert_eq!(GVec::as_u16vec(&a), a.as_u16vec4());
    assert_eq!(GVec::as_ivec(&a), a.as_ivec4());
    assert_eq!(GVec::as_i64vec(&a), a.as_i64vec4());
    assert_eq!(GVec::as_u64vec(&a), a.as_u64vec4());
    assert_eq!(GVec::as_usizevec(&a), a.as_usizevec4());
    assert_eq!(IntVec::checked_add(a, b), a.checked_add(b));
    assert_eq!(IntVec::checked_sub(a, b), a.checked_sub(b));
    assert_eq!(IntVec::checked_mul(a, b), a.checked_mul(b));
    assert_eq!(IntVec::checked_div(a, b), a.checked_div(b));
    assert_eq!(IntVec::wrapping_add(a, b), a.wrapping_add(b));
    assert_eq!(IntVec::wrapping_sub(a, b), a.wrapping_sub(b));
    assert_eq!(IntVec::wrapping_mul(a, b), a.wrapping_mul(b));
    assert_eq!(IntVec::wrapping_div(a, b), a.wrapping_div(b));
    assert_eq!(IntVec::saturating_add(a, b), a.saturating_add(b));
    assert_eq!(IntVec::saturating_sub(a, b), a.saturating_sub(b));
    assert_eq!(IntVec::saturating_mul(a, b), a.saturating_mul(b));
    assert_eq!(IntVec::saturating_div(a, b), a.saturating_div(b));
    assert_eq!(IntVec::manhattan_distance(a, b), a.manhattan_distance(b));
    assert_eq!(IntVec::checked_manhattan_distance(a, b), a.checked_manhattan_distance(b));
    assert_eq!(IntVec::chebyshev_distance(a, b), a.chebyshev_distance(b));
    assert_eq!(GVec4::with_x(a, 1), a.with_x(1));
    assert_eq!(GVec4::with_y(a, 1), a.with_y(1));
    assert_eq!(GVec4::with_z(a, 1), a.with_z(1));
    assert_eq!(GVec4::with_w(a, 1), a.with_w(1));
    assert_eq!(GVec4::truncate(a), a.truncate());
}
