use glam::{
    BVec2, BVec3, BVec4, I16Vec2, I16Vec3, I16Vec4, I64Vec2, I64Vec3, I64Vec4, I8Vec2, I8Vec3,
    I8Vec4, IVec2, IVec3, IVec4, U16Vec2, U16Vec3, U16Vec4, U64Vec2, U64Vec3, U64Vec4, U8Vec2,
    U8Vec3, U8Vec4, USizeVec2, USizeVec3, USizeVec4, UVec2, UVec3, UVec4,
};
use glam_traits::{GVec, GVec2, GVec3, GVec4, IntVec, SignedVec, SignedVec2, SignedVec3, SignedVec4};

#[test]
fn i8vec2_constants() {
    assert_eq!(<I8Vec2 as GVec>::zero(), I8Vec2::ZERO);
    assert_eq!(<I8Vec2 as GVec>::zero(), I8Vec2::new(0, 0));
    assert_eq!(<I8Vec2 as GVec>::one(), I8Vec2::ONE);
    assert_eq!(<I8Vec2 as GVec>::one(), I8Vec2::new(1, 1));
    assert_eq!(<I8Vec2 as GVec>::min_value(), I8Vec2::MIN);
    assert_eq!(<I8Vec2 as GVec>::min_value(), I8Vec2::splat(i8::MIN));
    assert_eq!(<I8Vec2 as GVec>::max_value(), I8Vec2::MAX);
    assert_eq!(<I8Vec2 as GVec>::max_value(), I8Vec2::splat(i8::MAX));
    assert_eq!(<I8Vec2 as GVec>::axes(), I8Vec2::AXES);
    assert_eq!(<I8Vec2 as GVec>::DIM, 2);
    assert_eq!(<I8Vec2 as GVec2>::unit_x(), I8Vec2::X);
    assert_eq!(<I8Vec2 as GVec2>::unit_x(), I8Vec2::new(1, 0));
    assert_eq!(<I8Vec2 as GVec>::axes()[0], I8Vec2::new(1, 0));
    assert_eq!(<I8Vec2 as GVec2>::unit_y(), I8Vec2::Y);
    assert_eq!(<I8Vec2 as GVec2>::unit_y(), I8Vec2::new(0, 1));
    assert_eq!(<I8Vec2 as GVec>::axes()[1], I8Vec2::new(0, 1));
    assert_eq!(<I8Vec2 as SignedVec>::neg_one(), I8Vec2::NEG_ONE);
    assert_eq!(<I8Vec2 as SignedVec>::neg_one(), I8Vec2::new(-1, -1));
    assert_eq!(<I8Vec2 as SignedVec2>::neg_unit_x(), I8Vec2::NEG_X);
    assert_eq!(<I8Vec2 as SignedVec2>::neg_unit_x(), I8Vec2::new(-1, 0));
    assert_eq!(<I8Vec2 as SignedVec2>::neg_unit_y(), I8Vec2::NEG_Y);
    assert_eq!(<I8Vec2 as SignedVec2>::neg_unit_y(), I8Vec2::new(0, -1));
}

#[test]
fn i8vec2_build_and_read() {
    let a = I8Vec2::new(3, -4);
    assert_eq!(<I8Vec2 as GVec2>::new(3, -4), a);
    assert_eq!(GVec2::x(a), 3);
    assert_eq!(GVec::lane(&a, 0), 3);
    assert_eq!(GVec2::with_x(a, 9), I8Vec2::new(9, -4));
    assert_eq!(GVec2::y(a), -4);
    assert_eq!(GVec::lane(&a, 1), -4);
    assert_eq!(GVec2::with_y(a, 9), I8Vec2::new(3, 9));
    assert_eq!(<I8Vec2 as GVec>::splat(7), I8Vec2::new(7, 7));
    assert_eq!(<I8Vec2 as GVec>::from_array([3, -4]), a);
    assert_eq!(GVec::to_array(&a), [3, -4]);
    assert_eq!(<I8Vec2 as GVec>::from_slice(&[3, -4, 11, 12]), a);
    let mut buffer = [0, 0, 0, 0];
    buffer[2] = 11;
    buffer[3] = 12;
    GVec::write_to_slice(a, &mut buffer);
    assert_eq!(buffer, [3, -4, 11, 12]);
    assert_eq!(GVec2::extend(a, 9), I8Vec3::new(3, -4, 9));
    assert_eq!(GVec::map(a, |v| v * 2 + 1), I8Vec2::new(7, -7));
}

#[test]
fn i8vec2_horizontal() {
    let a = I8Vec2::new(3, -4);
    let b = I8Vec2::new(2, 7);
    assert_eq!(GVec::dot(a, b), -22);
    assert_eq!(GVec::dot(a, b), a.dot(b));
    assert_eq!(GVec::dot_into_vec(a, b), I8Vec2::new(-22, -22));
    assert_eq!(GVec::length_squared(a), 25);
    assert_eq!(GVec::length_squared(a), a.length_squared());
    assert_eq!(GVec::element_sum(a), -1);
    assert_eq!(GVec::element_product(I8Vec2::new(3, -4)), -12);
    assert_eq!(GVec::min_element(a), -4);
    assert_eq!(GVec::max_element(a), 3);
    assert_eq!(GVec::min_position(a), 1);
    assert_eq!(GVec::max_position(a), 0);
    assert_eq!(GVec::min_position(I8Vec2::new(5, 5)), 0);
    assert_eq!(GVec::max_position(I8Vec2::new(5, 5)), 0);
    assert_eq!(GVec::min_position(I8Vec2::new(5, 4)), 1);
    assert_eq!(GVec::max_position(I8Vec2::new(5, 6)), 1);
}

#[test]
fn i8vec2_lanewise() {
    let a = I8Vec2::new(3, -4);
    let b = I8Vec2::new(2, 7);
    assert_eq!(GVec::min(a, b), I8Vec2::new(2, -4));
    assert_eq!(GVec::min(a, b), a.min(b));
    assert_eq!(GVec::max(a, b), I8Vec2::new(3, 7));
    assert_eq!(GVec::max(a, b), a.max(b));
    assert_eq!(GVec::clamp(a, I8Vec2::new(1, 1), I8Vec2::new(4, 4)), I8Vec2::new(3, 1));
    assert_eq!(<I8Vec2 as GVec>::select(BVec2::new(true, false), a, b), I8Vec2::new(3, 7));
}

#[test]
fn i8vec2_comparisons() {
    let a = I8Vec2::new(3, -4);
    let c = I8Vec2::new(3, 9);
    assert_eq!(GVec::cmpeq(a, c), BVec2::new(true, false));
    assert_eq!(GVec::cmpne(a, c), BVec2::new(false, true));
    assert_eq!(GVec::cmpge(a, c), BVec2::new(true, false));
    assert_eq!(GVec::cmpgt(a, c), BVec2::new(false, false));
    assert_eq!(GVec::cmple(a, c), BVec2::new(true, true));
    assert_eq!(GVec::cmplt(a, c), BVec2::new(false, true));
}

#[test]
fn i8vec2_conversions() {
    let v = I8Vec2::new(-1, i8::MAX);
    assert_eq!(GVec::as_i8vec(&v), I8Vec2::new(-1, i8::MAX));
    assert_eq!(GVec::as_u8vec(&v), U8Vec2::new(u8::MAX, 127));
    assert_eq!(GVec::as_i16vec(&v), I16Vec2::new(-1, 127));
    assert_eq!(GVec::as_u16vec(&v), U16Vec2::new(u16::MAX, 127));
    assert_eq!(GVec::as_ivec(&v), IVec2::new(-1, 127));
    assert_eq!(GVec::as_uvec(&v), UVec2::new(u32::MAX, 127));
    assert_eq!(GVec::as_i64vec(&v), I64Vec2::new(-1, 127));
    assert_eq!(GVec::as_u64vec(&v), U64Vec2::new(u64::MAX, 127));
    assert_eq!(GVec::as_usizevec(&v), USizeVec2::new(usize::MAX, 127));
}

#[test]
fn i8vec2_checked_wrapping_saturating() {
    let a = I8Vec2::new(3, -4);
    let b = I8Vec2::new(2, 7);
    let top = I8Vec2::MAX;
    let bottom = I8Vec2::MIN;
    let one = I8Vec2::ONE;
    assert_eq!(IntVec::checked_add(a, b), Some(I8Vec2::new(5, 3)));
    assert_eq!(IntVec::checked_add(top, one), None);
    assert_eq!(IntVec::checked_add(I8Vec2::new(i8::MAX, 0), I8Vec2::new(0, 0)), Some(I8Vec2::new(i8::MAX, 0)));
    assert_eq!(IntVec::checked_sub(a, b), Some(I8Vec2::new(1, -11)));
    assert_eq!(IntVec::checked_sub(bottom, one), None);
    assert_eq!(IntVec::checked_mul(a, b), Some(I8Vec2::new(6, -28)));
    assert_eq!(IntVec::checked_mul(top, I8Vec2::new(2, 2)), None);
    assert_eq!(IntVec::checked_div(a, b), Some(I8Vec2::new(1, 0)));
    assert_eq!(IntVec::checked_div(a, I8Vec2::ZERO), None);
    assert_eq!(IntVec::checked_div(a, I8Vec2::new(1, 0)), None);
    assert_eq!(IntVec::checked_div(bottom, I8Vec2::NEG_ONE), None);
    assert_eq!(IntVec::wrapping_add(top, one), I8Vec2::new(i8::MIN, i8::MIN));
    assert_eq!(IntVec::wrapping_add(a, b), I8Vec2::new(5, 3));
    assert_eq!(IntVec::wrapping_sub(bottom, one), I8Vec2::new(i8::MAX, i8::MAX));
    assert_eq!(IntVec::wrapping_sub(a, b), I8Vec2::new(1, -11));
    assert_eq!(IntVec::wrapping_mul(top, I8Vec2::new(3, 3)), I8Vec2::new(125, 125));
    assert_eq!(IntVec::wrapping_mul(a, b), I8Vec2::new(6, -28));
    assert_eq!(IntVec::wrapping_div(a, b), I8Vec2::new(1, 0));
    assert_eq!(IntVec::wrapping_div(bottom, I8Vec2::NEG_ONE), bottom);
    assert_eq!(IntVec::saturating_add(top, one), top);
    assert_eq!(IntVec::saturating_add(a, b), I8Vec2::new(5, 3));
    assert_eq!(IntVec::saturating_sub(bottom, one), bottom);
    assert_eq!(IntVec::saturating_sub(a, b), I8Vec2::new(1, -11));
    assert_eq!(IntVec::saturating_mul(top, I8Vec2::new(3, 3)), top);
    assert_eq!(IntVec::saturating_mul(a, b), I8Vec2::new(6, -28));
    assert_eq!(IntVec::saturating_div(a, b), I8Vec2::new(1, 0));
    assert_eq!(IntVec::saturating_mul(bottom, I8Vec2::new(3, 3)), bottom);
    assert_eq!(IntVec::saturating_div(bottom, I8Vec2::NEG_ONE), top);
}

#[test]
fn i8vec2_distances() {
    let a = I8Vec2::new(3, -4);
    let b = I8Vec2::new(2, 7);
    assert_eq!(IntVec::manhattan_distance(a, b), 12);
    assert_eq!(IntVec::checked_manhattan_distance(a, b), Some(12));
    assert_eq!(IntVec::chebyshev_distance(a, b), 11);
    assert_eq!(IntVec::checked_manhattan_distance(I8Vec2::MAX, I8Vec2::MIN), None);
    assert_eq!(IntVec::chebyshev_distance(I8Vec2::MAX, I8Vec2::MIN), u8::MAX);
    assert_eq!(IntVec::checked_manhattan_distance(I8Vec2::new(i8::MAX, 0), I8Vec2::new(i8::MIN, 0)), Some(u8::MAX));
    assert_eq!(IntVec::manhattan_distance(I8Vec2::new(i8::MAX, 0), I8Vec2::new(i8::MIN, 0)), u8::MAX);
}

#[test]
fn i8vec2_same_as_inherent() {
    let a = I8Vec2::new(3, -4);
    let b = I8Vec2::new(2, 7);
    assert_eq!(GVec::dot(a, b), a.dot(b));
    assert_eq!(GVec::dot_into_vec(a, b), a.dot_into_vec(b));
    assert_eq!(GVec::min(a, b), a.min(b));
    assert_eq!(GVec::max(a, b), a.max(b));
    assert_eq!(GVec::cmpeq(a, b), a.cmpeq(b));
    assert_eq!(GVec::cmpne(a, b), a.cmpne(b));
    assert_eq!(GVec::cmpge(a, b), a.cmpge(b));
    assert_eq!(GVec::cmpgt(a, b), a.cmpgt(b));
    assert_eq!(GVec::cmple(a, b), a.cmple(b));
    assert_eq!(GVec::cmplt(a, b), a.cmplt(b));
    assert_eq!(GVec::clamp(a, I8Vec2::ONE, I8Vec2::splat(4)), a.clamp(I8Vec2::ONE, I8Vec2::splat(4)));
    assert_eq!(GVec::length_squared(a), a.length_squared());
    assert_eq!(GVec::element_sum(a), a.element_sum());
    assert_eq!(GVec::min_element(a), a.min_element());
    assert_eq!(GVec::max_element(a), a.max_element());
    assert_eq!(GVec::min_position(a), a.min_position());
    assert_eq!(GVec::max_position(a), a.max_position());
    assert_eq!(GVec::to_array(&a), a.to_array());
    assert_eq!(GVec::lane(&a, 1), a[1]);
    assert_eq!(GVec::map(b, |v| v / 2), b.map(|v| v / 2));
    assert_eq!(GVec::as_u8vec(&a), a.as_u8vec2());
    assert_eq!(GVec::as_i16vec(&a), a.as_i16vec2());
    assert_eq!(GVec::as_u16vec(&a), a.as_u16vec2());
    assert_eq!(GVec::as_ivec(&a), a.as_ivec2());
    assert_eq!(GVec::as_uvec(&a), a.as_uvec2());
    assert_eq!(GVec::as_i64vec(&a), a.as_i64vec2());
    assert_eq!(GVec::as_u64vec(&a), a.as_u64vec2());
    assert_eq!(GVec::as_usizevec(&a), a.as_usizevec2());
    assert_eq!(IntVec::checked_add(a, b), a.checked_add(b));
    assert_eq!(IntVec::checked_sub(a, b), a.checked_sub(b));
    assert_eq!(IntVec::checked_mul(a, b), a.checked_mul(b));
    assert_eq!(IntVec::checked_div(a, b), a.checked_div(b));
    assert_eq!(IntVec::wrapping_add(a, b), a.wrapping_add(b));
    assert_eq!(IntVec::wrapping_sub(a, b), a.wrapping_sub(b));
    assert_eq!(IntVec::wrapping_mul(a, b), a.wrapping_mul(b));
    assert_eq!(IntVec::wrapping_div(a, b), a.wrapping_div(b));
    assert_eq!(IntVec::saturating_add(a, b), a.saturating_add(b));
    assert_eq!(IntVec::saturating_sub(a, b), a.saturating_sub(b));
    assert_eq!(IntVec::saturating_mul(a, b), a.saturating_mul(b));
    assert_eq!(IntVec::saturating_div(a, b), a.saturating_div(b));
    assert_eq!(IntVec::manhattan_distance(a, b), a.manhattan_distance(b));
    assert_eq!(IntVec::checked_manhattan_distance(a, b), a.checked_manhattan_distance(b));
    assert_eq!(IntVec::chebyshev_distance(a, b), a.chebyshev_distance(b));
    assert_eq!(GVec2::with_x(a, 1), a.with_x(1));
    assert_eq!(GVec2::with_y(a, 1), a.with_y(1));
    assert_eq!(GVec2::extend(a, 1), a.extend(1));
    assert_eq!(SignedVec::abs(a), a.abs());
    assert_eq!(SignedVec::signum(a), a.signum());
    assert_eq!(SignedVec::is_negative_bitmask(a), a.is_negative_bitmask());
    assert_eq!(SignedVec::div_euclid(a, b), a.div_euclid(b));
    assert_eq!(SignedVec::rem_euclid(a, b), a.rem_euclid(b));
    assert_eq!(SignedVec::distance_squared(a, b), a.distance_squared(b));
    assert_eq!(SignedVec2::perp_dot(a, b), a.perp_dot(b));
    assert_eq!(SignedVec2::rotate(a, b), a.rotate(b));
    assert_eq!(SignedVec2::perp(a), a.perp());
}

#[test]
fn i8vec2_signed() {
    let a = I8Vec2::new(3, -4);
    let b = I8Vec2::new(2, 7);
    assert_eq!(SignedVec::abs(a), I8Vec2::new(3, 4));
    assert_eq!(SignedVec::signum(a), I8Vec2::new(1, -1));
    assert_eq!(SignedVec::signum(I8Vec2::ZERO), I8Vec2::ZERO);
    assert_eq!(SignedVec::is_negative_bitmask(a), 2);
    assert_eq!(SignedVec::is_negative_bitmask(I8Vec2::NEG_ONE), 3);
    assert_eq!(SignedVec::is_negative_bitmask(I8Vec2::ZERO), 0);
    assert_eq!(SignedVec::distance_squared(a, b), 122);
    assert_eq!(SignedVec::div_euclid(I8Vec2::new(-7, 7), I8Vec2::new(2, -2)), I8Vec2::new(-4, -3));
    assert_eq!(SignedVec::rem_euclid(I8Vec2::new(-7, 7), I8Vec2::new(2, -2)), I8Vec2::new(1, 1));
    assert_eq!(SignedVec2::perp(a), I8Vec2::new(4, 3));
    assert_eq!(SignedVec2::perp_dot(a, b), 29);
    assert_eq!(SignedVec2::rotate(a, b), I8Vec2::new(34, 13));
}

#[test]
fn i8vec3_constants() {
    assert_eq!(<I8Vec3 as GVec>::zero(), I8Vec3::ZERO);
    assert_eq!(<I8Vec3 as GVec>::zero(), I8Vec3::new(0, 0, 0));
    assert_eq!(<I8Vec3 as GVec>::one(), I8Vec3::ONE);
    assert_eq!(<I8Vec3 as GVec>::one(), I8Vec3::new(1, 1, 1));
    assert_eq!(<I8Vec3 as GVec>::min_value(), I8Vec3::MIN);
    assert_eq!(<I8Vec3 as GVec>::min_value(), I8Vec3::splat(i8::MIN));
    assert_eq!(<I8Vec3 as GVec>::max_value(), I8Vec3::MAX);
    assert_eq!(<I8Vec3 as GVec>::max_value(), I8Vec3::splat(i8::MAX));
    assert_eq!(<I8Vec3 as GVec>::axes(), I8Vec3::AXES);
    assert_eq!(<I8Vec3 as GVec>::DIM, 3);
    assert_eq!(<I8Vec3 as GVec3>::unit_x(), I8Vec3::X);
    assert_eq!(<I8Vec3 as GVec3>::unit_x(), I8Vec3::new(1, 0, 0));
    assert_eq!(<I8Vec3 as GVec>::axes()[0], I8Vec3::new(1, 0, 0));
    assert_eq!(<I8Vec3 as GVec3>::unit_y(), I8Vec3::Y);
    assert_eq!(<I8Vec3 as GVec3>::unit_y(), I8Vec3::new(0, 1, 0));
    assert_eq!(<I8Vec3 as GVec>::axes()[1], I8Vec3::new(0, 1, 0));
    assert_eq!(<I8Vec3 as GVec3>::unit_z(), I8Vec3::Z);
    assert_eq!(<I8Vec3 as GVec3>::unit_z(), I8Vec3::new(0, 0, 1));
    assert_eq!(<I8Vec3 as GVec>::axes()[2], I8Vec3::new(0, 0, 1));
    assert_eq!(<I8Vec3 as SignedVec>::neg_one(), I8Vec3::NEG_ONE);
    assert_eq!(<I8Vec3 as SignedVec>::neg_one(), I8Vec3::new(-1, -1, -1));
    assert_eq!(<I8Vec3 as SignedVec3>::neg_unit_x(), I8Vec3::NEG_X);
    assert_eq!(<I8Vec3 as SignedVec3>::neg_unit_x(), I8Vec3::new(-1, 0, 0));
    assert_eq!(<I8Vec3 as SignedVec3>::neg_unit_y(), I8Vec3::NEG_Y);
    assert_eq!(<I8Vec3 as SignedVec3>::neg_unit_y(), I8Vec3::new(0, -1, 0));
    assert_eq!(<I8Vec3 as SignedVec3>::neg_unit_z(), I8Vec3::NEG_Z);
    assert_eq!(<I8Vec3 as SignedVec3>::neg_unit_z(), I8Vec3::new(0, 0, -1));
}

#[test]
fn i8vec3_build_and_read() {
    let a = I8Vec3::new(3, -4, 5);
    assert_eq!(<I8Vec3 as GVec3>::new(3, -4, 5), a);
    assert_eq!(GVec3::x(a), 3);
    assert_eq!(GVec::lane(&a, 0), 3);
    assert_eq!(GVec3::with_x(a, 9), I8Vec3::new(9, -4, 5));
    assert_eq!(GVec3::y(a), -4);
    assert_eq!(GVec::lane(&a, 1), -4);
    assert_eq!(GVec3::with_y(a, 9), I8Vec3::new(3, 9, 5));
    assert_eq!(GVec3::z(a), 5);
    assert_eq!(GVec::lane(&a, 2), 5);
    assert_eq!(GVec3::with_z(a, 9), I8Vec3::new(3, -4, 9));
    assert_eq!(<I8Vec3 as GVec>::splat(7), I8Vec3::new(7, 7, 7));
    assert_eq!(<I8Vec3 as GVec>::from_array([3, -4, 5]), a);
    assert_eq!(GVec::to_array(&a), [3, -4, 5]);
    assert_eq!(<I8Vec3 as GVec>::from_slice(&[3, -4, 5, 11, 12]), a);
    let mut buffer = [0, 0, 0, 0, 0];
    buffer[3] = 11;
    buffer[4] = 12;
    GVec::write_to_slice(a, &mut buffer);
    assert_eq!(buffer, [3, -4, 5, 11, 12]);
    assert_eq!(GVec3::extend(a, 9), I8Vec4::new(3, -4, 5, 9));
    assert_eq!(GVec3::truncate(a), I8Vec2::new(3, -4));
    assert_eq!(GVec::map(a, |v| v * 2 + 1), I8Vec3::new(7, -7, 11));
}

#[test]
fn i8vec3_horizontal() {
    let a = I8Vec3::new(3, -4, 5);
    let b = I8Vec3::new(2, 7, -1);
    assert_eq!(GVec::dot(a, b), -27);
    assert_eq!(GVec::dot(a, b), a.dot(b));
    assert_eq!(GVec::dot_into_vec(a, b), I8Vec3::new(-27, -27, -27));
    assert_eq!(GVec::length_squared(a), 50);
    assert_eq!(GVec::length_squared(a), a.length_squared());
    assert_eq!(GVec::element_sum(a), 4);
    assert_eq!(GVec::element_product(I8Vec3::new(3, -4, 5)), -60);
    assert_eq!(GVec::min_element(a), -4);
    assert_eq!(GVec::max_element(a), 5);
    assert_eq!(GVec::min_position(a), 1);
    assert_eq!(GVec::max_position(a), 2);
    assert_eq!(GVec::min_position(I8Vec3::new(5, 5, 5)), 0);
    assert_eq!(GVec::max_position(I8Vec3::new(5, 5, 5)), 0);
    assert_eq!(GVec::min_position(I8Vec3::new(5, 5, 4)), 2);
    assert_eq!(GVec::max_position(I8Vec3::new(5, 5, 6)), 2);
}

#[test]
fn i8vec3_lanewise() {
    let a = I8Vec3::new(3, -4, 5);
    let b = I8Vec3::new(2, 7, -1);
    assert_eq!(GVec::min(a, b), I8Vec3::new(2, -4, -1));
    assert_eq!(GVec::min(a, b), a.min(b));
    assert_eq!(GVec::max(a, b), I8Vec3::new(3, 7, 5));
    assert_eq!(GVec::max(a, b), a.max(b));
    assert_eq!(GVec::clamp(a, I8Vec3::new(1, 1, 1), I8Vec3::new(4, 4, 4)), I8Vec3::new(3, 1, 4));
    assert_eq!(<I8Vec3 as GVec>::select(BVec3::new(true, false, false), a, b), I8Vec3::new(3, 7, -1));
}

#[test]
fn i8vec3_comparisons() {
    let a = I8Vec3::new(3, -4, 5);
    let c = I8Vec3::new(3, 9, 5);
    assert_eq!(GVec::cmpeq(a, c), BVec3::new(true, false, true));
    assert_eq!(GVec::cmpne(a, c), BVec3::new(false, true, false));
    assert_eq!(GVec::cmpge(a, c), BVec3::new(true, false, true));
    assert_eq!(GVec::cmpgt(a, c), BVec3::new(false, false, false));
    assert_eq!(GVec::cmple(a, c), BVec3::new(true, true, true));
    assert_eq!(GVec::cmplt(a, c), BVec3::new(false, true, false));
}

#[test]
fn i8vec3_conversions() {
    let v = I8Vec3::new(-1, i8::MAX, i8::MIN);
    assert_eq!(GVec::as_i8vec(&v), I8Vec3::new(-1, i8::MAX, i8::MIN));
    assert_eq!(GVec::as_u8vec(&v), U8Vec3::new(u8::MAX, 127, 128));
    assert_eq!(GVec::as_i16vec(&v), I16Vec3::new(-1, 127, -128));
    assert_eq!(GVec::as_u16vec(&v), U16Vec3::new(u16::MAX, 127, 65408));
    assert_eq!(GVec::as_ivec(&v), IVec3::new(-1, 127, -128));
    assert_eq!(GVec::as_uvec(&v), UVec3::new(u32::MAX, 127, 4294967168));
    assert_eq!(GVec::as_i64vec(&v), I64Vec3::new(-1, 127, -128));
    assert_eq!(GVec::as_u64vec(&v), U64Vec3::new(u64::MAX, 127, 18446744073709551488));
    assert_eq!(GVec::as_usizevec(&v), USizeVec3::new(usize::MAX, 127, 18446744073709551488));
}

#[test]
fn i8vec3_checked_wrapping_saturating() {
    let a = I8Vec3::new(3, -4, 5);
    let b = I8Vec3::new(2, 7, -1);
    let top = I8Vec3::MAX;
    let bottom = I8Vec3::MIN;
    let one = I8Vec3::ONE;
    assert_eq!(IntVec::checked_add(a, b), Some(I8Vec3::new(5, 3, 4)));
    assert_eq!(IntVec::checked_add(top, one), None);
    assert_eq!(IntVec::checked_add(I8Vec3::new(i8::MAX, 0, 0), I8Vec3::new(0, 0, 0)), Some(I8Vec3::new(i8::MAX, 0, 0)));
    assert_eq!(IntVec::checked_sub(a, b), Some(I8Vec3::new(1, -11, 6)));
    assert_eq!(IntVec::checked_sub(bottom, one), None);
    assert_eq!(IntVec::checked_mul(a, b), Some(I8Vec3::new(6, -28, -5)));
    assert_eq!(IntVec::checked_mul(top, I8Vec3::new(2, 2, 2)), None);
    assert_eq!(IntVec::checked_div(a, b), Some(I8Vec3::new(1, 0, -5)));
    assert_eq!(IntVec::checked_div(a, I8Vec3::ZERO), None);
    assert_eq!(IntVec::checked_div(a, I8Vec3::new(1, 1, 0)), None);
    assert_eq!(IntVec::checked_div(bottom, I8Vec3::NEG_ONE), None);
    assert_eq!(IntVec::wrapping_add(top, one), I8Vec3::new(i8::MIN, i8::MIN, i8::MIN));
    assert_eq!(IntVec::wrapping_add(a, b), I8Vec3::new(5, 3, 4));
    assert_eq!(IntVec::wrapping_sub(bottom, one), I8Vec3::new(i8::MAX, i8::MAX, i8::MAX));
    assert_eq!(IntVec::wrapping_sub(a, b), I8Vec3::new(1, -11, 6));
    assert_eq!(IntVec::wrapping_mul(top, I8Vec3::new(3, 3, 3)), I8Vec3::new(125, 125, 125));
    assert_eq!(IntVec::wrapping_mul(a, b), I8Vec3::new(6, -28, -5));
    assert_eq!(IntVec::wrapping_div(a, b), I8Vec3::new(1, 0, -5));
    assert_eq!(IntVec::wrapping_div(bottom, I8Vec3::NEG_ONE), bottom);
    assert_eq!(IntVec::saturating_add(top, one), top);
    assert_eq!(IntVec::saturating_add(a, b), I8Vec3::new(5, 3, 4));
    assert_eq!(IntVec::saturating_sub(bottom, one), bottom);
    assert_eq!(IntVec::saturating_sub(a, b), I8Vec3::new(1, -11, 6));
    assert_eq!(IntVec::saturating_mul(top, I8Vec3::new(3, 3, 3)), top);
    assert_eq!(IntVec::saturating_mul(a, b), I8Vec3::new(6, -28, -5));
    assert_eq!(IntVec::saturating_div(a, b), I8Vec3::new(1, 0, -5));
    assert_eq!(IntVec::saturating_mul(bottom, I8Vec3::new(3, 3, 3)), bottom);
    assert_eq!(IntVec::saturating_div(bottom, I8Vec3::NEG_ONE), top);
}

#[test]
fn i8vec3_distances() {
    let a = I8Vec3::new(3, -4, 5);
    let b = I8Vec3::new(2, 7, -1);
    assert_eq!(IntVec::manhattan_distance(a, b), 18);
    assert_eq!(IntVec::checked_manhattan_distance(a, b), Some(18));
    assert_eq!(IntVec::chebyshev_distance(a, b), 11);
    assert_eq!(IntVec::checked_manhattan_distance(I8Vec3::MAX, I8Vec3::MIN), None);
    assert_eq!(IntVec::chebyshev_distance(I8Vec3::MAX, I8Vec3::MIN), u8::MAX);
    assert_eq!(IntVec::checked_manhattan_distance(I8Vec3::new(i8::MAX, 0, 0), I8Vec3::new(i8::MIN, 0, 0)), Some(u8::MAX));
    assert_eq!(IntVec::manhattan_distance(I8Vec3::new(i8::MAX, 0, 0), I8Vec3::new(i8::MIN, 0, 0)), u8::MAX);
}

#[test]
fn i8vec3_same_as_inherent() {
    let a = I8Vec3::new(3, -4, 5);
    let b = I8Vec3::new(2, 7, -1);
    assert_eq!(GVec::dot(a, b), a.dot(b));
    assert_eq!(GVec::dot_into_vec(a, b), a.dot_into_vec(b));
    assert_eq!(GVec::min(a, b), a.min(b));
    assert_eq!(GVec::max(a, b), a.max(b));
    assert_eq!(GVec::cmpeq(a, b), a.cmpeq(b));
    assert_eq!(GVec::cmpne(a, b), a.cmpne(b));
    assert_eq!(GVec::cmpge(a, b), a.cmpge(b));
    assert_eq!(GVec::cmpgt(a, b), a.cmpgt(b));
    assert_eq!(GVec::cmple(a, b), a.cmple(b));
    assert_eq!(GVec::cmplt(a, b), a.cmplt(b));
    assert_eq!(GVec::clamp(a, I8Vec3::ONE, I8Vec3::splat(4)), a.clamp(I8Vec3::ONE, I8Vec3::splat(4)));
    assert_eq!(GVec::length_squared(a), a.length_squared());
    assert_eq!(GVec::element_sum(a), a.element_sum());
    assert_eq!(GVec::min_element(a), a.min_element());
    assert_eq!(GVec::max_element(a), a.max_element());
    assert_eq!(GVec::min_position(a), a.min_position());
    assert_eq!(GVec::max_position(a), a.max_position());
    assert_eq!(GVec::to_array(&a), a.to_array());
    assert_eq!(GVec::lane(&a, 1), a[1]);
    assert_eq!(GVec::map(b, |v| v / 2), b.map(|v| v / 2));
    assert_eq!(GVec::as_u8vec(&a), a.as_u8vec3());
    assert_eq!(GVec::as_i16vec(&a), a.as_i16vec3());
    assert_eq!(GVec::as_u16vec(&a), a.as_u16vec3());
    assert_eq!(GVec::as_ivec(&a), a.as_ivec3());
    assert_eq!(GVec::as_uvec(&a), a.as_uvec3());
    assert_eq!(GVec::as_i64vec(&a), a.as_i64vec3());
    assert_eq!(GVec::as_u64vec(&a), a.as_u64vec3());
    assert_eq!(GVec::as_usizevec(&a), a.as_usizevec3());
    assert_eq!(IntVec::checked_add(a, b), a.checked_add(b));
    assert_eq!(IntVec::checked_sub(a, b), a.checked_sub(b));
    assert_eq!(IntVec::checked_mul(a, b), a.checked_mul(b));
    assert_eq!(IntVec::checked_div(a, b), a.checked_div(b));
    assert_eq!(IntVec::wrapping_add(a, b), a.wrapping_add(b));
    assert_eq!(IntVec::wrapping_sub(a, b), a.wrapping_sub(b));
    assert_eq!(IntVec::wrapping_mul(a, b), a.wrapping_mul(b));
    assert_eq!(IntVec::wrapping_div(a, b), a.wrapping_div(b));
    assert_eq!(IntVec::saturating_add(a, b), a.saturating_add(b));
    assert_eq!(IntVec::saturating_sub(a, b), a.saturating_sub(b));
    assert_eq!(IntVec::saturating_mul(a, b), a.saturating_mul(b));
    assert_eq!(IntVec::saturating_div(a, b), a.saturating_div(b));
    assert_eq!(IntVec::manhattan_distance(a, b), a.manhattan_distance(b));
    assert_eq!(IntVec::checked_manhattan_distance(a, b), a.checked_manhattan_distance(b));
    assert_eq!(IntVec::chebyshev_distance(a, b), a.chebyshev_distance(b));
    assert_eq!(GVec3::with_x(a, 1), a.with_x(1));
    assert_eq!(GVec3::with_y(a, 1), a.with_y(1));
    assert_eq!(GVec3::with_z(a, 1), a.with_z(1));
    assert_eq!(GVec3::extend(a, 1), a.extend(1));
    assert_eq!(GVec3::truncate(a), a.truncate());
    assert_eq!(SignedVec::abs(a), a.abs());
    assert_eq!(SignedVec::signum(a), a.signum());
    assert_eq!(SignedVec::is_negative_bitmask(a), a.is_negative_bitmask());
    assert_eq!(SignedVec::div_euclid(a, b), a.div_euclid(b));
    assert_eq!(SignedVec::rem_euclid(a, b), a.rem_euclid(b));
}

#[test]
fn i8vec3_cross() {
    let a = I8Vec3::new(3, -4, 5);
    let b = I8Vec3::new(2, 7, -1);
    assert_eq!(GVec3::cross(a, b), I8Vec3::new(-31, 13, 29));
    assert_eq!(GVec3::cross(a, b), a.cross(b));
}

#[test]
fn i8vec3_signed() {
    let a = I8Vec3::new(3, -4, 5);
    let b = I8Vec3::new(2, 7, -1);
    assert_eq!(SignedVec::abs(a), I8Vec3::new(3, 4, 5));
    assert_eq!(SignedVec::signum(a), I8Vec3::new(1, -1, 1));
    assert_eq!(SignedVec::signum(I8Vec3::ZERO), I8Vec3::ZERO);
    assert_eq!(SignedVec::is_negative_bitmask(a), 2);
    assert_eq!(SignedVec::is_negative_bitmask(I8Vec3::NEG_ONE), 7);
    assert_eq!(SignedVec::is_negative_bitmask(I8Vec3::ZERO), 0);
    assert_eq!(SignedVec::distance_squared(I8Vec3::new(1, -2, 3), I8Vec3::new(2, 1, 1)), 14);
    assert_eq!(SignedVec::div_euclid(I8Vec3::new(-7, 7, -7), I8Vec3::new(2, -2, -2)), I8Vec3::new(-4, -3, 4));
    assert_eq!(SignedVec::rem_euclid(I8Vec3::new(-7, 7, -7), I8Vec3::new(2, -2, -2)), I8Vec3::new(1, 1, 1));
}

#[test]
fn i8vec4_constants() {
    assert_eq!(<I8Vec4 as GVec>::zero(), I8Vec4::ZERO);
    assert_eq!(<I8Vec4 as GVec>::zero(), I8Vec4::new(0, 0, 0, 0));
    assert_eq!(<I8Vec4 as GVec>::one(), I8Vec4::ONE);
    assert_eq!(<I8Vec4 as GVec>::one(), I8Vec4::new(1, 1, 1, 1));
    assert_eq!(<I8Vec4 as GVec>::min_value(), I8Vec4::MIN);
    assert_eq!(<I8Vec4 as GVec>::min_value(), I8Vec4::splat(i8::MIN));
    assert_eq!(<I8Vec4 as GVec>::max_value(), I8Vec4::MAX);
    assert_eq!(<I8Vec4 as GVec>::max_value(), I8Vec4::splat(i8::MAX));
    assert_eq!(<I8Vec4 as GVec>::axes(), I8Vec4::AXES);
    assert_eq!(<I8Vec4 as GVec>::DIM, 4);
    assert_eq!(<I8Vec4 as GVec4>::unit_x(), I8Vec4::X);
    assert_eq!(<I8Vec4 as GVec4>::unit_x(), I8Vec4::new(1, 0, 0, 0));
    assert_eq!(<I8Vec4 as GVec>::axes()[0], I8Vec4::new(1, 0, 0, 0));
    assert_eq!(<I8Vec4 as GVec4>::unit_y(), I8Vec4::Y);
    assert_eq!(<I8Vec4 as GVec4>::unit_y(), I8Vec4::new(0, 1, 0, 0));
    assert_eq!(<I8Vec4 as GVec>::axes()[1], I8Vec4::new(0, 1, 0, 0));
    assert_eq!(<I8Vec4 as GVec4>::unit_z(), I8Vec4::Z);
    assert_eq!(<I8Vec4 as GVec4>::unit_z(), I8Vec4::new(0, 0, 1, 0));
    assert_eq!(<I8Vec4 as GVec>::axes()[2], I8Vec4::new(0, 0, 1, 0));
    assert_eq!(<I8Vec4 as GVec4>::unit_w(), I8Vec4::W);
    assert_eq!(<I8Vec4 as GVec4>::unit_w(), I8Vec4::new(0, 0, 0, 1));
    assert_eq!(<I8Vec4 as GVec>::axes()[3], I8Vec4::new(0, 0, 0, 1));
    assert_eq!(<I8Vec4 as SignedVec>::neg_one(), I8Vec4::NEG_ONE);
    assert_eq!(<I8Vec4 as SignedVec>::neg_one(), I8Vec4::new(-1, -1, -1, -1));
    assert_eq!(<I8Vec4 as SignedVec4>::neg_unit_x(), I8Vec4::NEG_X);
    assert_eq!(<I8Vec4 as SignedVec4>::neg_unit_x(), I8Vec4::new(-1, 0, 0, 0));
    assert_eq!(<I8Vec4 as SignedVec4>::neg_unit_y(), I8Vec4::NEG_Y);
    assert_eq!(<I8Vec4 as SignedVec4>::neg_unit_y(), I8Vec4::new(0, -1, 0, 0));
    assert_eq!(<I8Vec4 as SignedVec4>::neg_unit_z(), I8Vec4::NEG_Z);
    assert_eq!(<I8Vec4 as SignedVec4>::neg_unit_z(), I8Vec4::new(0, 0, -1, 0));
    assert_eq!(<I8Vec4 as SignedVec4>::neg_unit_w(), I8Vec4::NEG_W);
    assert_eq!(<I8Vec4 as SignedVec4>::neg_unit_w(), I8Vec4::new(0, 0, 0, -1));
}

#[test]
fn i8vec4_build_and_read() {
    let a = I8Vec4::new(3, -4, 5, -6);
    assert_eq!(<I8Vec4 as GVec4>::new(3, -4, 5, -6), a);
    assert_eq!(GVec4::x(a), 3);
    assert_eq!(GVec::lane(&a, 0), 3);
    assert_eq!(GVec4::with_x(a, 9), I8Vec4::new(9, -4, 5, -6));
    assert_eq!(GVec4::y(a), -4);
    assert_eq!(GVec::lane(&a, 1), -4);
    assert_eq!(GVec4::with_y(a, 9), I8Vec4::new(3, 9, 5, -6));
    assert_eq!(GVec4::z(a), 5);
    assert_eq!(GVec::lane(&a, 2), 5);
    assert_eq!(GVec4::with_z(a, 9), I8Vec4::new(3, -4, 9, -6));
    assert_eq!(GVec4::w(a), -6);
    assert_eq!(GVec::lane(&a, 3), -6);
    assert_eq!(GVec4::with_w(a, 9), I8Vec4::new(3, -4, 5, 9));
    assert_eq!(<I8Vec4 as GVec>::splat(7), I8Vec4::new(7, 7, 7, 7));
    assert_eq!(<I8Vec4 as GVec>::from_array([3, -4, 5, -6]), a);
    assert_eq!(GVec::to_array(&a), [3, -4, 5, -6]);
    assert_eq!(<I8Vec4 as GVec>::from_slice(&[3, -4, 5, -6, 11, 12]), a);
    let mut buffer = [0, 0, 0, 0, 0, 0];
    buffer[4] = 11;
    buffer[5] = 12;
    GVec::write_to_slice(a, &mut buffer);
    assert_eq!(buffer, [3, -4, 5, -6, 11, 12]);
    assert_eq!(GVec4::truncate(a), I8Vec3::new(3, -4, 5));
    assert_eq!(GVec::map(a, |v| v * 2 + 1), I8Vec4::new(7, -7, 11, -11));
}

#[test]
fn i8vec4_horizontal() {
    let a = I8Vec4::new(3, -4, 5, -6);
    let b = I8Vec4::new(2, 7, -1, 8);
    assert_eq!(GVec::dot(a, b), -75);
    assert_eq!(GVec::dot(a, b), a.dot(b));
    assert_eq!(GVec::dot_into_vec(a, b), I8Vec4::new(-75, -75, -75, -75));
    assert_eq!(GVec::length_squared(a), 86);
    assert_eq!(GVec::length_squared(a), a.length_squared());
    assert_eq!(GVec::element_sum(a), -2);
    assert_eq!(GVec::element_product(I8Vec4::new(1, -2, 3, -4)), 24);
    assert_eq!(GVec::min_element(a), -6);
    assert_eq!(GVec::max_element(a), 5);
    assert_eq!(GVec::min_position(a), 3);
    assert_eq!(GVec::max_position(a), 2);
    assert_eq!(GVec::min_position(I8Vec4::new(5, 5, 5, 5)), 0);
    assert_eq!(GVec::max_position(I8Vec4::new(5, 5, 5, 5)), 0);
    assert_eq!(GVec::min_position(I8Vec4::new(5, 5, 5, 4)), 3);
    assert_eq!(GVec::max_position(I8Vec4::new(5, 5, 5, 6)), 3);
}

#[test]
fn i8vec4_lanewise() {
    let a = I8Vec4::new(3, -4, 5, -6);
    let b = I8Vec4::new(2, 7, -1, 8);
    assert_eq!(GVec::min(a, b), I8Vec4::new(2, -4, -1, -6));
    assert_eq!(GVec::min(a, b), a.min(b));
    assert_eq!(GVec::max(a, b), I8Vec4::new(3, 7, 5, 8));
    assert_eq!(GVec::max(a, b), a.max(b));
    assert_eq!(GVec::clamp(a, I8Vec4::new(1, 1, 1, 1), I8Vec4::new(4, 4, 4, 4)), I8Vec4::new(3, 1, 4, 1));
    assert_eq!(<I8Vec4 as GVec>::select(BVec4::new(true, false, false, true), a, b), I8Vec4::new(3, 7, -1, -6));
}

#[test]
fn i8vec4_comparisons() {
    let a = I8Vec4::new(3, -4, 5, -6);
    let c = I8Vec4::new(3, 9, 5, -7);
    assert_eq!(GVec::cmpeq(a, c), BVec4::new(true, false, true, false));
    assert_eq!(GVec::cmpne(a, c), BVec4::new(false, true, false, true));
    assert_eq!(GVec::cmpge(a, c), BVec4::new(true, false, true, true));
    assert_eq!(GVec::cmpgt(a, c), BVec4::new(false, false, false, true));
    assert_eq!(GVec::cmple(a, c), BVec4::new(true, true, true, false));
    assert_eq!(GVec::cmplt(a, c), BVec4::new(false, true, false, false));
}

#[test]
fn i8vec4_conversions() {
    let v = I8Vec4::new(-1, i8::MAX, i8::MIN, i8::MAX);
    assert_eq!(GVec::as_i8vec(&v), I8Vec4::new(-1, i8::MAX, i8::MIN, i8::MAX));
    assert_eq!(GVec::as_u8vec(&v), U8Vec4::new(u8::MAX, 127, 128, 127));
    assert_eq!(GVec::as_i16vec(&v), I16Vec4::new(-1, 127, -128, 127));
    assert_eq!(GVec::as_u16vec(&v), U16Vec4::new(u16::MAX, 127, 65408, 127));
    assert_eq!(GVec::as_ivec(&v), IVec4::new(-1, 127, -128, 127));
    assert_eq!(GVec::as_uvec(&v), UVec4::new(u32::MAX, 127, 4294967168, 127));
    assert_eq!(GVec::as_i64vec(&v), I64Vec4::new(-1, 127, -128, 127));
    assert_eq!(GVec::as_u64vec(&v), U64Vec4::new(u64::MAX, 127, 18446744073709551488, 127));
    assert_eq!(GVec::as_usizevec(&v), USizeVec4::new(usize::MAX, 127, 18446744073709551488, 127));
}

#[test]
fn i8vec4_checked_wrapping_saturating() {
    let a = I8Vec4::new(3, -4, 5, -6);
    let b = I8Vec4::new(2, 7, -1, 8);
    let top = I8Vec4::MAX;
    let bottom = I8Vec4::MIN;
    let one = I8Vec4::ONE;
    assert_eq!(IntVec::checked_add(a, b), Some(I8Vec4::new(5, 3, 4, 2)));
    assert_eq!(IntVec::checked_add(top, one), None);
    assert_eq!(IntVec::checked_add(I8Vec4::new(i8::MAX, 0, 0, 0), I8Vec4::new(0, 0, 0, 0)), Some(I8Vec4::new(i8::MAX, 0, 0, 0)));
    assert_eq!(IntVec::checked_sub(a, b), Some(I8Vec4::new(1, -11, 6, -14)));
    assert_eq!(IntVec::checked_sub(bottom, one), None);
    assert_eq!(IntVec::checked_mul(a, b), Some(I8Vec4::new(6, -28, -5, -48)));
    assert_eq!(IntVec::checked_mul(top, I8Vec4::new(2, 2, 2, 2)), None);
    assert_eq!(IntVec::checked_div(a, b), Some(I8Vec4::new(1, 0, -5, 0)));
    assert_eq!(IntVec::checked_div(a, I8Vec4::ZERO), None);
    assert_eq!(IntVec::checked_div(a, I8Vec4::new(1, 1, 1, 0)), None);
    assert_eq!(IntVec::checked_div(bottom, I8Vec4::NEG_ONE), None);
    assert_eq!(IntVec::wrapping_add(top, one), I8Vec4::new(i8::MIN, i8::MIN, i8::MIN, i8::MIN));
    assert_eq!(IntVec::wrapping_add(a, b), I8Vec4::new(5, 3, 4, 2));
    assert_eq!(IntVec::wrapping_sub(bottom, one), I8Vec4::new(i8::MAX, i8::MAX, i8::MAX, i8::MAX));
    assert_eq!(IntVec::wrapping_sub(a, b), I8Vec4::new(1, -11, 6, -14));
    assert_eq!(IntVec::wrapping_mul(top, I8Vec4::new(3, 3, 3, 3)), I8Vec4::new(125, 125, 125, 125));
    assert_eq!(IntVec::wrapping_mul(a, b), I8Vec4::new(6, -28, -5, -48));
    assert_eq!(IntVec::wrapping_div(a, b), I8Vec4::new(1, 0, -5, 0));
    assert_eq!(IntVec::wrapping_div(bottom, I8Vec4::NEG_ONE), bottom);
    assert_eq!(IntVec::saturating_add(top, one), top);
    assert_eq!(IntVec::saturating_add(a, b), I8Vec4::new(5, 3, 4, 2));
    assert_eq!(IntVec::saturating_sub(bottom, one), bottom);
    assert_eq!(IntVec::saturating_sub(a, b), I8Vec4::new(1, -11, 6, -14));
    assert_eq!(IntVec::saturating_mul(top, I8Vec4::new(3, 3, 3, 3)), top);
    assert_eq!(IntVec::saturating_mul(a, b), I8Vec4::new(6, -28, -5, -48));
    assert_eq!(IntVec::saturating_div(a, b), I8Vec4::new(1, 0, -5, 0));
    assert_eq!(IntVec::saturating_mul(bottom, I8Vec4::new(3, 3, 3, 3)), bottom);
    assert_eq!(IntVec::saturating_div(bottom, I8Vec4::NEG_ONE), top);
}

#[test]
fn i8vec4_distances() {
    let a = I8Vec4::new(3, -4, 5, -6);
    let b = I8Vec4::new(2, 7, -1, 8);
    assert_eq!(IntVec::manhattan_distance(a, b), 32);
    assert_eq!(IntVec::checked_manhattan_distance(a, b), Some(32));
    assert_eq!(IntVec::chebyshev_distance(a, b), 14);
    assert_eq!(IntVec::checked_manhattan_distance(I8Vec4::MAX, I8Vec4::MIN), None);
    assert_eq!(IntVec::chebyshev_distance(I8Vec4::MAX, I8Vec4::MIN), u8::MAX);
    assert_eq!(IntVec::checked_manhattan_distance(I8Vec4::new(i8::MAX, 0, 0, 0), I8Vec4::new(i8::MIN, 0, 0, 0)), Some(u8::MAX));
    assert_eq!(IntVec::manhattan_distance(I8Vec4::new(i8::MAX, 0, 0, 0), I8Vec4::new(i8::MIN, 0, 0, 0)), u8::MAX);
}

#[test]
fn i8vec4_same_as_inherent() {
    let a = I8Vec4::new(3, -4, 5, -6);
    let b = I8Vec4::new(2, 7, -1, 8);
    assert_eq!(GVec::dot(a, b), a.dot(b));
    assert_eq!(GVec::dot_into_vec(a, b), a.dot_into_vec(b));
    assert_eq!(GVec::min(a, b), a.min(b));
    assert_eq!(GVec::max(a, b), a.max(b));
    assert_eq!(GVec::cmpeq(a, b), a.cmpeq(b));
    assert_eq!(GVec::cmpne(a, b), a.cmpne(b));
    assert_eq!(GVec::cmpge(a, b), a.cmpge(b));
    assert_eq!(GVec::cmpgt(a, b), a.cmpgt(b));
    assert_eq!(GVec::cmple(a, b), a.cmple(b));
    assert_eq!(GVec::cmplt(a, b), a.cmplt(b));
    assert_eq!(GVec::clamp(a, I8Vec4::ONE, I8Vec4::splat(4)), a.clamp(I8Vec4::ONE, I8Vec4::splat(4)));
    assert_eq!(GVec::length_squared(a), a.length_squared());
    assert_eq!(GVec::element_sum(a), a.element_sum());
    assert_eq!(GVec::min_element(a), a.min_element());
    assert_eq!(GVec::max_element(a), a.max_element());
    assert_eq!(GVec::min_position(a), a.min_position());
    assert_eq!(GVec::max_position(a), a.max_position());
    assert_eq!(GVec::to_array(&a), a.to_array());
    assert_eq!(GVec::lane(&a, 1), a[1]);
    assert_eq!(GVec::map(b, |v| v / 2), b.map(|v| v / 2));
    assert_eq!(GVec::as_u8vec(&a), a.as_u8vec4());
    assert_eq!(GVec::as_i16vec(&a), a.as_i16vec4());
    assert_eq!(GVec::as_u16vec(&a), a.as_u16vec4());
    assert_eq!(GVec::as_ivec(&a), a.as_ivec4());
    assert_eq!(GVec::as_uvec(&a), a.as_uvec4());
    assert_eq!(GVec::as_i64vec(&a), a.as_i64vec4());
    assert_eq!(GVec::as_u64vec(&a), a.as_u64vec4());
    assert_eq!(GVec::as_usizevec(&a), a.as_usizevec4());
    assert_eq!(IntVec::checked_add(a, b), a.checked_add(b));
    assert_eq!(IntVec::checked_sub(a, b), a.checked_sub(b));
    assert_eq!(IntVec::checked_mul(a, b), a.checked_mul(b));
    assert_eq!(IntVec::checked_div(a, b), a.checked_div(b));
    assert_eq!(IntVec::wrapping_add(a, b), a.wrapping_add(b));
    assert_eq!(IntVec::wrapping_sub(a, b), a.wrapping_sub(b));
    assert_eq!(IntVec::wrapping_mul(a, b), a.wrapping_mul(b));
    assert_eq!(IntVec::wrapping_div(a, b), a.wrapping_div(b));
    assert_eq!(IntVec::saturating_add(a, b), a.saturating_add(b));
    assert_eq!(IntVec::saturating_sub(a, b), a.saturating_sub(b));
    assert_eq!(IntVec::saturating_mul(a, b), a.saturating_mul(b));
    assert_eq!(IntVec::saturating_div(a, b), a.saturating_div(b));
    assert_eq!(IntVec::manhattan_distance(a, b), a.manhattan_distance(b));
    assert_eq!(IntVec::checked_manhattan_distance(a, b), a.checked_manhattan_distance(b));
    assert_eq!(IntVec::chebyshev_distance(a, b), a.chebyshev_distance(b));
    assert_eq!(GVec4::with_x(a, 1), a.with_x(1));
    assert_eq!(GVec4::with_y(a, 1), a.with_y(1));
    assert_eq!(GVec4::with_z(a, 1), a.with_z(1));
    assert_eq!(GVec4::with_w(a, 1), a.with_w(1));
    assert_eq!(GVec4::truncate(a), a.truncate());
    assert_eq!(SignedVec::abs(a), a.abs());
    assert_eq!(SignedVec::signum(a), a.signum());
    assert_eq!(SignedVec::is_negative_bitmask(a), a.is_negative_bitmask());
    assert_eq!(SignedVec::div_euclid(a, b), a.div_euclid(b));
    assert_eq!(SignedVec::rem_euclid(a, b), a.rem_euclid(b));
}

#[test]
fn i8vec4_signed() {
    let a = I8Vec4::new(3, -4, 5, -6);
    let b = I8Vec4::new(2, 7, -1, 8);
    assert_eq!(SignedVec::abs(a), I8Vec4::new(3, 4, 5, 6));
    assert_eq!(SignedVec::signum(a), I8Vec4::new(1, -1, 1, -1));
    assert_eq!(SignedVec::signum(I8Vec4::ZERO), I8Vec4::ZERO);
    assert_eq!(SignedVec::is_negative_bitmask(a), 10);
    assert_eq!(SignedVec::is_negative_bitmask(I8Vec4::NEG_ONE), 15);
    assert_eq!(SignedVec::is_negative_bitmask(I8Vec4::ZERO), 0);
    assert_eq!(SignedVec::distance_squared(I8Vec4::new(1, -2, 3, -4), I8Vec4::new(2, 1, 1, -2)), 18);
    assert_eq!(SignedVec::div_euclid(I8Vec4::new(-7, 7, -7, 7), I8Vec4::new(2, -2, -2, 2)), I8Vec4::new(-4, -3, 4, 3));
    assert_eq!(SignedVec::rem_euclid(I8Vec4::new(-7, 7, -7, 7), I8Vec4::new(2, -2, -2, 2)), I8Vec4::new(1, 1, 1, 1));
}
