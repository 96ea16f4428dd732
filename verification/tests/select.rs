use glam::{I16Vec2, IVec3, U8Vec4};
use glam_traits::select;

#[test]
fn select_takes_each_lane_from_the_chosen_vector() {
    let vecs = [IVec3::new(1, 2, 3), IVec3::new(10, 20, 30), IVec3::new(100, 200, 300)];
    assert_eq!(select(&vecs, &[2, 0, 1]), IVec3::new(100, 2, 30));
    assert_eq!(select(&vecs, &[0, 0, 0]), vecs[0]);
    assert_eq!(select(&vecs, &[1, 1, 1]), vecs[1]);
    assert_eq!(select(&vecs, &[2, 2, 2]), vecs[2]);
}

#[test]
fn select_reads_only_the_first_indices() {
    let vecs = [I16Vec2::new(-1, -2), I16Vec2::new(7, 8)];
    assert_eq!(select(&vecs, &[1, 0, 5, 9]), I16Vec2::new(7, -2));
}

#[test]
fn select_from_one_vector_gives_it_back() {
    let vecs = [U8Vec4::new(9, 8, 7, 6)];
    assert_eq!(select(&vecs, &[0, 0, 0, 0]), U8Vec4::new(9, 8, 7, 6));
}

#[test]
fn select_of_four_lanes() {
    let vecs = [
        U8Vec4::new(1, 2, 3, 4),
        U8Vec4::new(11, 12, 13, 14),
        U8Vec4::new(21, 22, 23, 24),
        U8Vec4::new(31, 32, 33, 34),
    ];
    assert_eq!(select(&vecs, &[3, 2, 1, 0]), U8Vec4::new(31, 22, 13, 4));
}
