use glam::{BVec2, BVec3, BVec3A, BVec4, BVec4A};
use glam_traits::{BVec, GBVec, GBVec3, GBVec4};

#[test]
fn bvec2_as_bvec() {
    assert_eq!(<BVec2 as BVec>::all_false(), BVec2::FALSE);
    assert_eq!(<BVec2 as BVec>::all_true(), BVec2::TRUE);
    assert_eq!(<BVec2 as BVec>::DIM, 2);
    assert_eq!(<BVec2 as BVec>::splat(true), BVec2::new(true, true));
    assert_eq!(<BVec2 as BVec>::splat(false), BVec2::new(false, false));
    let v = BVec2::new(true, false);
    assert_eq!(<BVec2 as BVec>::from_array([true, false]), v);
    assert_eq!(BVec::bitmask(v), 1);
    assert_eq!(BVec::bitmask(BVec2::TRUE), 3);
    assert_eq!(BVec::bitmask(BVec2::FALSE), 0);
    assert!(BVec::any(v));
    assert!(!BVec::all(v));
    assert!(!BVec::any(BVec2::FALSE));
    assert!(BVec::all(BVec2::TRUE));
    assert!(BVec::any(BVec2::new(false, true)));
    assert!(!BVec::all(BVec2::new(true, false)));
    assert_eq!(BVec::test(&v, 0), true);
    assert_eq!(BVec::test(&v, 1), false);
    let mut w = v;
    BVec::set(&mut w, 0, false);
    assert_eq!(w, BVec2::new(false, false));
    BVec::set(&mut w, 1, true);
    assert_eq!(w, BVec2::new(false, true));
}

#[test]
fn bvec2_as_gbvec() {
    assert_eq!(<BVec2 as GBVec>::all_false(), BVec2::FALSE);
    assert_eq!(<BVec2 as GBVec>::all_true(), BVec2::TRUE);
    assert_eq!(<BVec2 as GBVec>::DIM, 2);
    assert_eq!(<BVec2 as GBVec>::splat(true), BVec2::new(true, true));
    assert_eq!(<BVec2 as GBVec>::splat(false), BVec2::new(false, false));
    let v = BVec2::new(true, false);
    assert_eq!(GBVec::bitmask(v), 1);
    assert_eq!(GBVec::bitmask(BVec2::TRUE), 3);
    assert_eq!(GBVec::bitmask(BVec2::FALSE), 0);
    assert!(GBVec::any(v));
    assert!(!GBVec::all(v));
    assert!(!GBVec::any(BVec2::FALSE));
    assert!(GBVec::all(BVec2::TRUE));
    assert!(GBVec::any(BVec2::new(false, true)));
    assert!(!GBVec::all(BVec2::new(true, false)));
    assert_eq!(GBVec::test(&v, 0), true);
    assert_eq!(GBVec::test(&v, 1), false);
    let mut w = v;
    GBVec::set(&mut w, 0, false);
    assert_eq!(w, BVec2::new(false, false));
    GBVec::set(&mut w, 1, true);
    assert_eq!(w, BVec2::new(false, true));
}

#[test]
fn bvec3_as_bvec() {
    assert_eq!(<BVec3 as BVec>::all_false(), BVec3::FALSE);
    assert_eq!(<BVec3 as BVec>::all_true(), BVec3::TRUE);
    assert_eq!(<BVec3 as BVec>::DIM, 3);
    assert_eq!(<BVec3 as BVec>::splat(true), BVec3::new(true, true, true));
    assert_eq!(<BVec3 as BVec>::splat(false), BVec3::new(false, false, false));
    let v = BVec3::new(true, false, true);
    assert_eq!(<BVec3 as BVec>::from_array([true, false, true]), v);
    assert_eq!(BVec::bitmask(v), 5);
    assert_eq!(BVec::bitmask(BVec3::TRUE), 7);
    assert_eq!(BVec::bitmask(BVec3::FALSE), 0);
    assert!(BVec::any(v));
    assert!(!BVec::all(v));
    assert!(!BVec::any(BVec3::FALSE));
    assert!(BVec::all(BVec3::TRUE));
    assert!(BVec::any(BVec3::new(false, false, true)));
    assert!(!BVec::all(BVec3::new(true, true, false)));
    assert_eq!(BVec::test(&v, 0), true);
    assert_eq!(BVec::test(&v, 1), false);
    assert_eq!(BVec::test(&v, 2), true);
    let mut w = v;
    BVec::set(&mut w, 0, false);
    assert_eq!(w, BVec3::new(false, false, true));
    BVec::set(&mut w, 1, true);
    assert_eq!(w, BVec3::new(false, true, true));
    BVec::set(&mut w, 2, false);
    assert_eq!(w, BVec3::new(false, true, false));
}

#[test]
fn bvec3_as_gbvec() {
    assert_eq!(<BVec3 as GBVec>::all_false(), BVec3::FALSE);
    assert_eq!(<BVec3 as GBVec>::all_true(), BVec3::TRUE);
    assert_eq!(<BVec3 as GBVec>::DIM, 3);
    assert_eq!(<BVec3 as GBVec>::splat(true), BVec3::new(true, true, true));
    assert_eq!(<BVec3 as GBVec>::splat(false), BVec3::new(false, false, false));
    let v = BVec3::new(true, false, true);
    assert_eq!(GBVec::bitmask(v), 5);
    assert_eq!(GBVec::bitmask(BVec3::TRUE), 7);
    assert_eq!(GBVec::bitmask(BVec3::FALSE), 0);
    assert!(GBVec::any(v));
    assert!(!GBVec::all(v));
    assert!(!GBVec::any(BVec3::FALSE));
    assert!(GBVec::all(BVec3::TRUE));
    assert!(GBVec::any(BVec3::new(false, false, true)));
    assert!(!GBVec::all(BVec3::new(true, true, false)));
    assert_eq!(GBVec::test(&v, 0), true);
    assert_eq!(GBVec::test(&v, 1), false);
    assert_eq!(GBVec::test(&v, 2), true);
    let mut w = v;
    GBVec::set(&mut w, 0, false);
    assert_eq!(w, BVec3::new(false, false, true));
    GBVec::set(&mut w, 1, true);
    assert_eq!(w, BVec3::new(false, true, true));
    GBVec::set(&mut w, 2, false);
    assert_eq!(w, BVec3::new(false, true, false));
}

#[test]
fn bvec3_as_gbvec3() {
    assert_eq!(<BVec3 as GBVec3>::all_false(), BVec3::FALSE);
    assert_eq!(<BVec3 as GBVec3>::all_true(), BVec3::TRUE);
    assert_eq!(<BVec3 as GBVec3>::splat(true), BVec3::new(true, true, true));
    assert_eq!(<BVec3 as GBVec3>::splat(false), BVec3::new(false, false, false));
    let v = BVec3::new(true, false, true);
    assert_eq!(<BVec3 as GBVec3>::new(true, false, true), v);
    assert_eq!(GBVec3::bitmask(v), 5);
    assert_eq!(GBVec3::bitmask(BVec3::TRUE), 7);
    assert_eq!(GBVec3::bitmask(BVec3::FALSE), 0);
    assert!(GBVec3::any(v));
    assert!(!GBVec3::all(v));
    assert!(!GBVec3::any(BVec3::FALSE));
    assert!(GBVec3::all(BVec3::TRUE));
    assert!(GBVec3::any(BVec3::new(false, false, true)));
    assert!(!GBVec3::all(BVec3::new(true, true, false)));
    assert_eq!(GBVec3::test(&v, 0), true);
    assert_eq!(GBVec3::test(&v, 1), false);
    assert_eq!(GBVec3::test(&v, 2), true);
    let mut w = v;
    GBVec3::set(&mut w, 0, false);
    assert_eq!(w, BVec3::new(false, false, true));
    GBVec3::set(&mut w, 1, true);
    assert_eq!(w, BVec3::new(false, true, true));
    GBVec3::set(&mut w, 2, false);
    assert_eq!(w, BVec3::new(false, true, false));
}

#[test]
fn bvec3a_as_bvec() {
    assert_eq!(<BVec3A as BVec>::all_false(), BVec3A::FALSE);
    assert_eq!(<BVec3A as BVec>::all_true(), BVec3A::TRUE);
    assert_eq!(<BVec3A as BVec>::DIM, 3);
    assert_eq!(<BVec3A as BVec>::splat(true), BVec3A::new(true, true, true));
    assert_eq!(<BVec3A as BVec>::splat(false), BVec3A::new(false, false, false));
    let v = BVec3A::new(true, false, true);
    assert_eq!(<BVec3A as BVec>::from_array([true, false, true]), v);
    assert_eq!(BVec::bitmask(v), 5);
    assert_eq!(BVec::bitmask(BVec3A::TRUE), 7);
    assert_eq!(BVec::bitmask(BVec3A::FALSE), 0);
    assert!(BVec::any(v));
    assert!(!BVec::all(v));
    assert!(!BVec::any(BVec3A::FALSE));
    assert!(BVec::all(BVec3A::TRUE));
    assert!(BVec::any(BVec3A::new(false, false, true)));
    assert!(!BVec::all(BVec3A::new(true, true, false)));
    assert_eq!(BVec::test(&v, 0), true);
    assert_eq!(BVec::test(&v, 1), false);
    assert_eq!(BVec::test(&v, 2), true);
    let mut w = v;
    BVec::set(&mut w, 0, false);
    assert_eq!(w, BVec3A::new(false, false, true));
    BVec::set(&mut w, 1, true);
    assert_eq!(w, BVec3A::new(false, true, true));
    BVec::set(&mut w, 2, false);
    assert_eq!(w, BVec3A::new(false, true, false));
}

#[test]
fn bvec3a_as_gbvec() {
    assert_eq!(<BVec3A as GBVec>::all_false(), BVec3A::FALSE);
    assert_eq!(<BVec3A as GBVec>::all_true(), BVec3A::TRUE);
    assert_eq!(<BVec3A as GBVec>::DIM, 3);
    assert_eq!(<BVec3A as GBVec>::splat(true), BVec3A::new(true, true, true));
    assert_eq!(<BVec3A as GBVec>::splat(false), BVec3A::new(false, false, false));
    let v = BVec3A::new(true, false, true);
    assert_eq!(GBVec::bitmask(v), 5);
    assert_eq!(GBVec::bitmask(BVec3A::TRUE), 7);
    assert_eq!(GBVec::bitmask(BVec3A::FALSE), 0);
    assert!(GBVec::any(v));
    assert!(!GBVec::all(v));
    assert!(!GBVec::any(BVec3A::FALSE));
    assert!(GBVec::all(BVec3A::TRUE));
    assert!(GBVec::any(BVec3A::new(false, false, true)));
    assert!(!GBVec::all(BVec3A::new(true, true, false)));
    assert_eq!(GBVec::test(&v, 0), true);
    assert_eq!(GBVec::test(&v, 1), false);
    assert_eq!(GBVec::test(&v, 2), true);
    let mut w = v;
    GBVec::set(&mut w, 0, false);
    assert_eq!(w, BVec3A::new(false, false, true));
    GBVec::set(&mut w, 1, true);
    assert_eq!(w, BVec3A::new(false, true, true));
    GBVec::set(&mut w, 2, false);
    assert_eq!(w, BVec3A::new(false, true, false));
}

#[test]
fn bvec3a_as_gbvec3() {
    assert_eq!(<BVec3A as GBVec3>::all_false(), BVec3A::FALSE);
    assert_eq!(<BVec3A as GBVec3>::all_true(), BVec3A::TRUE);
    assert_eq!(<BVec3A as GBVec3>::splat(true), BVec3A::new(true, true, true));
    assert_eq!(<BVec3A as GBVec3>::splat(false), BVec3A::new(false, false, false));
    let v = BVec3A::new(true, false, true);
    assert_eq!(<BVec3A as GBVec3>::new(true, false, true), v);
    assert_eq!(GBVec3::bitmask(v), 5);
    assert_eq!(GBVec3::bitmask(BVec3A::TRUE), 7);
    assert_eq!(GBVec3::bitmask(BVec3A::FALSE), 0);
    assert!(GBVec3::any(v));
    assert!(!GBVec3::all(v));
    assert!(!GBVec3::any(BVec3A::FALSE));
    assert!(GBVec3::all(BVec3A::TRUE));
    assert!(GBVec3::any(BVec3A::new(false, false, true)));
    assert!(!GBVec3::all(BVec3A::new(true, true, false)));
    assert_eq!(GBVec3::test(&v, 0), true);
    assert_eq!(GBVec3::test(&v, 1), false);
    assert_eq!(GBVec3::test(&v, 2), true);
    let mut w = v;
    GBVec3::set(&mut w, 0, false);
    assert_eq!(w, BVec3A::new(false, false, true));
    GBVec3::set(&mut w, 1, true);
    assert_eq!(w, BVec3A::new(false, true, true));
    GBVec3::set(&mut w, 2, false);
    assert_eq!(w, BVec3A::new(false, true, false));
}

#[test]
fn bvec4_as_bvec() {
    assert_eq!(<BVec4 as BVec>::all_false(), BVec4::FALSE);
    assert_eq!(<BVec4 as BVec>::all_true(), BVec4::TRUE);
    assert_eq!(<BVec4 as BVec>::DIM, 4);
    assert_eq!(<BVec4 as BVec>::splat(true), BVec4::new(true, true, true, true));
    assert_eq!(<BVec4 as BVec>::splat(false), BVec4::new(false, false, false, false));
    let v = BVec4::new(true, false, true, true);
    assert_eq!(<BVec4 as BVec>::from_array([true, false, true, true]), v);
    assert_eq!(BVec::bitmask(v), 13);
    assert_eq!(BVec::bitmask(BVec4::TRUE), 15);
    assert_eq!(BVec::bitmask(BVec4::FALSE), 0);
    assert!(BVec::any(v));
    assert!(!BVec::all(v));
    assert!(!BVec::any(BVec4::FALSE));
    assert!(BVec::all(BVec4::TRUE));
    assert!(BVec::any(BVec4::new(false, false, false, true)));
    assert!(!BVec::all(BVec4::new(true, true, true, false)));
    assert_eq!(BVec::test(&v, 0), true);
    assert_eq!(BVec::test(&v, 1), false);
    assert_eq!(BVec::test(&v, 2), true);
    assert_eq!(BVec::test(&v, 3), true);
    let mut w = v;
    BVec::set(&mut w, 0, false);
    assert_eq!(w, BVec4::new(false, false, true, true));
    BVec::set(&mut w, 1, true);
    assert_eq!(w, BVec4::new(false, true, true, true));
    BVec::set(&mut w, 2, false);
    assert_eq!(w, BVec4::new(false, true, false, true));
    BVec::set(&mut w, 3, false);
    assert_eq!(w, BVec4::new(false, true, false, false));
}

#[test]
fn bvec4_as_gbvec() {
    assert_eq!(<BVec4 as GBVec>::all_false(), BVec4::FALSE);
    assert_eq!(<BVec4 as GBVec>::all_true(), BVec4::TRUE);
    assert_eq!(<BVec4 as GBVec>::DIM, 4);
    assert_eq!(<BVec4 as GBVec>::splat(true), BVec4::new(true, true, true, true));
    assert_eq!(<BVec4 as GBVec>::splat(false), BVec4::new(false, false, false, false));
    let v = BVec4::new(true, false, true, true);
    assert_eq!(GBVec::bitmask(v), 13);
    assert_eq!(GBVec::bitmask(BVec4::TRUE), 15);
    assert_eq!(GBVec::bitmask(BVec4::FALSE), 0);
    assert!(GBVec::any(v));
    assert!(!GBVec::all(v));
    assert!(!GBVec::any(BVec4::FALSE));
    assert!(GBVec::all(BVec4::TRUE));
    assert!(GBVec::any(BVec4::new(false, false, false, true)));
    assert!(!GBVec::all(BVec4::new(true, true, true, false)));
    assert_eq!(GBVec::test(&v, 0), true);
    assert_eq!(GBVec::test(&v, 1), false);
    assert_eq!(GBVec::test(&v, 2), true);
    assert_eq!(GBVec::test(&v, 3), true);
    let mut w = v;
    GBVec::set(&mut w, 0, false);
    assert_eq!(w, BVec4::new(false, false, true, true));
    GBVec::set(&mut w, 1, true);
    assert_eq!(w, BVec4::new(false, true, true, true));
    GBVec::set(&mut w, 2, false);
    assert_eq!(w, BVec4::new(false, true, false, true));
    GBVec::set(&mut w, 3, false);
    assert_eq!(w, BVec4::new(false, true, false, false));
}

#[test]
fn bvec4_as_gbvec4() {
    assert_eq!(<BVec4 as GBVec4>::all_false(), BVec4::FALSE);
    assert_eq!(<BVec4 as GBVec4>::all_true(), BVec4::TRUE);
    assert_eq!(<BVec4 as GBVec4>::splat(true), BVec4::new(true, true, true, true));
    assert_eq!(<BVec4 as GBVec4>::splat(false), BVec4::new(false, false, false, false));
    let v = BVec4::new(true, false, true, true);
    assert_eq!(<BVec4 as GBVec4>::from_array([true, false, true, true]), v);
    assert_eq!(<BVec4 as GBVec4>::new(true, false, true, true), v);
    assert_eq!(GBVec4::bitmask(v), 13);
    assert_eq!(GBVec4::bitmask(BVec4::TRUE), 15);
    assert_eq!(GBVec4::bitmask(BVec4::FALSE), 0);
    assert!(GBVec4::any(v));
    assert!(!GBVec4::all(v));
    assert!(!GBVec4::any(BVec4::FALSE));
    assert!(GBVec4::all(BVec4::TRUE));
    assert!(GBVec4::any(BVec4::new(false, false, false, true)));
    assert!(!GBVec4::all(BVec4::new(true, true, true, false)));
    assert_eq!(GBVec4::test(&v, 0), true);
    assert_eq!(GBVec4::test(&v, 1), false);
    assert_eq!(GBVec4::test(&v, 2), true);
    assert_eq!(GBVec4::test(&v, 3), true);
    let mut w = v;
    GBVec4::set(&mut w, 0, false);
    assert_eq!(w, BVec4::new(false, false, true, true));
    GBVec4::set(&mut w, 1, true);
    assert_eq!(w, BVec4::new(false, true, true, true));
    GBVec4::set(&mut w, 2, false);
    assert_eq!(w, BVec4::new(false, true, false, true));
    GBVec4::set(&mut w, 3, false);
    assert_eq!(w, BVec4::new(false, true, false, false));
}

#[test]
fn bvec4a_as_bvec() {
    assert_eq!(<BVec4A as BVec>::all_false(), BVec4A::FALSE);
    assert_eq!(<BVec4A as BVec>::all_true(), BVec4A::TRUE);
    assert_eq!(<BVec4A as BVec>::DIM, 4);
    assert_eq!(<BVec4A as BVec>::splat(true), BVec4A::new(true, true, true, true));
    assert_eq!(<BVec4A as BVec>::splat(false), BVec4A::new(false, false, false, false));
    let v = BVec4A::new(true, false, true, true);
    assert_eq!(<BVec4A as BVec>::from_array([true, false, true, true]), v);
    assert_eq!(BVec::bitmask(v), 13);
    assert_eq!(BVec::bitmask(BVec4A::TRUE), 15);
    assert_eq!(BVec::bitmask(BVec4A::FALSE), 0);
    assert!(BVec::any(v));
    assert!(!BVec::all(v));
    assert!(!BVec::any(BVec4A::FALSE));
    assert!(BVec::all(BVec4A::TRUE));
    assert!(BVec::any(BVec4A::new(false, false, false, true)));
    assert!(!BVec::all(BVec4A::new(true, true, true, false)));
    assert_eq!(BVec::test(&v, 0), true);
    assert_eq!(BVec::test(&v, 1), false);
    assert_eq!(BVec::test(&v, 2), true);
    assert_eq!(BVec::test(&v, 3), true);
    let mut w = v;
    BVec::set(&mut w, 0, false);
    assert_eq!(w, BVec4A::new(false, false, true, true));
    BVec::set(&mut w, 1, true);
    assert_eq!(w, BVec4A::new(false, true, true, true));
    BVec::set(&mut w, 2, false);
    assert_eq!(w, BVec4A::new(false, true, false, true));
    BVec::set(&mut w, 3, false);
    assert_eq!(w, BVec4A::new(false, true, false, false));
}

#[test]
fn bvec4a_as_gbvec() {
    assert_eq!(<BVec4A as GBVec>::all_false(), BVec4A::FALSE);
    assert_eq!(<BVec4A as GBVec>::all_true(), BVec4A::TRUE);
    assert_eq!(<BVec4A as GBVec>::DIM, 4);
    assert_eq!(<BVec4A as GBVec>::splat(true), BVec4A::new(true, true, true, true));
    assert_eq!(<BVec4A as GBVec>::splat(false), BVec4A::new(false, false, false, false));
    let v = BVec4A::new(true, false, true, true);
    assert_eq!(GBVec::bitmask(v), 13);
    assert_eq!(GBVec::bitmask(BVec4A::TRUE), 15);
    assert_eq!(GBVec::bitmask(BVec4A::FALSE), 0);
    assert!(GBVec::any(v));
    assert!(!GBVec::all(v));
    assert!(!GBVec::any(BVec4A::FALSE));
    assert!(GBVec::all(BVec4A::TRUE));
    assert!(GBVec::any(BVec4A::new(false, false, false, true)));
    assert!(!GBVec::all(BVec4A::new(true, true, true, false)));
    assert_eq!(GBVec::test(&v, 0), true);
    assert_eq!(GBVec::test(&v, 1), false);
    assert_eq!(GBVec::test(&v, 2), true);
    assert_eq!(GBVec::test(&v, 3), true);
    let mut w = v;
    GBVec::set(&mut w, 0, false);
    assert_eq!(w, BVec4A::new(false, false, true, true));
    GBVec::set(&mut w, 1, true);
    assert_eq!(w, BVec4A::new(false, true, true, true));
    GBVec::set(&mut w, 2, false);
    assert_eq!(w, BVec4A::new(false, true, false, true));
    GBVec::set(&mut w, 3, false);
    assert_eq!(w, BVec4A::new(false, true, false, false));
}

#[test]
fn bvec4a_as_gbvec4() {
    assert_eq!(<BVec4A as GBVec4>::all_false(), BVec4A::FALSE);
    assert_eq!(<BVec4A as GBVec4>::all_true(), BVec4A::TRUE);
    assert_eq!(<BVec4A as GBVec4>::splat(true), BVec4A::new(true, true, true, true));
    assert_eq!(<BVec4A as GBVec4>::splat(false), BVec4A::new(false, false, false, false));
    let v = BVec4A::new(true, false, true, true);
    assert_eq!(<BVec4A as GBVec4>::from_array([true, false, true, true]), v);
    assert_eq!(<BVec4A as GBVec4>::new(true, false, true, true), v);
    assert_eq!(GBVec4::bitmask(v), 13);
    assert_eq!(GBVec4::bitmask(BVec4A::TRUE), 15);
    assert_eq!(GBVec4::bitmask(BVec4A::FALSE), 0);
    assert!(GBVec4::any(v));
    assert!(!GBVec4::all(v));
    assert!(!GBVec4::any(BVec4A::FALSE));
    assert!(GBVec4::all(BVec4A::TRUE));
    assert!(GBVec4::any(BVec4A::new(false, false, false, true)));
    assert!(!GBVec4::all(BVec4A::new(true, true, true, false)));
    assert_eq!(GBVec4::test(&v, 0), true);
    assert_eq!(GBVec4::test(&v, 1), false);
    assert_eq!(GBVec4::test(&v, 2), true);
    assert_eq!(GBVec4::test(&v, 3), true);
    let mut w = v;
    GBVec4::set(&mut w, 0, false);
    assert_eq!(w, BVec4A::new(false, false, true, true));
    GBVec4::set(&mut w, 1, true);
    assert_eq!(w, BVec4A::new(false, true, true, true));
    GBVec4::set(&mut w, 2, false);
    assert_eq!(w, BVec4A::new(false, true, false, true));
    GBVec4::set(&mut w, 3, false);
    assert_eq!(w, BVec4A::new(false, true, false, false));
}
