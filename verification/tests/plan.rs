use glam_traits::codegen::{
    decimal, impl_dims, mask_of, mask_output, masks, plan, tier_scalars, typed_output, vec_name,
    vec_output, vec_path, Binding, Dim, Mask, Output, Render, Scalar, Tier, Value,
};

fn shown(value: &Value) -> String {
    match value {
        Value::Flag(v) => format!("{}", v),
        Value::Number(v) => format!("{}", v),
        Value::Text(v) => format!("{:?}", v),
    }
}

fn context(bindings: &[Binding]) -> String {
    let parts: Vec<String> =
        bindings.iter().map(|b| format!("{}={}", b.key, shown(&b.value))).collect();
    parts.join(" ")
}

fn lines(output: &Output) -> Vec<String> {
    output.renders.iter().map(|r: &Render| format!("{}: {}", r.template, context(&r.context))).collect()
}

#[test]
fn plan_has_every_file_in_order() {
    let paths: Vec<String> = plan().into_iter().map(|o| o.path).collect();
    let expected = vec![
        "src/bvec/gbvec.rs",
        "src/bvec/gbvec3.rs",
        "src/bvec/gbvec4.rs",
        "src/vec/gen/gen_vec.rs",
        "src/vec/signed/signed_vec.rs",
        "src/vec/float/float_vec.rs",
        "src/vec/int/int_vec.rs",
        "src/vec/sint/sint_vec.rs",
        "src/vec/uint/uint_vec.rs",
        "src/vec/gen/gen_vec2.rs",
        "src/vec/signed/signed_vec2.rs",
        "src/vec/float/float_vec2.rs",
        "src/vec/int/int_vec2.rs",
        "src/vec/sint/sint_vec2.rs",
        "src/vec/uint/uint_vec2.rs",
        "src/vec/gen/gen_vec3.rs",
        "src/vec/signed/signed_vec3.rs",
        "src/vec/float/float_vec3.rs",
        "src/vec/int/int_vec3.rs",
        "src/vec/sint/sint_vec3.rs",
        "src/vec/uint/uint_vec3.rs",
        "src/vec/gen/gen_vec4.rs",
        "src/vec/signed/signed_vec4.rs",
        "src/vec/float/float_vec4.rs",
        "src/vec/int/int_vec4.rs",
        "src/vec/sint/sint_vec4.rs",
        "src/vec/uint/uint_vec4.rs",
        "src/vec/typed/i16_vec.rs",
        "src/vec/typed/u16_vec.rs",
        "src/vec/typed/i32_vec.rs",
        "src/vec/typed/u32_vec.rs",
        "src/vec/typed/i64_vec.rs",
        "src/vec/typed/u64_vec.rs",
        "src/vec/typed/f32_vec.rs",
        "src/vec/typed/f64_vec.rs",
    ];
    assert_eq!(paths, expected);
}

#[test]
fn plan_counts_the_renderings_of_each_file() {
    let counts: Vec<usize> = plan().iter().map(|o| o.renders.len()).collect();
    let expected = vec![
        6, 3, 3, 26, 17, 8, 19, 10, 10, 9, 6, 3, 7, 4, 4, 10, 7, 4, 7, 4, 4, 9, 6, 3, 7, 4, 4, 4,
        4, 4, 4, 4, 4, 5, 4,
    ];
    assert_eq!(counts, expected);
}

#[test]
fn mask_file_of_any_length() {
    let output = mask_output(None);
    assert_eq!(output.path, "src/bvec/gbvec.rs");
    assert_eq!(
        lines(&output),
        vec![
            "bvec.rs.tera: ",
            "bvec_impl.rs.tera: impl_t=\"BVec2\" impl_dim=2",
            "bvec_impl.rs.tera: impl_t=\"BVec3\" impl_dim=3",
            "bvec_impl.rs.tera: impl_t=\"BVec3A\" impl_dim=3",
            "bvec_impl.rs.tera: impl_t=\"BVec4\" impl_dim=4",
            "bvec_impl.rs.tera: impl_t=\"BVec4A\" impl_dim=4",
        ]
    );
}

#[test]
fn mask_file_of_length_four() {
    let output = mask_output(Some(Dim::Four));
    assert_eq!(output.path, "src/bvec/gbvec4.rs");
    assert_eq!(
        lines(&output),
        vec![
            "bvec.rs.tera: dim=4",
            "bvec_impl.rs.tera: dim=4 impl_t=\"BVec4\" impl_dim=4",
            "bvec_impl.rs.tera: dim=4 impl_t=\"BVec4A\" impl_dim=4",
        ]
    );
}

#[test]
fn float_file_of_any_length_has_vec3a_after_vec3() {
    let output = vec_output(Tier::Float, None);
    assert_eq!(output.path, "src/vec/float/float_vec.rs");
    let flags = "is_signed=true is_float=true is_int=false is_unsigned=false";
    let expected = vec![
        format!("vec.rs.tera: {}", flags),
        format!("vec_impl.rs.tera: {} impl_t=\"Vec2\" impl_scalar_t=\"f32\" impl_dim=2 impl_bvec_t=\"BVec2\" impl_minus_one_t=\"Vec1\" impl_plus_one_t=\"Vec3\"", flags),
        format!("vec_impl.rs.tera: {} impl_t=\"Vec3\" impl_scalar_t=\"f32\" impl_dim=3 impl_bvec_t=\"BVec3\" impl_minus_one_t=\"Vec2\" impl_plus_one_t=\"Vec4\"", flags),
        format!("vec_impl.rs.tera: {} impl_t=\"Vec3A\" impl_scalar_t=\"f32\" impl_dim=3 impl_bvec_t=\"BVec3A\" impl_minus_one_t=\"Vec2\" impl_plus_one_t=\"Vec4\"", flags),
        format!("vec_impl.rs.tera: {} impl_t=\"Vec4\" impl_scalar_t=\"f32\" impl_dim=4 impl_bvec_t=\"BVec4A\" impl_minus_one_t=\"Vec3\" impl_plus_one_t=\"Vec5\"", flags),
        format!("vec_impl.rs.tera: {} impl_t=\"DVec2\" impl_scalar_t=\"f64\" impl_dim=2 impl_bvec_t=\"BVec2\" impl_minus_one_t=\"DVec1\" impl_plus_one_t=\"DVec3\"", flags),
        format!("vec_impl.rs.tera: {} impl_t=\"DVec3\" impl_scalar_t=\"f64\" impl_dim=3 impl_bvec_t=\"BVec3\" impl_minus_one_t=\"DVec2\" impl_plus_one_t=\"DVec4\"", flags),
        format!("vec_impl.rs.tera: {} impl_t=\"DVec4\" impl_scalar_t=\"f64\" impl_dim=4 impl_bvec_t=\"BVec4\" impl_minus_one_t=\"DVec3\" impl_plus_one_t=\"DVec5\"", flags),
    ];
    assert_eq!(lines(&output), expected);
}

#[test]
fn unsigned_file_of_length_three() {
    let output = vec_output(Tier::UInt, Some(Dim::Three));
    assert_eq!(output.path, "src/vec/uint/uint_vec3.rs");
    let base = "is_signed=false is_float=false is_int=true is_unsigned=true dim=3";
    let expected = vec![
        format!("vec.rs.tera: {}", base),
        format!("vec_impl.rs.tera: {} impl_t=\"U16Vec3\" impl_scalar_t=\"u16\" impl_dim=3 impl_bvec_t=\"BVec3\" impl_minus_one_t=\"U16Vec2\" impl_plus_one_t=\"U16Vec4\"", base),
        format!("vec_impl.rs.tera: {} impl_t=\"UVec3\" impl_scalar_t=\"u32\" impl_dim=3 impl_bvec_t=\"BVec3\" impl_minus_one_t=\"UVec2\" impl_plus_one_t=\"UVec4\"", base),
        format!("vec_impl.rs.tera: {} impl_t=\"U64Vec3\" impl_scalar_t=\"u64\" impl_dim=3 impl_bvec_t=\"BVec3\" impl_minus_one_t=\"U64Vec2\" impl_plus_one_t=\"U64Vec4\"", base),
    ];
    assert_eq!(lines(&output), expected);
}

#[test]
fn typed_file_of_f32_ends_with_vec3a() {
    let output = typed_output(Scalar::F32);
    assert_eq!(output.path, "src/vec/typed/f32_vec.rs");
    assert_eq!(
        lines(&output),
        vec![
            "vec.rs.tera: strong_t=\"f32\"",
            "vec_impl.rs.tera: strong_t=\"f32\" impl_t=\"Vec2\" impl_dim=2 impl_bvec_t=\"BVec2\"",
            "vec_impl.rs.tera: strong_t=\"f32\" impl_t=\"Vec3\" impl_dim=3 impl_bvec_t=\"BVec3\"",
            "vec_impl.rs.tera: strong_t=\"f32\" impl_t=\"Vec4\" impl_dim=4 impl_bvec_t=\"BVec4A\"",
            "vec_impl.rs.tera: strong_t=\"f32\" impl_t=\"Vec3A\" impl_dim=3 impl_bvec_t=\"BVec3A\"",
        ]
    );
}

#[test]
fn typed_file_of_i32() {
    let output = typed_output(Scalar::I32);
    assert_eq!(output.path, "src/vec/typed/i32_vec.rs");
    assert_eq!(
        lines(&output),
        vec![
            "vec.rs.tera: strong_t=\"i32\"",
            "vec_impl.rs.tera: strong_t=\"i32\" impl_t=\"IVec2\" impl_dim=2 impl_bvec_t=\"BVec2\"",
            "vec_impl.rs.tera: strong_t=\"i32\" impl_t=\"IVec3\" impl_dim=3 impl_bvec_t=\"BVec3\"",
            "vec_impl.rs.tera: strong_t=\"i32\" impl_t=\"IVec4\" impl_dim=4 impl_bvec_t=\"BVec4\"",
        ]
    );
}

#[test]
fn names_and_tables() {
    assert_eq!(decimal(0), "0");
    assert_eq!(decimal(7), "7");
    assert_eq!(decimal(10), "10");
    assert_eq!(decimal(99), "99");
    assert_eq!(decimal(100), "100");
    assert_eq!(decimal(255), "255");
    assert_eq!(vec_name(Scalar::I32, 3), "IVec3");
    assert_eq!(vec_name(Scalar::F32, 4), "Vec4");
    assert_eq!(vec_name(Scalar::F64, 2), "DVec2");
    assert_eq!(vec_name(Scalar::U64, 12), "U64Vec12");
    assert_eq!(vec_path(Tier::SInt, None), "src/vec/sint/sint_vec.rs");
    assert_eq!(vec_path(Tier::Gen, Some(Dim::Two)), "src/vec/gen/gen_vec2.rs");
    assert_eq!(mask_of(Scalar::F32, Dim::Four), Mask::BVec4A);
    assert_eq!(mask_of(Scalar::F64, Dim::Four), Mask::BVec4);
    assert_eq!(mask_of(Scalar::F32, Dim::Three), Mask::BVec3);
    assert_eq!(mask_of(Scalar::I16, Dim::Two), Mask::BVec2);
    assert_eq!(masks(Some(Dim::Three)), vec![Mask::BVec3, Mask::BVec3A]);
    assert_eq!(masks(Some(Dim::Two)), vec![Mask::BVec2]);
    assert_eq!(impl_dims(None), vec![Dim::Two, Dim::Three, Dim::Four]);
    assert_eq!(impl_dims(Some(Dim::Four)), vec![Dim::Four]);
    assert_eq!(tier_scalars(Tier::Signed), vec![Scalar::I16, Scalar::I32, Scalar::I64, Scalar::F32, Scalar::F64]);
    assert_eq!(tier_scalars(Tier::UInt), vec![Scalar::U16, Scalar::U32, Scalar::U64]);
}

#[test]
fn no_rendering_binds_a_name_twice() {
    for output in plan() {
        for render in &output.renders {
            let mut keys: Vec<&str> = render.context.iter().map(|b| b.key.as_str()).collect();
            let bound = keys.len();
            keys.sort();
            keys.dedup();
            assert_eq!(keys.len(), bound);
        }
    }
}

#[test]
fn every_file_begins_with_its_trait() {
    let outputs = plan();
    assert_eq!(outputs.len(), 35);
    for (index, output) in outputs.iter().enumerate() {
        let expected = if index < 3 { "bvec.rs.tera" } else { "vec.rs.tera" };
        assert_eq!(output.renders[0].template, expected);
        for render in &output.renders[1..] {
            let expected = if index < 3 { "bvec_impl.rs.tera" } else { "vec_impl.rs.tera" };
            assert_eq!(render.template, expected);
        }
    }
}

#[test]
fn no_path_is_planned_twice() {
    let mut paths: Vec<String> = plan().into_iter().map(|o| o.path).collect();
    paths.sort();
    paths.dedup();
    assert_eq!(paths.len(), 35);
}
