use std::collections::HashSet;
use swizzlegen::blocks::{
    write_associated_bindings, write_impl, write_impl_open, write_imports, write_swizzle_head, write_swizzle_trait, write_vec2_impl_scalar,
    write_vec3_impl_scalar, write_vec3a_impl_sse2, write_vec3a_impl_wasm32,
    write_vec4_impl_scalar, write_vec4_impl_sse2, write_vec4_impl_wasm32,
};
use swizzlegen::emit::{
    write_fragment, write_loops, write_loops_vec2, write_loops_vec3, write_loops_vec4, Backend,
    Template, TypeNames,
};
use swizzlegen::plan::{
    generate, make_impl, make_tests, write_swizzle_impls, write_swizzle_impls_f32, write_swizzle_impls_f64, write_swizzle_impls_i32,
    write_swizzle_impls_u32, write_swizzle_tests, write_swizzle_tests_preamble,
    write_swizzle_traits, Artifact, ElementKind,
};
use swizzlegen::testgen::{write_test_loops, write_test_vec2, write_test_vec3, write_test_vec4};

const HEAD: &str = "// Generated by swizzlegen. Do not edit.\n";

fn axis(i: usize) -> char {
    ['x', 'y', 'z', 'w'][i]
}

fn name(t: &[usize]) -> String {
    t.iter().map(|&e| axis(e)).collect()
}

fn tuples(size: usize, len: usize) -> Vec<Vec<usize>> {
    let mut all: Vec<Vec<usize>> = Vec::new();
    if len == 4 {
        for e0 in 0..size {
            for e1 in 0..size {
                for e2 in 0..size {
                    for e3 in 0..size {
                        if size == 4 && e0 == 0 && e1 == 1 && e2 == 2 && e3 == 3 {
                            continue;
                        }
                        all.push(vec![e0, e1, e2, e3]);
                    }
                }
            }
        }
    } else if len == 3 {
        for e0 in 0..size {
            for e1 in 0..size {
                for e2 in 0..size {
                    if size == 3 && e0 == 0 && e1 == 1 && e2 == 2 {
                        continue;
                    }
                    all.push(vec![e0, e1, e2]);
                }
            }
        }
    } else {
        for e0 in 0..size {
            for e1 in 0..size {
                if size == 2 && e0 == 0 && e1 == 1 {
                    continue;
                }
                all.push(vec![e0, e1]);
            }
        }
    }
    all
}

fn every_tuple(size: usize) -> Vec<Vec<usize>> {
    let mut all = tuples(size, 4);
    all.extend(tuples(size, 3));
    all.extend(tuples(size, 2));
    all
}

fn fields(t: &[usize]) -> String {
    let parts: Vec<String> = t.iter().map(|&e| format!("self.{}", axis(e))).collect();
    parts.join(", ")
}

fn values(t: &[usize], scalar: &str) -> String {
    let parts: Vec<String> = t.iter().map(|&e| format!("{}_{}", e + 1, scalar)).collect();
    parts.join(", ")
}

fn bits(e: usize) -> &'static str {
    ["00", "01", "10", "11"][e]
}

fn expected_trait(size: usize) -> String {
    let mut s = format!("pub trait Vec{}Swizzles: Sized + Copy + Clone {{\n", size);
    for l in 2..=4usize {
        if l != size {
            s += &format!("    type Vec{};\n", l);
        }
    }
    s += &format!(
        "\n    #[inline]\n    fn {}(self) -> Self {{\n        self\n    }}\n",
        &"xyzw"[..size]
    );
    for t in every_tuple(size) {
        let ret = if t.len() == size { String::from("Self") } else { format!("Self::Vec{}", t.len()) };
        s += &format!("\n    fn {}(self) -> {};", name(&t), ret);
    }
    s += "\n}\n";
    s
}

fn expected_scalar(size: usize, v4: &str, v3: &str, v2: &str) -> String {
    let own = [v2, v3, v4][size - 2];
    let mut s = String::from(HEAD);
    s += &format!("\nuse super::Vec{}Swizzles;\nuse crate::{{{}, {}, {}}};\n", size, v2, v3, v4);
    s += &format!("\nimpl Vec{}Swizzles for {} {{\n", size, own);
    for l in 2..=4usize {
        if l != size {
            s += &format!("    type Vec{} = {};\n", l, [v2, v3, v4][l - 2]);
        }
    }
    for t in every_tuple(size) {
        let ty = if t.len() == size && size != 4 { "Self" } else { [v2, v3, v4][t.len() - 2] };
        s += &format!(
            "\n    #[inline]\n    fn {}(self) -> {} {{\n        {}::new({})\n    }}",
            name(&t),
            ty,
            ty,
            fields(&t)
        );
    }
    s += "\n}\n";
    s
}

fn simd_open(size: usize, arch: &str) -> String {
    let mut s = String::from(HEAD);
    if size == 4 {
        s += "\nuse super::Vec4Swizzles;\nuse crate::{Vec2, Vec3, Vec4, XY, XYZ};\n";
    } else {
        s += "\nuse super::Vec3Swizzles;\nuse crate::{Vec2, Vec3A, Vec4, XY};\n";
    }
    s += arch;
    if size == 4 {
        s += "\nimpl Vec4Swizzles for Vec4 {\n    type Vec2 = Vec2;\n    type Vec3 = Vec3;\n";
    } else {
        s += "\nimpl Vec3Swizzles for Vec3A {\n    type Vec2 = Vec2;\n    type Vec4 = Vec4;\n";
    }
    s
}

fn simd_wrap(size: usize, len: usize, inner: &str) -> (String, String) {
    if len == 4 {
        (String::from("Vec4"), format!("Vec4({})", inner))
    } else if len == 3 && size == 3 {
        (String::from("Self"), format!("Self({})", inner))
    } else if len == 3 {
        (String::from("Vec3"), format!("Vec3(XYZ::from({}))", inner))
    } else {
        (String::from("Vec2"), format!("Vec2(XY::from({}))", inner))
    }
}

fn expected_sse2(size: usize) -> String {
    let mut s = simd_open(
        size,
        "\n#[cfg(target_arch = \"x86\")]\nuse core::arch::x86::*;\n#[cfg(target_arch = \"x86_64\")]\nuse core::arch::x86_64::*;\n",
    );
    for t in every_tuple(size) {
        let mut lanes = [0usize; 4];
        for (i, &e) in t.iter().enumerate() {
            lanes[i] = e;
        }
        let inner = format!(
            "_mm_shuffle_ps(self.0, self.0, 0b{}_{}_{}_{})",
            bits(lanes[3]),
            bits(lanes[2]),
            bits(lanes[1]),
            bits(lanes[0])
        );
        let (ty, expr) = simd_wrap(size, t.len(), &inner);
        s += &format!(
            "\n    #[inline]\n    fn {}(self) -> {} {{\n        unsafe {{ {} }}\n    }}",
            name(&t),
            ty,
            expr
        );
    }
    s += "\n}\n";
    s
}

fn expected_wasm32(size: usize) -> String {
    let mut s = simd_open(size, "\nuse core::arch::wasm32::*;\n");
    for t in every_tuple(size) {
        let third = if t.len() > 2 { t[2] + 4 } else { 4 };
        let fourth = if t.len() > 3 { t[3] + 4 } else { 4 };
        let inner = format!(
            "i32x4_shuffle::<{}, {}, {}, {}>(self.0, self.0)",
            t[0], t[1], third, fourth
        );
        let (ty, expr) = simd_wrap(size, t.len(), &inner);
        s += &format!(
            "\n    #[inline]\n    fn {}(self) -> {} {{\n        {}\n    }}",
            name(&t),
            ty,
            expr
        );
    }
    s += "\n}\n";
    s
}

fn expected_assertions(size: usize, scalar: &str, v4: &str, v3: &str, v2: &str) -> String {
    let mut s = String::new();
    for t in every_tuple(size) {
        s += &format!(
            "    assert_eq!(v.{}(), {}({}));\n",
            name(&t),
            [v2, v3, v4][t.len() - 2],
            values(&t, scalar)
        );
    }
    s
}

fn expected_test(size: usize, scalar: &str, v4: &str, v3: &str, v2: &str) -> String {
    let own = [v2, v3, v4][size - 2];
    let receiver: Vec<usize> = (0..size).collect();
    let mut s = format!(
        "\nglam_test!(test_{}_swizzles, {{\n    let v = {}({});\n",
        own,
        own,
        values(&receiver, scalar)
    );
    s += &format!("    assert_eq!(v, v.{}());\n", &"xyzw"[..size]);
    s += &expected_assertions(size, scalar, v4, v3, v2);
    s += "});\n";
    s
}

fn expected_tests_file(scalar: &str, v4: &str, v3: &str, v2: &str) -> String {
    let mut s = String::from(HEAD);
    s += "#[macro_use]\nmod support;\nuse glam::*;\n\n";
    s += &expected_test(4, scalar, v4, v3, v2);
    if scalar == "f32" {
        s += &expected_test(3, scalar, "vec4", "vec3a", "vec2");
    }
    s += &expected_test(3, scalar, v4, v3, v2);
    s += &expected_test(2, scalar, v4, v3, v2);
    s
}

fn declared_names(text: &str) -> Vec<String> {
    let mut names: Vec<String> = Vec::new();
    for line in text.lines() {
        let line = line.trim_start();
        if let Some(rest) = line.strip_prefix("fn ") {
            if let Some(end) = rest.find('(') {
                names.push(String::from(&rest[..end]));
            }
        }
    }
    names
}

fn pairs(artifacts: &Vec<Artifact>) -> Vec<(String, String)> {
    artifacts.iter().map(|a| (a.path.clone(), a.text.clone())).collect()
}

#[test]
fn head_line() {
    let mut out = String::new();
    write_swizzle_head(&mut out);
    assert_eq!(out, "// Generated by swizzlegen. Do not edit.\n");
    let mut out = String::from("kept\n");
    write_swizzle_head(&mut out);
    assert_eq!(out, "kept\n// Generated by swizzlegen. Do not edit.\n");
}

#[test]
fn method_counts() {
    for size in 2..=4usize {
        for len in 2..=4usize {
            let mut out = String::new();
            match len {
                4 => write_loops_vec4(&mut out, size, &Template::Signature),
                3 => write_loops_vec3(&mut out, size, &Template::Signature),
                _ => write_loops_vec2(&mut out, size, &Template::Signature),
            }
            let mut expected = size.pow(len as u32);
            if len == size {
                expected -= 1;
            }
            assert_eq!(out.matches("\n    fn ").count(), expected);
            assert_eq!(declared_names(&out).len(), expected);
        }
    }
}

#[test]
fn method_count_values() {
    let mut out = String::new();
    write_loops(&mut out, 2, &Template::Signature);
    assert_eq!(declared_names(&out).len(), 16 + 8 + 3);
    let mut out = String::new();
    write_loops(&mut out, 3, &Template::Signature);
    assert_eq!(declared_names(&out).len(), 81 + 26 + 9);
    let mut out = String::new();
    write_loops(&mut out, 4, &Template::Signature);
    assert_eq!(declared_names(&out).len(), 255 + 64 + 16);
}

#[test]
fn loops_append_after_what_is_there() {
    let mut out = String::from("before");
    write_loops_vec2(&mut out, 2, &Template::Signature);
    assert_eq!(
        out,
        "before\n    fn xx(self) -> Self;\n    fn yx(self) -> Self;\n    fn yy(self) -> Self;"
    );
}

#[test]
fn signature_fragments() {
    let mut out = String::new();
    write_fragment(&mut out, &Template::Signature, 4, &vec![3, 0, 1]);
    assert_eq!(out, "\n    fn wxy(self) -> Self::Vec3;");
    let mut out = String::new();
    write_fragment(&mut out, &Template::Signature, 4, &vec![3, 2, 1, 0]);
    assert_eq!(out, "\n    fn wzyx(self) -> Self;");
    let mut out = String::new();
    write_fragment(&mut out, &Template::Signature, 3, &vec![0, 0, 0, 0]);
    assert_eq!(out, "\n    fn xxxx(self) -> Self::Vec4;");
    let mut out = String::new();
    write_fragment(&mut out, &Template::Signature, 3, &vec![1, 1]);
    assert_eq!(out, "\n    fn yy(self) -> Self::Vec2;");
}

#[test]
fn method_fragments() {
    let n = TypeNames { vec4t: "Vec4", vec3t: "Vec3", vec2t: "Vec2" };
    let mut out = String::new();
    write_fragment(&mut out, &Template::Method(Backend::Generic, n), 4, &vec![3, 0, 1]);
    assert_eq!(
        out,
        "\n    #[inline]\n    fn wxy(self) -> Vec3 {\n        Vec3::new(self.w, self.x, self.y)\n    }"
    );
    let mut out = String::new();
    write_fragment(&mut out, &Template::Method(Backend::PackedShuffleImmediate, n), 4, &vec![3, 0, 1]);
    assert_eq!(
        out,
        "\n    #[inline]\n    fn wxy(self) -> Vec3 {\n        unsafe { Vec3(XYZ::from(_mm_shuffle_ps(self.0, self.0, 0b00_01_00_11))) }\n    }"
    );
    let mut out = String::new();
    write_fragment(&mut out, &Template::Method(Backend::LanePairShuffle, n), 4, &vec![3, 0, 1]);
    assert_eq!(
        out,
        "\n    #[inline]\n    fn wxy(self) -> Vec3 {\n        Vec3(XYZ::from(i32x4_shuffle::<3, 0, 5, 4>(self.0, self.0)))\n    }"
    );
}

#[test]
fn assertion_fragments() {
    let n = TypeNames { vec4t: "vec4", vec3t: "vec3", vec2t: "vec2" };
    let mut out = String::new();
    write_fragment(&mut out, &Template::Assertion("f32", n), 4, &vec![3, 0, 1]);
    assert_eq!(out, "    assert_eq!(v.wxy(), vec3(4_f32, 1_f32, 2_f32));\n");
    let mut out = String::new();
    write_fragment(&mut out, &Template::Assertion("f32", n), 4, &vec![0, 0, 0]);
    assert_eq!(out, "    assert_eq!(v.xxx(), vec3(1_f32, 1_f32, 1_f32));\n");
}

#[test]
fn trait_of_two_components() {
    let mut out = String::new();
    write_swizzle_trait(&mut out, 2, "Vec4", "Vec3", "Vec2");
    let expected = "pub trait Vec2Swizzles: Sized + Copy + Clone {
    type Vec3;
    type Vec4;

    #[inline]
    fn xy(self) -> Self {
        self
    }

    fn xxxx(self) -> Self::Vec4;
    fn xxxy(self) -> Self::Vec4;
    fn xxyx(self) -> Self::Vec4;
    fn xxyy(self) -> Self::Vec4;
    fn xyxx(self) -> Self::Vec4;
    fn xyxy(self) -> Self::Vec4;
    fn xyyx(self) -> Self::Vec4;
    fn xyyy(self) -> Self::Vec4;
    fn yxxx(self) -> Self::Vec4;
    fn yxxy(self) -> Self::Vec4;
    fn yxyx(self) -> Self::Vec4;
    fn yxyy(self) -> Self::Vec4;
    fn yyxx(self) -> Self::Vec4;
    fn yyxy(self) -> Self::Vec4;
    fn yyyx(self) -> Self::Vec4;
    fn yyyy(self) -> Self::Vec4;
    fn xxx(self) -> Self::Vec3;
    fn xxy(self) -> Self::Vec3;
    fn xyx(self) -> Self::Vec3;
    fn xyy(self) -> Self::Vec3;
    fn yxx(self) -> Self::Vec3;
    fn yxy(self) -> Self::Vec3;
    fn yyx(self) -> Self::Vec3;
    fn yyy(self) -> Self::Vec3;
    fn xx(self) -> Self;
    fn yx(self) -> Self;
    fn yy(self) -> Self;
}
";
    assert_eq!(out, expected);
}

#[test]
fn traits_of_every_dimension() {
    for size in 2..=4usize {
        let mut out = String::new();
        write_swizzle_trait(&mut out, size, "Vec4", "Vec3", "Vec2");
        assert_eq!(out, expected_trait(size));
    }
    let mut out = String::new();
    write_swizzle_trait(&mut out, 3, "A", "B", "C");
    assert!(out.starts_with("pub trait BSwizzles: Sized + Copy + Clone {\n    type Vec2;\n    type Vec4;\n\n    #[inline]\n    fn xyz(self) -> Self {\n        self\n    }\n\n    fn xxxx(self) -> Self::Vec4;"));
    assert!(out.ends_with("\n    fn zz(self) -> Self::Vec2;\n}\n"));
}

#[test]
fn method_names_are_unique() {
    for size in 2..=4usize {
        let mut out = String::new();
        write_swizzle_trait(&mut out, size, "Vec4", "Vec3", "Vec2");
        let names = declared_names(&out);
        let distinct: HashSet<&String> = names.iter().collect();
        assert_eq!(names.len(), distinct.len());
        assert_eq!(names.len(), size.pow(4) + size.pow(3) + size.pow(2));
        assert!(distinct.contains(&String::from(&"xyzw"[..size])));
    }
    let mut out = String::new();
    write_vec4_impl_sse2(&mut out);
    let names = declared_names(&out);
    let distinct: HashSet<&String> = names.iter().collect();
    assert_eq!(names.len(), 335);
    assert_eq!(distinct.len(), 335);
    assert!(!distinct.contains(&String::from("xyzw")));
}

#[test]
fn scalar_impl_of_two_components() {
    let mut out = String::new();
    write_vec2_impl_scalar(&mut out, "IVec4", "IVec3", "IVec2");
    assert!(out.starts_with("// Generated by swizzlegen. Do not edit.\n\nuse super::Vec2Swizzles;\nuse crate::{IVec2, IVec3, IVec4};\n\nimpl Vec2Swizzles for IVec2 {\n    type Vec3 = IVec3;\n    type Vec4 = IVec4;\n\n    #[inline]\n    fn xxxx(self) -> IVec4 {\n        IVec4::new(self.x, self.x, self.x, self.x)\n    }\n    #[inline]\n    fn xxxy(self) -> IVec4 {\n        IVec4::new(self.x, self.x, self.x, self.y)\n    }"));
    assert!(out.ends_with("\n    #[inline]\n    fn xx(self) -> Self {\n        Self::new(self.x, self.x)\n    }\n    #[inline]\n    fn yx(self) -> Self {\n        Self::new(self.y, self.x)\n    }\n    #[inline]\n    fn yy(self) -> Self {\n        Self::new(self.y, self.y)\n    }\n}\n"));
    assert!(!out.contains("fn xy("));
}

#[test]
fn scalar_impls() {
    let families = [
        ["Vec4", "Vec3", "Vec2"],
        ["DVec4", "DVec3", "DVec2"],
        ["IVec4", "IVec3", "IVec2"],
        ["UVec4", "UVec3", "UVec2"],
        ["Vec4", "Vec3A", "Vec2"],
    ];
    for f in families.iter() {
        let mut out = String::new();
        write_vec4_impl_scalar(&mut out, f[0], f[1], f[2]);
        assert_eq!(out, expected_scalar(4, f[0], f[1], f[2]));
        let mut out = String::new();
        write_vec3_impl_scalar(&mut out, f[0], f[1], f[2]);
        assert_eq!(out, expected_scalar(3, f[0], f[1], f[2]));
        let mut out = String::new();
        write_vec2_impl_scalar(&mut out, f[0], f[1], f[2]);
        assert_eq!(out, expected_scalar(2, f[0], f[1], f[2]));
    }
}

#[test]
fn scalar_impl_names_its_result() {
    let mut out = String::new();
    write_vec4_impl_scalar(&mut out, "Vec4", "Vec3", "Vec2");
    assert!(out.contains("\n    #[inline]\n    fn wzyx(self) -> Vec4 {\n        Vec4::new(self.w, self.z, self.y, self.x)\n    }"));
    assert!(out.contains("\n    #[inline]\n    fn wxy(self) -> Vec3 {\n        Vec3::new(self.w, self.x, self.y)\n    }"));
    assert!(!out.contains("Self"));
    let mut out = String::new();
    write_vec3_impl_scalar(&mut out, "Vec4", "Vec3A", "Vec2");
    assert!(out.contains("\nimpl Vec3Swizzles for Vec3A {\n    type Vec2 = Vec2;\n    type Vec4 = Vec4;\n"));
    assert!(out.contains("\n    #[inline]\n    fn zyx(self) -> Self {\n        Self::new(self.z, self.y, self.x)\n    }"));
}

#[test]
fn sse2_impls() {
    let mut out = String::new();
    write_vec4_impl_sse2(&mut out);
    assert_eq!(out, expected_sse2(4));
    assert!(out.starts_with("// Generated by swizzlegen. Do not edit.\n\nuse super::Vec4Swizzles;\nuse crate::{Vec2, Vec3, Vec4, XY, XYZ};\n\n#[cfg(target_arch = \"x86\")]\nuse core::arch::x86::*;\n#[cfg(target_arch = \"x86_64\")]\nuse core::arch::x86_64::*;\n\nimpl Vec4Swizzles for Vec4 {\n    type Vec2 = Vec2;\n    type Vec3 = Vec3;\n\n    #[inline]\n    fn xxxx(self) -> Vec4 {\n        unsafe { Vec4(_mm_shuffle_ps(self.0, self.0, 0b00_00_00_00)) }\n    }"));
    assert!(out.ends_with("\n    #[inline]\n    fn ww(self) -> Vec2 {\n        unsafe { Vec2(XY::from(_mm_shuffle_ps(self.0, self.0, 0b00_00_11_11))) }\n    }\n}\n"));
    let mut out = String::new();
    write_vec3a_impl_sse2(&mut out);
    assert_eq!(out, expected_sse2(3));
    assert!(out.starts_with("// Generated by swizzlegen. Do not edit.\n\nuse super::Vec3Swizzles;\nuse crate::{Vec2, Vec3A, Vec4, XY};\n\n#[cfg(target_arch = \"x86\")]\n"));
    assert!(out.contains("\n    #[inline]\n    fn zyx(self) -> Self {\n        unsafe { Self(_mm_shuffle_ps(self.0, self.0, 0b00_00_01_10)) }\n    }"));
}

#[test]
fn wasm32_impls() {
    let mut out = String::new();
    write_vec4_impl_wasm32(&mut out);
    assert_eq!(out, expected_wasm32(4));
    assert!(out.starts_with("// Generated by swizzlegen. Do not edit.\n\nuse super::Vec4Swizzles;\nuse crate::{Vec2, Vec3, Vec4, XY, XYZ};\n\nuse core::arch::wasm32::*;\n\nimpl Vec4Swizzles for Vec4 {\n    type Vec2 = Vec2;\n    type Vec3 = Vec3;\n\n    #[inline]\n    fn xxxx(self) -> Vec4 {\n        Vec4(i32x4_shuffle::<0, 0, 4, 4>(self.0, self.0))\n    }"));
    let mut out = String::new();
    write_vec3a_impl_wasm32(&mut out);
    assert_eq!(out, expected_wasm32(3));
    assert!(out.ends_with("\n    #[inline]\n    fn zz(self) -> Vec2 {\n        Vec2(XY::from(i32x4_shuffle::<2, 2, 4, 4>(self.0, self.0)))\n    }\n}\n"));
}

#[test]
fn impl_by_backend_matches_the_named_functions() {
    let n = TypeNames { vec4t: "Vec4", vec3t: "Vec3A", vec2t: "Vec2" };
    let mut a = String::new();
    write_impl(&mut a, Backend::LanePairShuffle, 3, &n);
    let mut b = String::new();
    write_vec3a_impl_wasm32(&mut b);
    assert_eq!(a, b);
    let mut a = String::new();
    write_impl(&mut a, Backend::Generic, 3, &n);
    let mut b = String::new();
    write_vec3_impl_scalar(&mut b, "Vec4", "Vec3A", "Vec2");
    assert_eq!(a, b);
}

#[test]
fn float_accessors_of_four_components() {
    let mut out = String::new();
    write_test_vec4(&mut out, "f32", "vec4", "vec3", "vec2");
    assert!(out.starts_with("\nglam_test!(test_vec4_swizzles, {\n    let v = vec4(1_f32, 2_f32, 3_f32, 4_f32);\n    assert_eq!(v, v.xyzw());\n    assert_eq!(v.xxxx(), vec4(1_f32, 1_f32, 1_f32, 1_f32));\n"));
    assert!(out.contains("    assert_eq!(v.wxy(), vec3(4_f32, 1_f32, 2_f32));\n"));
    assert!(out.contains("    assert_eq!(v.xxx(), vec3(1_f32, 1_f32, 1_f32));\n"));
    assert!(out.ends_with("    assert_eq!(v.ww(), vec2(4_f32, 4_f32));\n});\n"));
    assert_eq!(out, expected_test(4, "f32", "vec4", "vec3", "vec2"));
}

#[test]
fn integer_accessors_of_two_components() {
    let mut out = String::new();
    write_test_vec2(&mut out, "i32", "ivec4", "ivec3", "ivec2");
    assert!(out.starts_with("\nglam_test!(test_ivec2_swizzles, {\n    let v = ivec2(1_i32, 2_i32);\n    assert_eq!(v, v.xy());\n"));
    assert!(out.contains("    assert_eq!(v.yx(), ivec2(2_i32, 1_i32));\n"));
    assert!(!out.contains("v.xy(), "));
    assert_eq!(out, expected_test(2, "i32", "ivec4", "ivec3", "ivec2"));
    let mut decl = String::new();
    write_swizzle_trait(&mut decl, 2, "IVec4", "IVec3", "IVec2");
    assert!(decl.contains("\n    fn xy(self) -> Self {\n        self\n    }\n"));
    assert!(decl.contains("\n    fn yx(self) -> Self;"));
    assert!(!decl.contains("\n    fn xy(self) -> Self;"));
}

#[test]
fn aligned_float_accessors_that_widen() {
    let mut out = String::new();
    write_test_vec3(&mut out, "f32", "vec4", "vec3a", "vec2");
    assert!(out.starts_with("\nglam_test!(test_vec3a_swizzles, {\n    let v = vec3a(1_f32, 2_f32, 3_f32);\n    assert_eq!(v, v.xyz());\n"));
    assert!(out.contains("    assert_eq!(v.zxyy(), vec4(3_f32, 1_f32, 2_f32, 2_f32));\n"));
    assert!(out.contains("    assert_eq!(v.xyzz(), vec4(1_f32, 2_f32, 3_f32, 3_f32));\n"));
    assert!(out.contains("    assert_eq!(v.yzxx(), vec4(2_f32, 3_f32, 1_f32, 1_f32));\n"));
    assert_eq!(out, expected_test(3, "f32", "vec4", "vec3a", "vec2"));
    let mut sse2 = String::new();
    write_vec3a_impl_sse2(&mut sse2);
    assert!(sse2.contains("\n    fn zxyy(self) -> Vec4 {\n        unsafe { Vec4(_mm_shuffle_ps(self.0, self.0, 0b01_01_00_10)) }\n    }"));
    assert!(sse2.contains("\n    fn xyzz(self) -> Vec4 {\n        unsafe { Vec4(_mm_shuffle_ps(self.0, self.0, 0b10_10_01_00)) }\n    }"));
    let mut wasm = String::new();
    write_vec3a_impl_wasm32(&mut wasm);
    assert!(wasm.contains("\n    fn zxyy(self) -> Vec4 {\n        Vec4(i32x4_shuffle::<2, 0, 5, 5>(self.0, self.0))\n    }"));
    assert!(wasm.contains("\n    fn xyzz(self) -> Vec4 {\n        Vec4(i32x4_shuffle::<0, 1, 6, 6>(self.0, self.0))\n    }"));
    let mut scalar = String::new();
    write_vec3_impl_scalar(&mut scalar, "Vec4", "Vec3A", "Vec2");
    assert!(scalar.contains("\n    fn zxyy(self) -> Vec4 {\n        Vec4::new(self.z, self.x, self.y, self.y)\n    }"));
}

#[test]
fn test_loops_mirror_the_definitions() {
    for size in 2..=4usize {
        let mut out = String::from("kept\n");
        write_test_loops(&mut out, size, "u32", "uvec4", "uvec3", "uvec2");
        assert_eq!(out, format!("kept\n{}", expected_assertions(size, "u32", "uvec4", "uvec3", "uvec2")));
        let mut decl = String::new();
        write_loops(&mut decl, size, &Template::Signature);
        let mut called: Vec<String> = Vec::new();
        for line in out.lines() {
            if let Some(rest) = line.trim_start().strip_prefix("assert_eq!(v.") {
                called.push(String::from(&rest[..rest.find('(').unwrap()]));
            }
        }
        assert_eq!(called, declared_names(&decl));
    }
}

#[test]
fn tests_preamble() {
    let mut out = String::new();
    write_swizzle_tests_preamble(&mut out);
    assert_eq!(
        out,
        "// Generated by swizzlegen. Do not edit.\n#[macro_use]\nmod support;\nuse glam::*;\n\n"
    );
}

#[test]
fn tests_artifacts() {
    let made = write_swizzle_tests();
    assert_eq!(made.len(), 4);
    assert_eq!(made[0].path, "../tests/swizzles_f32.rs");
    assert_eq!(made[0].text, expected_tests_file("f32", "vec4", "vec3", "vec2"));
    assert_eq!(made[1].path, "../tests/swizzles_f64.rs");
    assert_eq!(made[1].text, expected_tests_file("f64", "dvec4", "dvec3", "dvec2"));
    assert_eq!(made[2].path, "../tests/swizzles_i32.rs");
    assert_eq!(made[2].text, expected_tests_file("i32", "ivec4", "ivec3", "ivec2"));
    assert_eq!(made[3].path, "../tests/swizzles_u32.rs");
    assert_eq!(made[3].text, expected_tests_file("u32", "uvec4", "uvec3", "uvec2"));
    assert_eq!(made[0].text.matches("glam_test!(").count(), 4);
    assert_eq!(made[1].text.matches("glam_test!(").count(), 3);
    let aligned = made[0].text.find("test_vec3a_swizzles").unwrap();
    let plain = made[0].text.find("test_vec3_swizzles").unwrap();
    assert!(aligned < plain);
}

#[test]
fn traits_artifact() {
    let made = write_swizzle_traits();
    assert_eq!(made.path, "../src/swizzles/vec_traits.rs");
    let mut expected = String::from(HEAD);
    for size in 2..=4usize {
        expected += &format!("/** Swizzle methods for {}-dimensional vector types. */\n", size);
        expected += &expected_trait(size);
    }
    assert_eq!(made.text, expected);
}

#[test]
fn float_impl_artifacts() {
    let made = write_swizzle_impls_f32();
    let expected = vec![
        (String::from("../src/swizzles/vec4_impl_scalar.rs"), expected_scalar(4, "Vec4", "Vec3", "Vec2")),
        (String::from("../src/swizzles/vec3_impl_scalar.rs"), expected_scalar(3, "Vec4", "Vec3", "Vec2")),
        (String::from("../src/swizzles/vec2_impl_scalar.rs"), expected_scalar(2, "Vec4", "Vec3", "Vec2")),
        (String::from("../src/swizzles/vec3a_impl_scalar.rs"), expected_scalar(3, "Vec4", "Vec3A", "Vec2")),
        (String::from("../src/swizzles/vec4_impl_sse2.rs"), expected_sse2(4)),
        (String::from("../src/swizzles/vec3a_impl_sse2.rs"), expected_sse2(3)),
        (String::from("../src/swizzles/vec4_impl_wasm32.rs"), expected_wasm32(4)),
        (String::from("../src/swizzles/vec3a_impl_wasm32.rs"), expected_wasm32(3)),
    ];
    assert_eq!(pairs(&made), expected);
}

#[test]
fn other_impl_artifacts() {
    let made = write_swizzle_impls_f64();
    let expected = vec![
        (String::from("../src/swizzles/dvec4_impl_scalar.rs"), expected_scalar(4, "DVec4", "DVec3", "DVec2")),
        (String::from("../src/swizzles/dvec3_impl_scalar.rs"), expected_scalar(3, "DVec4", "DVec3", "DVec2")),
        (String::from("../src/swizzles/dvec2_impl_scalar.rs"), expected_scalar(2, "DVec4", "DVec3", "DVec2")),
    ];
    assert_eq!(pairs(&made), expected);
    let made = write_swizzle_impls_i32();
    let expected = vec![
        (String::from("../src/swizzles/ivec4_impl_scalar.rs"), expected_scalar(4, "IVec4", "IVec3", "IVec2")),
        (String::from("../src/swizzles/ivec3_impl_scalar.rs"), expected_scalar(3, "IVec4", "IVec3", "IVec2")),
        (String::from("../src/swizzles/ivec2_impl_scalar.rs"), expected_scalar(2, "IVec4", "IVec3", "IVec2")),
    ];
    assert_eq!(pairs(&made), expected);
    let made = write_swizzle_impls_u32();
    let expected = vec![
        (String::from("../src/swizzles/uvec4_impl_scalar.rs"), expected_scalar(4, "UVec4", "UVec3", "UVec2")),
        (String::from("../src/swizzles/uvec3_impl_scalar.rs"), expected_scalar(3, "UVec4", "UVec3", "UVec2")),
        (String::from("../src/swizzles/uvec2_impl_scalar.rs"), expected_scalar(2, "UVec4", "UVec3", "UVec2")),
    ];
    assert_eq!(pairs(&made), expected);
}

#[test]
fn element_kind_names() {
    assert_eq!(ElementKind::F32.scalar_name(), "f32");
    assert_eq!(ElementKind::F64.scalar_name(), "f64");
    assert_eq!(ElementKind::I32.scalar_name(), "i32");
    assert_eq!(ElementKind::U32.scalar_name(), "u32");
    assert_eq!(ElementKind::F64.type_names().vec3t, "DVec3");
    assert_eq!(ElementKind::I32.type_names().vec4t, "IVec4");
    assert_eq!(ElementKind::U32.builder_names().vec2t, "uvec2");
    assert_eq!(ElementKind::F32.builder_names().name_of(3), "vec3");
    assert_eq!(ElementKind::F32.type_names().name_of(2), "Vec2");
}

#[test]
fn a_run_produces_every_artifact_in_order() {
    let made = generate();
    let paths: Vec<&str> = made.iter().map(|a| a.path.as_str()).collect();
    assert_eq!(
        paths,
        vec![
            "../src/swizzles/vec_traits.rs",
            "../src/swizzles/vec4_impl_scalar.rs",
            "../src/swizzles/vec3_impl_scalar.rs",
            "../src/swizzles/vec2_impl_scalar.rs",
            "../src/swizzles/vec3a_impl_scalar.rs",
            "../src/swizzles/vec4_impl_sse2.rs",
            "../src/swizzles/vec3a_impl_sse2.rs",
            "../src/swizzles/vec4_impl_wasm32.rs",
            "../src/swizzles/vec3a_impl_wasm32.rs",
            "../src/swizzles/dvec4_impl_scalar.rs",
            "../src/swizzles/dvec3_impl_scalar.rs",
            "../src/swizzles/dvec2_impl_scalar.rs",
            "../src/swizzles/ivec4_impl_scalar.rs",
            "../src/swizzles/ivec3_impl_scalar.rs",
            "../src/swizzles/ivec2_impl_scalar.rs",
            "../src/swizzles/uvec4_impl_scalar.rs",
            "../src/swizzles/uvec3_impl_scalar.rs",
            "../src/swizzles/uvec2_impl_scalar.rs",
            "../tests/swizzles_f32.rs",
            "../tests/swizzles_f64.rs",
            "../tests/swizzles_i32.rs",
            "../tests/swizzles_u32.rs",
        ]
    );
    let distinct: HashSet<&str> = paths.iter().copied().collect();
    assert_eq!(distinct.len(), paths.len());
    assert_eq!(made[0].text, write_swizzle_traits().text);
    assert_eq!(made[8].text, expected_wasm32(3));
    assert_eq!(made[21].text, expected_tests_file("u32", "uvec4", "uvec3", "uvec2"));
}

#[test]
fn two_runs_give_the_same_bytes() {
    let first = generate();
    let second = generate();
    assert_eq!(pairs(&first), pairs(&second));
    assert_eq!(first.len(), 22);
    for (a, b) in first.iter().zip(second.iter()) {
        assert_eq!(a.path.as_bytes(), b.path.as_bytes());
        assert_eq!(a.text.as_bytes(), b.text.as_bytes());
    }
}

#[test]
fn imports_by_backend() {
    let n = TypeNames { vec4t: "Vec4", vec3t: "Vec3A", vec2t: "Vec2" };
    let mut out = String::new();
    write_imports(&mut out, Backend::Generic, 3, &n);
    assert_eq!(out, "\nuse super::Vec3Swizzles;\nuse crate::{Vec2, Vec3A, Vec4};\n");
    let mut out = String::new();
    write_imports(&mut out, Backend::LanePairShuffle, 3, &n);
    assert_eq!(
        out,
        "\nuse super::Vec3Swizzles;\nuse crate::{Vec2, Vec3A, Vec4, XY};\n\nuse core::arch::wasm32::*;\n"
    );
    let m = TypeNames { vec4t: "Vec4", vec3t: "Vec3", vec2t: "Vec2" };
    let mut out = String::new();
    write_imports(&mut out, Backend::PackedShuffleImmediate, 4, &m);
    assert_eq!(
        out,
        "\nuse super::Vec4Swizzles;\nuse crate::{Vec2, Vec3, Vec4, XY, XYZ};\n\n#[cfg(target_arch = \"x86\")]\nuse core::arch::x86::*;\n#[cfg(target_arch = \"x86_64\")]\nuse core::arch::x86_64::*;\n"
    );
}

#[test]
fn impl_block_opening() {
    let n = TypeNames { vec4t: "UVec4", vec3t: "UVec3", vec2t: "UVec2" };
    let mut out = String::new();
    write_impl_open(&mut out, 2, &n);
    assert_eq!(out, "\nimpl Vec2Swizzles for UVec2 {\n");
    let mut out = String::new();
    write_associated_bindings(&mut out, 2, &n);
    assert_eq!(out, "    type Vec3 = UVec3;\n    type Vec4 = UVec4;\n");
    let mut out = String::new();
    write_associated_bindings(&mut out, 3, &n);
    assert_eq!(out, "    type Vec2 = UVec2;\n    type Vec4 = UVec4;\n");
    let mut out = String::from("{\n");
    write_associated_bindings(&mut out, 4, &n);
    assert_eq!(out, "{\n    type Vec2 = UVec2;\n    type Vec3 = UVec3;\n");
}

#[test]
fn single_artifacts() {
    let names = ElementKind::I32.type_names();
    let builders = ElementKind::I32.builder_names();
    let made = make_impl(Backend::Generic, 2, &names, &builders);
    assert_eq!(made.path, "../src/swizzles/ivec2_impl_scalar.rs");
    assert_eq!(made.text, expected_scalar(2, "IVec4", "IVec3", "IVec2"));
    let made = make_tests(ElementKind::F64);
    assert_eq!(made.path, "../tests/swizzles_f64.rs");
    assert_eq!(made.text, expected_tests_file("f64", "dvec4", "dvec3", "dvec2"));
    assert_eq!(pairs(&write_swizzle_impls(ElementKind::F32)), pairs(&write_swizzle_impls_f32()));
    assert_eq!(write_swizzle_impls(ElementKind::U32).len(), 3);
    assert_eq!(write_swizzle_impls(ElementKind::F32).len(), 8);
}
