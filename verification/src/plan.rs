//! The orchestrator: which artifacts a run produces, in which order, and where
//! each of them goes.

use vstd::prelude::*;
use crate::index::valid_dimension;
use crate::emit::{backend_fits, Backend, TypeNames};
use crate::blocks::{
    head_text, impl_text, simd_names, simd_type_names, trait_text, write_impl,
    write_swizzle_head, write_swizzle_trait,
};
use crate::testgen::{test_text, write_test_vec2, write_test_vec3, write_test_vec4};

verus! {

/// The scalar type that a family of vector types is built from.
#[derive(Clone, Copy, PartialEq, Eq, Debug)]
pub enum ElementKind {
    F32,
    F64,
    I32,
    U32,
}

impl ElementKind {
    /// The scalar type's name.
    pub open spec fn scalar(self) -> &'static str {
        match self {
            ElementKind::F32 => "f32",
            ElementKind::F64 => "f64",
            ElementKind::I32 => "i32",
            ElementKind::U32 => "u32",
        }
    }

    /// The names of the kind's vector types.
    pub open spec fn types(self) -> TypeNames<'static> {
        match self {
            ElementKind::F32 => TypeNames { vec4t: "Vec4", vec3t: "Vec3", vec2t: "Vec2" },
            ElementKind::F64 => TypeNames { vec4t: "DVec4", vec3t: "DVec3", vec2t: "DVec2" },
            ElementKind::I32 => TypeNames { vec4t: "IVec4", vec3t: "IVec3", vec2t: "IVec2" },
            ElementKind::U32 => TypeNames { vec4t: "UVec4", vec3t: "UVec3", vec2t: "UVec2" },
        }
    }

    /// The names of the functions that build the kind's vectors, which also
    /// name the kind's artifacts.
    pub open spec fn builders(self) -> TypeNames<'static> {
        match self {
            ElementKind::F32 => TypeNames { vec4t: "vec4", vec3t: "vec3", vec2t: "vec2" },
            ElementKind::F64 => TypeNames { vec4t: "dvec4", vec3t: "dvec3", vec2t: "dvec2" },
            ElementKind::I32 => TypeNames { vec4t: "ivec4", vec3t: "ivec3", vec2t: "ivec2" },
            ElementKind::U32 => TypeNames { vec4t: "uvec4", vec3t: "uvec3", vec2t: "uvec2" },
        }
    }

    /// Whether the kind's 3- and 4-component types have SIMD backends, and its
    /// 3-component type a SIMD-aligned variant: the 32-bit float only.
    pub open spec fn has_simd(self) -> bool {
        self == ElementKind::F32
    }

    /// The scalar type's name.
    pub fn scalar_name(self) -> (name: &'static str)
        ensures
            name == self.scalar(),
    {
        match self {
            ElementKind::F32 => "f32",
            ElementKind::F64 => "f64",
            ElementKind::I32 => "i32",
            ElementKind::U32 => "u32",
        }
    }

    /// The names of the kind's vector types.
    pub fn type_names(self) -> (names: TypeNames<'static>)
        ensures
            names == self.types(),
    {
        match self {
            ElementKind::F32 => TypeNames { vec4t: "Vec4", vec3t: "Vec3", vec2t: "Vec2" },
            ElementKind::F64 => TypeNames { vec4t: "DVec4", vec3t: "DVec3", vec2t: "DVec2" },
            ElementKind::I32 => TypeNames { vec4t: "IVec4", vec3t: "IVec3", vec2t: "IVec2" },
            ElementKind::U32 => TypeNames { vec4t: "UVec4", vec3t: "UVec3", vec2t: "UVec2" },
        }
    }

    /// The names of the functions that build the kind's vectors.
    pub fn builder_names(self) -> (names: TypeNames<'static>)
        ensures
            names == self.builders(),
    {
        match self {
            ElementKind::F32 => TypeNames { vec4t: "vec4", vec3t: "vec3", vec2t: "vec2" },
            ElementKind::F64 => TypeNames { vec4t: "dvec4", vec3t: "dvec3", vec2t: "dvec2" },
            ElementKind::I32 => TypeNames { vec4t: "ivec4", vec3t: "ivec3", vec2t: "ivec2" },
            ElementKind::U32 => TypeNames { vec4t: "uvec4", vec3t: "uvec3", vec2t: "uvec2" },
        }
    }
}

/// The functions that build the float vectors where the 3-component one is
/// the SIMD-aligned variant.
pub open spec fn aligned_builders() -> TypeNames<'static> {
    TypeNames { vec4t: "vec4", vec3t: "vec3a", vec2t: "vec2" }
}

/// The functions that build the float vectors where the 3-component one is
/// the SIMD-aligned variant.
pub fn aligned_builder_names() -> (names: TypeNames<'static>)
    ensures
        names == aligned_builders(),
{
    TypeNames { vec4t: "vec4", vec3t: "vec3a", vec2t: "vec2" }
}

/// One output of a run: a text and the destination that it is written to.
#[derive(Debug)]
pub struct Artifact {
    pub path: String,
    pub text: String,
}

impl View for Artifact {
    type V = (Seq<char>, Seq<char>);

    open spec fn view(&self) -> (Seq<char>, Seq<char>) {
        (self.path@, self.text@)
    }
}

/// The destinations and texts of a list of artifacts.
pub open spec fn views(artifacts: Seq<Artifact>) -> Seq<(Seq<char>, Seq<char>)> {
    Seq::new(artifacts.len(), |i: int| artifacts[i]@)
}

/// The word for a backend in an artifact's name.
pub open spec fn backend_tag(backend: Backend) -> Seq<char> {
    match backend {
        Backend::Generic => "scalar"@,
        Backend::PackedShuffleImmediate => "sse2"@,
        Backend::LanePairShuffle => "wasm32"@,
    }
}

/// The artifact with the accessors of the type of `size` components among
/// `names` for one backend; `builders` name the artifact.
#[verifier::opaque]
pub open spec fn impl_artifact(backend: Backend, size: int, names: TypeNames, builders: TypeNames) -> (
    Seq<char>,
    Seq<char>,
) {
    (
        "../src/swizzles/"@ + builders.of_len(size) + "_impl_"@ + backend_tag(backend) + ".rs"@,
        impl_text(backend, size, names),
    )
}

/// The artifacts with the accessors' definitions for one element kind: the
/// generic backend for the types of 4, 3 and 2 components, and for the 32-bit
/// float also the SIMD-aligned 3-component type on the generic backend and
/// both SIMD backends for the 4-component and the aligned 3-component type.
pub open spec fn impl_artifacts(kind: ElementKind) -> Seq<(Seq<char>, Seq<char>)> {
    if kind.has_simd() {
        seq![
            impl_artifact(Backend::Generic, 4, kind.types(), kind.builders()),
            impl_artifact(Backend::Generic, 3, kind.types(), kind.builders()),
            impl_artifact(Backend::Generic, 2, kind.types(), kind.builders()),
            impl_artifact(Backend::Generic, 3, simd_names(3), aligned_builders()),
            impl_artifact(Backend::PackedShuffleImmediate, 4, simd_names(4), kind.builders()),
            impl_artifact(Backend::PackedShuffleImmediate, 3, simd_names(3), aligned_builders()),
            impl_artifact(Backend::LanePairShuffle, 4, simd_names(4), kind.builders()),
            impl_artifact(Backend::LanePairShuffle, 3, simd_names(3), aligned_builders()),
        ]
    } else {
        seq![
            impl_artifact(Backend::Generic, 4, kind.types(), kind.builders()),
            impl_artifact(Backend::Generic, 3, kind.types(), kind.builders()),
            impl_artifact(Backend::Generic, 2, kind.types(), kind.builders()),
        ]
    }
}

/// The artifact that declares the accessors: one trait for each source
/// dimension, each under a line that says what it is.
#[verifier::opaque]
pub open spec fn traits_artifact() -> (Seq<char>, Seq<char>) {
    let names = ElementKind::F32.types();
    (
        "../src/swizzles/vec_traits.rs"@,
        head_text() + "/** Swizzle methods for 2-dimensional vector types. */\n"@ + trait_text(
            2,
            names,
        ) + "/** Swizzle methods for 3-dimensional vector types. */\n"@ + trait_text(3, names)
            + "/** Swizzle methods for 4-dimensional vector types. */\n"@ + trait_text(4, names),
    )
}

/// What opens every artifact of tests.
pub open spec fn tests_preamble() -> Seq<char> {
    head_text() + "#[macro_use]\nmod support;\nuse glam::*;\n\n"@
}

/// The artifact that tests the accessors of one element kind: the types of
/// 4, 3 and 2 components, and for the 32-bit float the SIMD-aligned
/// 3-component type before the plain one.
#[verifier::opaque]
pub open spec fn tests_artifact(kind: ElementKind) -> (Seq<char>, Seq<char>) {
    (
        "../tests/swizzles_"@ + kind.scalar()@ + ".rs"@,
        tests_preamble() + test_text(4, kind.scalar(), kind.builders()) + (if kind.has_simd() {
            test_text(3, kind.scalar(), aligned_builders())
        } else {
            Seq::empty()
        }) + test_text(3, kind.scalar(), kind.builders()) + test_text(
            2,
            kind.scalar(),
            kind.builders(),
        ),
    )
}

/// The artifacts that test the accessors, one for each element kind.
pub open spec fn tests_artifacts() -> Seq<(Seq<char>, Seq<char>)> {
    seq![
        tests_artifact(ElementKind::F32),
        tests_artifact(ElementKind::F64),
        tests_artifact(ElementKind::I32),
        tests_artifact(ElementKind::U32),
    ]
}

/// Everything that one run produces, in the order in which it is produced.
#[verifier::opaque]
pub open spec fn all_artifacts() -> Seq<(Seq<char>, Seq<char>)> {
    seq![traits_artifact()] + impl_artifacts(ElementKind::F32) + impl_artifacts(ElementKind::F64)
        + impl_artifacts(ElementKind::I32) + impl_artifacts(ElementKind::U32) + tests_artifacts()
}

/// A run produces 22 artifacts: the traits, 8 artifacts of definitions for the
/// 32-bit float and 3 for each other element kind, and 4 of tests.
pub proof fn law_artifact_total()
    ensures
        impl_artifacts(ElementKind::F32).len() == 8,
        forall|kind: ElementKind|
            kind != ElementKind::F32 ==> (#[trigger] impl_artifacts(kind)).len() == 3,
        tests_artifacts().len() == 4,
        all_artifacts().len() == 22,
{
    reveal(all_artifacts);
}

/// A run's result does not depend on the run: any two results hold the same
/// destinations with the same texts, in the same order.
pub proof fn law_runs_agree(first: Seq<Artifact>, second: Seq<Artifact>)
    requires
        views(first) == all_artifacts(),
        views(second) == all_artifacts(),
    ensures
        first.len() == second.len(),
        forall|i: int|
            0 <= i < first.len() ==> (#[trigger] first[i]).path@ == second[i].path@
                && first[i].text@ == second[i].text@,
{
    assert(views(first).len() == first.len());
    assert(views(second).len() == second.len());
    assert forall|i: int| 0 <= i < first.len() implies (#[trigger] first[i]).path@
        == second[i].path@ && first[i].text@ == second[i].text@ by {
        assert(views(first)[i] == first[i]@);
        assert(views(second)[i] == second[i]@);
    }
}

/// A list of artifacts without any.
fn no_artifacts() -> (list: Vec<Artifact>)
    ensures
        views(list@) == Seq::<(Seq<char>, Seq<char>)>::empty(),
{
    let list: Vec<Artifact> = Vec::new();
    assert(views(list@) =~= Seq::<(Seq<char>, Seq<char>)>::empty());
    list
}

/// Puts one more artifact at the end of a list.
fn keep(list: &mut Vec<Artifact>, made: Artifact)
    ensures
        views(final(list)@) == views(old(list)@).push(made@),
{
    list.push(made);
    assert(views(list@) =~= views(old(list)@).push(made@));
}

/// Puts the artifacts of a second list at the end of a first.
fn keep_all(list: &mut Vec<Artifact>, more: Vec<Artifact>)
    ensures
        views(final(list)@) == views(old(list)@) + views(more@),
{
    let mut more = more;
    let ghost added = more@;
    list.append(&mut more);
    assert(views(list@) =~= views(old(list)@) + views(added));
}

/// The artifact with the accessors of the type of `size` components among
/// `names` for one backend.
pub fn make_impl(backend: Backend, size: usize, names: &TypeNames, builders: &TypeNames) -> (made:
    Artifact)
    requires
        valid_dimension(size as int),
        backend_fits(backend, size as int),
    ensures
        made@ == impl_artifact(backend, size as int, *names, *builders),
{
    let mut path = String::new();
    path.append("../src/swizzles/");
    path.append(builders.name_of(size));
    path.append("_impl_");
    match backend {
        Backend::Generic => {
            path.append("scalar");
        },
        Backend::PackedShuffleImmediate => {
            path.append("sse2");
        },
        Backend::LanePairShuffle => {
            path.append("wasm32");
        },
    }
    path.append(".rs");
    let mut text = String::new();
    write_impl(&mut text, backend, size, names);
    reveal(impl_artifact);
    assert(path@ =~= impl_artifact(backend, size as int, *names, *builders).0);
    assert(text@ =~= impl_text(backend, size as int, *names));
    Artifact { path, text }
}

/// The artifacts with the accessors' definitions for one element kind.
pub fn write_swizzle_impls(kind: ElementKind) -> (made: Vec<Artifact>)
    ensures
        views(made@) == impl_artifacts(kind),
{
    let names = kind.type_names();
    let builders = kind.builder_names();
    let mut made = no_artifacts();
    keep(&mut made, make_impl(Backend::Generic, 4, &names, &builders));
    keep(&mut made, make_impl(Backend::Generic, 3, &names, &builders));
    keep(&mut made, make_impl(Backend::Generic, 2, &names, &builders));
    match kind {
        ElementKind::F32 => {
            let aligned = aligned_builder_names();
            let wide = simd_type_names(4);
            let narrow = simd_type_names(3);
            keep(&mut made, make_impl(Backend::Generic, 3, &narrow, &aligned));
            keep(&mut made, make_impl(Backend::PackedShuffleImmediate, 4, &wide, &builders));
            keep(&mut made, make_impl(Backend::PackedShuffleImmediate, 3, &narrow, &aligned));
            keep(&mut made, make_impl(Backend::LanePairShuffle, 4, &wide, &builders));
            keep(&mut made, make_impl(Backend::LanePairShuffle, 3, &narrow, &aligned));
        },
        _ => {},
    }
    made
}

/// The artifacts with the accessors' definitions for the 32-bit float.
pub fn write_swizzle_impls_f32() -> (made: Vec<Artifact>)
    ensures
        views(made@) == impl_artifacts(ElementKind::F32),
{
    write_swizzle_impls(ElementKind::F32)
}

/// The artifacts with the accessors' definitions for the 64-bit float.
pub fn write_swizzle_impls_f64() -> (made: Vec<Artifact>)
    ensures
        views(made@) == impl_artifacts(ElementKind::F64),
{
    write_swizzle_impls(ElementKind::F64)
}

/// The artifacts with the accessors' definitions for the signed integer.
pub fn write_swizzle_impls_i32() -> (made: Vec<Artifact>)
    ensures
        views(made@) == impl_artifacts(ElementKind::I32),
{
    write_swizzle_impls(ElementKind::I32)
}

/// The artifacts with the accessors' definitions for the unsigned integer.
pub fn write_swizzle_impls_u32() -> (made: Vec<Artifact>)
    ensures
        views(made@) == impl_artifacts(ElementKind::U32),
{
    write_swizzle_impls(ElementKind::U32)
}

/// The artifact that declares the accessors.
pub fn write_swizzle_traits() -> (made: Artifact)
    ensures
        made@ == traits_artifact(),
{
    let mut path = String::new();
    path.append("../src/swizzles/vec_traits.rs");
    let mut text = String::new();
    write_swizzle_head(&mut text);
    text.append("/** Swizzle methods for 2-dimensional vector types. */\n");
    write_swizzle_trait(&mut text, 2, "Vec4", "Vec3", "Vec2");
    text.append("/** Swizzle methods for 3-dimensional vector types. */\n");
    write_swizzle_trait(&mut text, 3, "Vec4", "Vec3", "Vec2");
    text.append("/** Swizzle methods for 4-dimensional vector types. */\n");
    write_swizzle_trait(&mut text, 4, "Vec4", "Vec3", "Vec2");
    reveal(traits_artifact);
    assert(path@ =~= traits_artifact().0);
    assert(text@ =~= traits_artifact().1);
    Artifact { path, text }
}

/// Appends what opens every artifact of tests.
pub fn write_swizzle_tests_preamble(out: &mut String)
    ensures
        final(out)@ == old(out)@ + tests_preamble(),
{
    write_swizzle_head(out);
    out.append("#[macro_use]\nmod support;\nuse glam::*;\n\n");
    assert(out@ =~= old(out)@ + tests_preamble());
}

/// The artifact that tests the accessors of one element kind.
pub fn make_tests(kind: ElementKind) -> (made: Artifact)
    ensures
        made@ == tests_artifact(kind),
{
    let t = kind.scalar_name();
    let b = kind.builder_names();
    let mut path = String::new();
    path.append("../tests/swizzles_");
    path.append(t);
    path.append(".rs");
    let mut text = String::new();
    write_swizzle_tests_preamble(&mut text);
    write_test_vec4(&mut text, t, b.vec4t, b.vec3t, b.vec2t);
    let ghost wide = text@;
    match kind {
        ElementKind::F32 => {
            let a = aligned_builder_names();
            write_test_vec3(&mut text, t, a.vec4t, a.vec3t, a.vec2t);
        },
        _ => {},
    }
    assert(text@ =~= wide + (if kind.has_simd() {
        test_text(3, kind.scalar(), aligned_builders())
    } else {
        Seq::empty()
    }));
    write_test_vec3(&mut text, t, b.vec4t, b.vec3t, b.vec2t);
    write_test_vec2(&mut text, t, b.vec4t, b.vec3t, b.vec2t);
    reveal(tests_artifact);
    assert(path@ =~= tests_artifact(kind).0);
    assert(text@ =~= tests_artifact(kind).1);
    Artifact { path, text }
}

/// The artifacts that test the accessors, one for each element kind.
pub fn write_swizzle_tests() -> (made: Vec<Artifact>)
    ensures
        views(made@) == tests_artifacts(),
{
    let mut made = no_artifacts();
    keep(&mut made, make_tests(ElementKind::F32));
    keep(&mut made, make_tests(ElementKind::F64));
    keep(&mut made, make_tests(ElementKind::I32));
    keep(&mut made, make_tests(ElementKind::U32));
    made
}

/// Everything that one run produces, in the order in which it is produced:
/// the traits, the definitions for each element kind, and the tests.
pub fn generate() -> (made: Vec<Artifact>)
    ensures
        views(made@) == all_artifacts(),
{
    let mut made = no_artifacts();
    keep(&mut made, write_swizzle_traits());
    keep_all(&mut made, write_swizzle_impls_f32());
    keep_all(&mut made, write_swizzle_impls_f64());
    keep_all(&mut made, write_swizzle_impls_i32());
    keep_all(&mut made, write_swizzle_impls_u32());
    keep_all(&mut made, write_swizzle_tests());
    reveal(all_artifacts);
    made
}

} // verus!
