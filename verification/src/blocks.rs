//! The trait that declares the accessors of one source dimension, and the
//! impl blocks that define them for one backend and one family of types.

use vstd::prelude::*;
use crate::index::{all_swizzles, identity, identity_tuple, method_name, valid_dimension};
use crate::encode::{digit_char, digit_name, lemma_append, write_method_name};
use crate::emit::{backend_fits, fragments, write_loops, Backend, Template, TypeNames};

verus! {

/// The line that opens every source artifact.
pub open spec fn head_text() -> Seq<char> {
    "// Generated by swizzlegen. Do not edit.\n"@
}

/// The declarations of the trait's associated types: one for each result
/// length other than the source's dimension.
pub open spec fn associated_types(size: int) -> Seq<char> {
    (if size != 2 {
        "    type Vec2;\n"@
    } else {
        Seq::empty()
    }) + (if size != 3 {
        "    type Vec3;\n"@
    } else {
        Seq::empty()
    }) + (if size != 4 {
        "    type Vec4;\n"@
    } else {
        Seq::empty()
    })
}

/// The accessor of the identity tuple, which hands the receiver back. It is
/// defined once, in the trait.
pub open spec fn identity_method(size: int) -> Seq<char> {
    "\n    #[inline]\n    fn "@ + method_name(identity_tuple(size))
        + "(self) -> Self {\n        self\n    }\n"@
}

/// The trait of the accessors of a source of `size` components.
pub open spec fn trait_text(size: int, names: TypeNames) -> Seq<char> {
    "pub trait "@ + names.of_len(size) + "Swizzles: Sized + Copy + Clone {\n"@ + associated_types(
        size,
    ) + identity_method(size) + fragments(Template::Signature, size, all_swizzles(size))
        + "\n}\n"@
}

/// The names that an impl block brings into scope beside the vector types:
/// the storage types that a SIMD backend converts to.
pub open spec fn storage_imports(backend: Backend, size: int) -> Seq<char> {
    if backend == Backend::Generic {
        Seq::empty()
    } else if size == 4 {
        ", XY, XYZ"@
    } else {
        ", XY"@
    }
}

/// The import of the intrinsics that a SIMD backend calls.
pub open spec fn intrinsics_import(backend: Backend) -> Seq<char> {
    match backend {
        Backend::Generic => Seq::empty(),
        Backend::PackedShuffleImmediate =>
            "\n#[cfg(target_arch = \"x86\")]\nuse core::arch::x86::*;\n#[cfg(target_arch = \"x86_64\")]\nuse core::arch::x86_64::*;\n"@,
        Backend::LanePairShuffle => "\nuse core::arch::wasm32::*;\n"@,
    }
}

/// The bindings of the trait's associated types in an impl block.
pub open spec fn associated_bindings(size: int, names: TypeNames) -> Seq<char> {
    (if size != 2 {
        "    type Vec2 = "@ + names.vec2t@ + ";\n"@
    } else {
        Seq::empty()
    }) + (if size != 3 {
        "    type Vec3 = "@ + names.vec3t@ + ";\n"@
    } else {
        Seq::empty()
    }) + (if size != 4 {
        "    type Vec4 = "@ + names.vec4t@ + ";\n"@
    } else {
        Seq::empty()
    })
}

/// The imports of an impl block: the trait, the vector types, and what the
/// backend needs beside them.
pub open spec fn imports_text(backend: Backend, size: int, names: TypeNames) -> Seq<char> {
    "\nuse super::Vec"@ + seq![digit_char(size)] + "Swizzles;\nuse crate::{"@ + names.vec2t@
        + ", "@ + names.vec3t@ + ", "@ + names.vec4t@ + storage_imports(backend, size) + "};\n"@
        + intrinsics_import(backend)
}

/// The line that opens the impl block of the type of `size` components.
pub open spec fn impl_open(size: int, names: TypeNames) -> Seq<char> {
    "\nimpl Vec"@ + seq![digit_char(size)] + "Swizzles for "@ + names.of_len(size) + " {\n"@
}

/// A whole artifact that defines the accessors of the type of `size`
/// components among `names`, for one backend.
pub open spec fn impl_text(backend: Backend, size: int, names: TypeNames) -> Seq<char> {
    head_text() + imports_text(backend, size, names) + impl_open(size, names)
        + associated_bindings(size, names) + fragments(
        Template::Method(backend, names),
        size,
        all_swizzles(size),
    ) + "\n}\n"@
}

/// The names of the single-precision float types, whose 3- and 4-component
/// types have SIMD backends.
pub open spec fn simd_names(size: int) -> TypeNames<'static> {
    TypeNames { vec4t: "Vec4", vec3t: if size == 3 { "Vec3A" } else { "Vec3" }, vec2t: "Vec2" }
}

/// Appends the line that opens every source artifact.
pub fn write_swizzle_head(out: &mut String)
    ensures
        final(out)@ == old(out)@ + head_text(),
{
    out.append("// Generated by swizzlegen. Do not edit.\n");
}

/// Appends the trait of the accessors of a source of `size` components: its
/// associated types, the identity accessor, and one declaration for every
/// other tuple.
pub fn write_swizzle_trait(out: &mut String, size: usize, vec4t: &str, vec3t: &str, vec2t: &str)
    requires
        valid_dimension(size as int),
    ensures
        final(out)@ == old(out)@ + trait_text(
            size as int,
            (TypeNames { vec4t, vec3t, vec2t }),
        ),
{
    let names = TypeNames { vec4t, vec3t, vec2t };
    out.append("pub trait ");
    out.append(names.name_of(size));
    out.append("Swizzles: Sized + Copy + Clone {\n");
    let ghost opened = out@;
    if size != 2 {
        out.append("    type Vec2;\n");
    }
    if size != 3 {
        out.append("    type Vec3;\n");
    }
    if size != 4 {
        out.append("    type Vec4;\n");
    }
    assert(out@ =~= opened + associated_types(size as int));
    let ghost typed = out@;
    out.append("\n    #[inline]\n    fn ");
    let id = identity(size);
    write_method_name(out, &id);
    out.append("(self) -> Self {\n        self\n    }\n");
    assert(out@ =~= typed + identity_method(size as int));
    write_loops(out, size, &Template::Signature);
    out.append("\n}\n");
    assert(out@ =~= old(out)@ + trait_text(size as int, names));
}

/// Appends the imports of an impl block.
pub fn write_imports(out: &mut String, backend: Backend, size: usize, names: &TypeNames)
    requires
        valid_dimension(size as int),
    ensures
        final(out)@ == old(out)@ + imports_text(backend, size as int, *names),
{
    out.append("\nuse super::Vec");
    out.append(digit_name(size));
    out.append("Swizzles;\nuse crate::{");
    out.append(names.vec2t);
    out.append(", ");
    out.append(names.vec3t);
    out.append(", ");
    out.append(names.vec4t);
    let ghost listed = out@;
    match backend {
        Backend::Generic => {},
        _ => {
            if size == 4 {
                out.append(", XY, XYZ");
            } else {
                out.append(", XY");
            }
        },
    }
    assert(out@ =~= listed + storage_imports(backend, size as int));
    out.append("};\n");
    let ghost imported = out@;
    match backend {
        Backend::Generic => {},
        Backend::PackedShuffleImmediate => {
            out.append(
                "\n#[cfg(target_arch = \"x86\")]\nuse core::arch::x86::*;\n#[cfg(target_arch = \"x86_64\")]\nuse core::arch::x86_64::*;\n",
            );
        },
        Backend::LanePairShuffle => {
            out.append("\nuse core::arch::wasm32::*;\n");
        },
    }
    assert(out@ =~= imported + intrinsics_import(backend));
    assert(out@ =~= old(out)@ + imports_text(backend, size as int, *names));
}

/// Appends the bindings of the trait's associated types.
pub fn write_associated_bindings(out: &mut String, size: usize, names: &TypeNames)
    ensures
        final(out)@ == old(out)@ + associated_bindings(size as int, *names),
{
    if size != 2 {
        out.append("    type Vec2 = ");
        out.append(names.vec2t);
        out.append(";\n");
    }
    if size != 3 {
        out.append("    type Vec3 = ");
        out.append(names.vec3t);
        out.append(";\n");
    }
    if size != 4 {
        out.append("    type Vec4 = ");
        out.append(names.vec4t);
        out.append(";\n");
    }
    assert(out@ =~= old(out)@ + associated_bindings(size as int, *names));
}

/// Appends the line that opens the impl block of the type of `size`
/// components.
pub fn write_impl_open(out: &mut String, size: usize, names: &TypeNames)
    requires
        valid_dimension(size as int),
    ensures
        final(out)@ == old(out)@ + impl_open(size as int, *names),
{
    out.append("\nimpl Vec");
    out.append(digit_name(size));
    out.append("Swizzles for ");
    out.append(names.name_of(size));
    out.append(" {\n");
    assert(out@ =~= old(out)@ + impl_open(size as int, *names));
}

/// Appends a whole artifact that defines the accessors of the type of `size`
/// components among `names`, for one backend.
pub fn write_impl(out: &mut String, backend: Backend, size: usize, names: &TypeNames)
    requires
        valid_dimension(size as int),
        backend_fits(backend, size as int),
    ensures
        final(out)@ == old(out)@ + impl_text(backend, size as int, *names),
{
    let ghost base = old(out)@;
    let ghost s = size as int;
    let ghost head = head_text();
    let ghost imported = head + imports_text(backend, s, *names);
    let ghost opened = imported + impl_open(s, *names);
    let ghost bound = opened + associated_bindings(s, *names);
    let ghost filled = bound + fragments(Template::Method(backend, *names), s, all_swizzles(s));
    write_swizzle_head(out);
    write_imports(out, backend, size, names);
    proof {
        lemma_append(base, head, imports_text(backend, s, *names));
    }
    write_impl_open(out, size, names);
    proof {
        lemma_append(base, imported, impl_open(s, *names));
    }
    write_associated_bindings(out, size, names);
    proof {
        lemma_append(base, opened, associated_bindings(s, *names));
    }
    write_loops(out, size, &Template::Method(backend, *names));
    proof {
        lemma_append(
            base,
            bound,
            fragments(Template::Method(backend, *names), s, all_swizzles(s)),
        );
    }
    out.append("\n}\n");
    proof {
        lemma_append(base, filled, "\n}\n"@);
    }
}

/// Appends the artifact that defines the accessors of a 4-component type by
/// constructor calls.
pub fn write_vec4_impl_scalar(out: &mut String, vec4t: &str, vec3t: &str, vec2t: &str)
    ensures
        final(out)@ == old(out)@ + impl_text(
            Backend::Generic,
            4,
            (TypeNames { vec4t, vec3t, vec2t }),
        ),
{
    write_impl(out, Backend::Generic, 4, &TypeNames { vec4t, vec3t, vec2t });
}

/// Appends the artifact that defines the accessors of a 3-component type by
/// constructor calls.
pub fn write_vec3_impl_scalar(out: &mut String, vec4t: &str, vec3t: &str, vec2t: &str)
    ensures
        final(out)@ == old(out)@ + impl_text(
            Backend::Generic,
            3,
            (TypeNames { vec4t, vec3t, vec2t }),
        ),
{
    write_impl(out, Backend::Generic, 3, &TypeNames { vec4t, vec3t, vec2t });
}

/// Appends the artifact that defines the accessors of a 2-component type by
/// constructor calls.
pub fn write_vec2_impl_scalar(out: &mut String, vec4t: &str, vec3t: &str, vec2t: &str)
    ensures
        final(out)@ == old(out)@ + impl_text(
            Backend::Generic,
            2,
            (TypeNames { vec4t, vec3t, vec2t }),
        ),
{
    write_impl(out, Backend::Generic, 2, &TypeNames { vec4t, vec3t, vec2t });
}

/// The names of the single-precision float types for a SIMD impl of the type
/// of `size` components.
pub fn simd_type_names(size: usize) -> (names: TypeNames<'static>)
    ensures
        names == simd_names(size as int),
{
    TypeNames { vec4t: "Vec4", vec3t: if size == 3 { "Vec3A" } else { "Vec3" }, vec2t: "Vec2" }
}

/// Appends the artifact that defines the accessors of `Vec4` by packed
/// shuffle immediates.
pub fn write_vec4_impl_sse2(out: &mut String)
    ensures
        final(out)@ == old(out)@ + impl_text(Backend::PackedShuffleImmediate, 4, simd_names(4)),
{
    write_impl(out, Backend::PackedShuffleImmediate, 4, &simd_type_names(4));
}

/// Appends the artifact that defines the accessors of `Vec3A` by packed
/// shuffle immediates.
pub fn write_vec3a_impl_sse2(out: &mut String)
    ensures
        final(out)@ == old(out)@ + impl_text(Backend::PackedShuffleImmediate, 3, simd_names(3)),
{
    write_impl(out, Backend::PackedShuffleImmediate, 3, &simd_type_names(3));
}

/// Appends the artifact that defines the accessors of `Vec4` by lane-pair
/// shuffles.
pub fn write_vec4_impl_wasm32(out: &mut String)
    ensures
        final(out)@ == old(out)@ + impl_text(Backend::LanePairShuffle, 4, simd_names(4)),
{
    write_impl(out, Backend::LanePairShuffle, 4, &simd_type_names(4));
}

/// Appends the artifact that defines the accessors of `Vec3A` by lane-pair
/// shuffles.
pub fn write_vec3a_impl_wasm32(out: &mut String)
    ensures
        final(out)@ == old(out)@ + impl_text(Backend::LanePairShuffle, 3, simd_names(3)),
{
    write_impl(out, Backend::LanePairShuffle, 3, &simd_type_names(3));
}

} // verus!
