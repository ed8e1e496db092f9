//! The test emitter: for one source dimension, a test that calls every
//! accessor on a fixed receiver and states the vector that it must return.

use vstd::prelude::*;
use crate::index::{all_swizzles, identity, identity_tuple, method_name, valid_dimension};
use crate::encode::{value_list, write_method_name, write_value_list};
use crate::emit::{fragments, write_loops, Template, TypeNames};

verus! {

/// The test of the accessors of the type of `size` components. The receiver
/// holds 1, 2, 3, 4 on its axes, as far as it has them; `names` are the
/// functions that build the vectors, and `scalar` types the literals.
pub open spec fn test_text(size: int, scalar: &str, names: TypeNames) -> Seq<char> {
    "\nglam_test!(test_"@ + names.of_len(size) + "_swizzles, {\n    let v = "@ + names.of_len(size)
        + "("@ + value_list(identity_tuple(size), scalar@) + ");\n"@ + "    assert_eq!(v, v."@
        + method_name(identity_tuple(size)) + "());\n"@ + fragments(
        Template::Assertion(scalar, names),
        size,
        all_swizzles(size),
    ) + "});\n"@
}

/// Appends one assertion for every accessor of a source of `size` components
/// but the identity, in the order in which the accessors are defined.
pub fn write_test_loops(
    out: &mut String,
    size: usize,
    t: &str,
    vec4t: &str,
    vec3t: &str,
    vec2t: &str,
)
    requires
        valid_dimension(size as int),
    ensures
        final(out)@ == old(out)@ + fragments(
            Template::Assertion(t, (TypeNames { vec4t, vec3t, vec2t })),
            size as int,
            all_swizzles(size as int),
        ),
{
    write_loops(out, size, &Template::Assertion(t, TypeNames { vec4t, vec3t, vec2t }));
}

/// Appends the test of the accessors of the type of `size` components.
pub fn write_test(out: &mut String, size: usize, t: &str, vec4t: &str, vec3t: &str, vec2t: &str)
    requires
        valid_dimension(size as int),
    ensures
        final(out)@ == old(out)@ + test_text(size as int, t, (TypeNames { vec4t, vec3t, vec2t })),
{
    let names = TypeNames { vec4t, vec3t, vec2t };
    let id = identity(size);
    out.append("\nglam_test!(test_");
    out.append(names.name_of(size));
    out.append("_swizzles, {\n    let v = ");
    out.append(names.name_of(size));
    out.append("(");
    write_value_list(out, &id, t);
    out.append(");\n");
    out.append("    assert_eq!(v, v.");
    write_method_name(out, &id);
    out.append("());\n");
    write_test_loops(out, size, t, vec4t, vec3t, vec2t);
    out.append("});\n");
    assert(out@ =~= old(out)@ + test_text(size as int, t, names));
}

/// Appends the test of the accessors of a 4-component type.
pub fn write_test_vec4(out: &mut String, t: &str, vec4t: &str, vec3t: &str, vec2t: &str)
    ensures
        final(out)@ == old(out)@ + test_text(4, t, (TypeNames { vec4t, vec3t, vec2t })),
{
    write_test(out, 4, t, vec4t, vec3t, vec2t);
}

/// Appends the test of the accessors of a 3-component type.
pub fn write_test_vec3(out: &mut String, t: &str, vec4t: &str, vec3t: &str, vec2t: &str)
    ensures
        final(out)@ == old(out)@ + test_text(3, t, (TypeNames { vec4t, vec3t, vec2t })),
{
    write_test(out, 3, t, vec4t, vec3t, vec2t);
}

/// Appends the test of the accessors of a 2-component type.
pub fn write_test_vec2(out: &mut String, t: &str, vec4t: &str, vec3t: &str, vec2t: &str)
    ensures
        final(out)@ == old(out)@ + test_text(2, t, (TypeNames { vec4t, vec3t, vec2t })),
{
    write_test(out, 2, t, vec4t, vec3t, vec2t);
}

} // verus!
