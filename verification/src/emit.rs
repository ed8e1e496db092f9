//! The emitters: the text of one accessor, of all accessors of one source
//! dimension, and of the trait and impl blocks that hold them.

use vstd::prelude::*;
use crate::index::{
    all_swizzles, axes_of, in_range, is_identity_tuple, is_swizzle, lemma_power_bounds,
    lemma_swizzles_ends, lemma_swizzles_step, lemma_tuple_at, method_name, nth_tuple, power,
    swizzles, swizzles_upto, tuple_count, valid_dimension,
};
use crate::encode::{
    binary_literal, field_list, lane_list, packed_immediate, shuffle_immediate, value_list,
    write_binary_literal, write_field_list, write_lane_list, write_method_name, write_value_list,
};

verus! {

/// How a tuple becomes an expression.
#[derive(Clone, Copy, PartialEq, Eq, Debug)]
pub enum Backend {
    /// A constructor call on the receiver's fields, for every element kind.
    Generic,
    /// One 4-wide shuffle with a packed 8-bit immediate.
    PackedShuffleImmediate,
    /// One 4-wide shuffle of two operands with four lane arguments.
    LanePairShuffle,
}

/// The names of the 4-, 3- and 2-component types of one element kind.
#[derive(Clone, Copy, Debug)]
pub struct TypeNames<'a> {
    pub vec4t: &'a str,
    pub vec3t: &'a str,
    pub vec2t: &'a str,
}

impl<'a> TypeNames<'a> {
    /// The name of the type of `len` components.
    pub open spec fn of_len(self, len: int) -> Seq<char> {
        if len == 4 {
            self.vec4t@
        } else if len == 3 {
            self.vec3t@
        } else {
            self.vec2t@
        }
    }

    /// The name of the type of `len` components.
    pub fn name_of(&self, len: usize) -> (name: &'a str)
        ensures
            name@ == self.of_len(len as int),
    {
        if len == 4 {
            self.vec4t
        } else if len == 3 {
            self.vec3t
        } else {
            self.vec2t
        }
    }
}

/// What is written for each tuple of an enumeration.
#[derive(Clone, Copy, Debug)]
pub enum Template<'a> {
    /// The accessor's declaration in the trait.
    Signature,
    /// The accessor's definition for one backend and one family of types.
    Method(Backend, TypeNames<'a>),
    /// The test of the accessor, for a scalar's name and the names of the
    /// functions that build the vectors.
    Assertion(&'a str, TypeNames<'a>),
}

/// A SIMD backend shuffles four lanes: it serves sources of 3 and 4
/// components only.
pub open spec fn backend_fits(backend: Backend, size: int) -> bool {
    backend != Backend::Generic ==> size >= 3
}

/// Whether a template can be asked for on a source of `size` components.
pub open spec fn template_fits(template: Template, size: int) -> bool {
    match template {
        Template::Method(backend, _) => backend_fits(backend, size),
        _ => true,
    }
}

/// Whether a definition names its result `Self`: where the result has the
/// source's dimension, but for the 4-component types, which are named.
pub open spec fn self_typed(size: int, len: int) -> bool {
    len == size && size != 4
}

/// The result type of a definition.
pub open spec fn result_type(names: TypeNames, size: int, len: int) -> Seq<char> {
    if self_typed(size, len) {
        "Self"@
    } else {
        names.of_len(len)
    }
}

/// The result type of a declaration: `Self` where the result has the source's
/// dimension, else the associated type of the result's length.
pub open spec fn declared_type(size: int, len: int) -> Seq<char> {
    if len == size {
        "Self"@
    } else if len == 4 {
        "Self::Vec4"@
    } else if len == 3 {
        "Self::Vec3"@
    } else {
        "Self::Vec2"@
    }
}

/// What stands between a SIMD result's type and the shuffle: the 4-wide
/// register is taken as it is where the result is stored 4-wide, and
/// converted to the storage of 3 or 2 components elsewhere.
pub open spec fn conversion_open(size: int, len: int) -> Seq<char> {
    if len == 4 || self_typed(size, len) {
        "("@
    } else if len == 3 {
        "(XYZ::from("@
    } else {
        "(XY::from("@
    }
}

/// The brackets that close what `conversion_open` opened.
pub open spec fn conversion_close(size: int, len: int) -> Seq<char> {
    if len == 4 || self_typed(size, len) {
        ")"@
    } else {
        "))"@
    }
}

/// The expression that a backend uses for a tuple on a source of `size`
/// components.
pub open spec fn expression(backend: Backend, names: TypeNames, size: int, t: Seq<int>) -> Seq<
    char,
> {
    let len = t.len() as int;
    match backend {
        Backend::Generic => result_type(names, size, len) + "::new("@ + field_list(t) + ")"@,
        Backend::PackedShuffleImmediate => "unsafe { "@ + result_type(names, size, len)
            + conversion_open(size, len) + "_mm_shuffle_ps(self.0, self.0, "@ + binary_literal(
            shuffle_immediate(t),
        ) + ")"@ + conversion_close(size, len) + " }"@,
        Backend::LanePairShuffle => result_type(names, size, len) + conversion_open(size, len)
            + "i32x4_shuffle::<"@ + lane_list(t) + ">(self.0, self.0)"@ + conversion_close(
            size,
            len,
        ),
    }
}

/// The text that a template gives for one tuple.
pub open spec fn fragment(template: Template, size: int, t: Seq<int>) -> Seq<char> {
    let len = t.len() as int;
    match template {
        Template::Signature => "\n    fn "@ + method_name(t) + "(self) -> "@ + declared_type(
            size,
            len,
        ) + ";"@,
        Template::Method(backend, names) => "\n    #[inline]\n    fn "@ + method_name(t)
            + "(self) -> "@ + result_type(names, size, len) + " {\n        "@ + expression(
            backend,
            names,
            size,
            t,
        ) + "\n    }"@,
        Template::Assertion(scalar, names) => "    assert_eq!(v."@ + method_name(t) + "(), "@
            + names.of_len(len) + "("@ + value_list(t, scalar@) + "));\n"@,
    }
}

/// The text that a template gives for a list of tuples, one after the other.
pub open spec fn fragments(template: Template, size: int, ts: Seq<Seq<int>>) -> Seq<char>
    decreases ts.len(),
{
    if ts.len() == 0 {
        Seq::empty()
    } else {
        fragments(template, size, ts.drop_last()) + fragment(template, size, ts.last())
    }
}

/// The text for two lists of tuples in a row is the text for the first
/// followed by the text for the second.
pub proof fn lemma_fragments_concat(
    template: Template,
    size: int,
    a: Seq<Seq<int>>,
    b: Seq<Seq<int>>,
)
    ensures
        fragments(template, size, a + b) == fragments(template, size, a) + fragments(
            template,
            size,
            b,
        ),
    decreases b.len(),
{
    if b.len() == 0 {
        assert(a + b =~= a);
        assert(fragments(template, size, a) + Seq::<char>::empty() =~= fragments(
            template,
            size,
            a,
        ));
    } else {
        lemma_fragments_concat(template, size, a, b.drop_last());
        assert((a + b).drop_last() =~= a + b.drop_last());
        assert((a + b).last() == b.last());
        assert(fragments(template, size, a + b) =~= fragments(template, size, a) + fragments(
            template,
            size,
            b,
        ));
    }
}

/// Appends the result type of a definition.
pub fn write_result_type(out: &mut String, names: &TypeNames, size: usize, len: usize)
    ensures
        final(out)@ == old(out)@ + result_type(*names, size as int, len as int),
{
    if len == size && size != 4 {
        out.append("Self");
    } else {
        out.append(names.name_of(len));
    }
}

/// Appends what stands between a SIMD result's type and the shuffle.
pub fn write_conversion_open(out: &mut String, size: usize, len: usize)
    ensures
        final(out)@ == old(out)@ + conversion_open(size as int, len as int),
{
    if len == 4 || (len == size && size != 4) {
        out.append("(");
    } else if len == 3 {
        out.append("(XYZ::from(");
    } else {
        out.append("(XY::from(");
    }
}

/// Appends the brackets that close a SIMD result.
pub fn write_conversion_close(out: &mut String, size: usize, len: usize)
    ensures
        final(out)@ == old(out)@ + conversion_close(size as int, len as int),
{
    if len == 4 || (len == size && size != 4) {
        out.append(")");
    } else {
        out.append("))");
    }
}

/// Appends the generic backend's expression for a tuple: a constructor call
/// on the receiver's fields.
pub fn write_generic(out: &mut String, names: &TypeNames, size: usize, tuple: &Vec<usize>)
    requires
        valid_dimension(size as int),
        is_swizzle(axes_of(tuple@), size as int),
    ensures
        final(out)@ == old(out)@ + expression(
            Backend::Generic,
            *names,
            size as int,
            axes_of(tuple@),
        ),
{
    assert(in_range(axes_of(tuple@), 4));
    write_result_type(out, names, size, tuple.len());
    out.append("::new(");
    write_field_list(out, tuple);
    out.append(")");
    assert(out@ =~= old(out)@ + expression(
        Backend::Generic,
        *names,
        size as int,
        axes_of(tuple@),
    ));
}

/// Appends the packed-shuffle backend's expression for a tuple: one shuffle
/// of the receiver with itself by the tuple's immediate.
pub fn write_packed_shuffle(out: &mut String, names: &TypeNames, size: usize, tuple: &Vec<usize>)
    requires
        3 <= size <= 4,
        is_swizzle(axes_of(tuple@), size as int),
    ensures
        final(out)@ == old(out)@ + expression(
            Backend::PackedShuffleImmediate,
            *names,
            size as int,
            axes_of(tuple@),
        ),
{
    let len = tuple.len();
    assert(is_swizzle(axes_of(tuple@), 4));
    out.append("unsafe { ");
    write_result_type(out, names, size, len);
    write_conversion_open(out, size, len);
    out.append("_mm_shuffle_ps(self.0, self.0, ");
    write_binary_literal(out, packed_immediate(tuple));
    out.append(")");
    write_conversion_close(out, size, len);
    out.append(" }");
    assert(out@ =~= old(out)@ + expression(
        Backend::PackedShuffleImmediate,
        *names,
        size as int,
        axes_of(tuple@),
    ));
}

/// Appends the lane-pair backend's expression for a tuple: one shuffle of the
/// receiver with itself by the tuple's four lane arguments.
pub fn write_lane_pair_shuffle(
    out: &mut String,
    names: &TypeNames,
    size: usize,
    tuple: &Vec<usize>,
)
    requires
        3 <= size <= 4,
        is_swizzle(axes_of(tuple@), size as int),
    ensures
        final(out)@ == old(out)@ + expression(
            Backend::LanePairShuffle,
            *names,
            size as int,
            axes_of(tuple@),
        ),
{
    let len = tuple.len();
    assert(is_swizzle(axes_of(tuple@), 4));
    write_result_type(out, names, size, len);
    write_conversion_open(out, size, len);
    out.append("i32x4_shuffle::<");
    write_lane_list(out, tuple);
    out.append(">(self.0, self.0)");
    write_conversion_close(out, size, len);
    assert(out@ =~= old(out)@ + expression(
        Backend::LanePairShuffle,
        *names,
        size as int,
        axes_of(tuple@),
    ));
}

/// Appends the expression that a backend uses for a tuple.
pub fn write_expression(
    out: &mut String,
    backend: Backend,
    names: &TypeNames,
    size: usize,
    tuple: &Vec<usize>,
)
    requires
        valid_dimension(size as int),
        is_swizzle(axes_of(tuple@), size as int),
        backend_fits(backend, size as int),
    ensures
        final(out)@ == old(out)@ + expression(backend, *names, size as int, axes_of(tuple@)),
{
    match backend {
        Backend::Generic => write_generic(out, names, size, tuple),
        Backend::PackedShuffleImmediate => write_packed_shuffle(out, names, size, tuple),
        Backend::LanePairShuffle => write_lane_pair_shuffle(out, names, size, tuple),
    }
}

/// The expression that a backend uses for a tuple on a source of `size`
/// components.
pub fn encode(backend: Backend, names: &TypeNames, size: usize, tuple: &Vec<usize>) -> (text:
    String)
    requires
        valid_dimension(size as int),
        is_swizzle(axes_of(tuple@), size as int),
        backend_fits(backend, size as int),
    ensures
        text@ == expression(backend, *names, size as int, axes_of(tuple@)),
{
    let mut text = String::new();
    write_expression(&mut text, backend, names, size, tuple);
    assert(text@ =~= expression(backend, *names, size as int, axes_of(tuple@)));
    text
}

/// Appends what a template gives for one tuple.
pub fn write_fragment(out: &mut String, template: &Template, size: usize, tuple: &Vec<usize>)
    requires
        valid_dimension(size as int),
        is_swizzle(axes_of(tuple@), size as int),
        template_fits(*template, size as int),
    ensures
        final(out)@ == old(out)@ + fragment(*template, size as int, axes_of(tuple@)),
{
    let len = tuple.len();
    assert(in_range(axes_of(tuple@), 4));
    match template {
        Template::Signature => {
            out.append("\n    fn ");
            write_method_name(out, tuple);
            out.append("(self) -> ");
            if len == size {
                out.append("Self");
            } else if len == 4 {
                out.append("Self::Vec4");
            } else if len == 3 {
                out.append("Self::Vec3");
            } else {
                out.append("Self::Vec2");
            }
            out.append(";");
        },
        Template::Method(backend, names) => {
            out.append("\n    #[inline]\n    fn ");
            write_method_name(out, tuple);
            out.append("(self) -> ");
            write_result_type(out, names, size, len);
            out.append(" {\n        ");
            write_expression(out, *backend, names, size, tuple);
            out.append("\n    }");
        },
        Template::Assertion(scalar, names) => {
            out.append("    assert_eq!(v.");
            write_method_name(out, tuple);
            out.append("(), ");
            out.append(names.name_of(len));
            out.append("(");
            write_value_list(out, tuple, scalar);
            out.append("));\n");
        },
    }
    assert(out@ =~= old(out)@ + fragment(*template, size as int, axes_of(tuple@)));
}

/// Appends what a template gives for every tuple of length `len` but the
/// identity, in enumeration order.
pub fn write_swizzles(out: &mut String, size: usize, len: usize, template: &Template)
    requires
        valid_dimension(size as int),
        valid_dimension(len as int),
        template_fits(*template, size as int),
    ensures
        final(out)@ == old(out)@ + fragments(
            *template,
            size as int,
            swizzles(size as int, len as nat),
        ),
{
    let total = tuple_count(size, len);
    let mut rank: usize = 0;
    proof {
        lemma_power_bounds(size as int, len as nat);
        lemma_swizzles_ends(size as int, len as nat);
        assert(out@ =~= old(out)@ + fragments(
            *template,
            size as int,
            swizzles_upto(size as int, len as nat, 0),
        ));
    }
    while rank < total
        invariant
            valid_dimension(size as int),
            valid_dimension(len as int),
            template_fits(*template, size as int),
            rank <= total,
            total == power(size as int, len as nat),
            out@ == old(out)@ + fragments(
                *template,
                size as int,
                swizzles_upto(size as int, len as nat, rank as int),
            ),
        decreases total - rank,
    {
        let tuple = nth_tuple(size, len, rank);
        proof {
            lemma_tuple_at(size as int, len as nat, rank as int);
            lemma_swizzles_step(size as int, len as nat, rank as int);
        }
        if !is_identity_tuple(&tuple, size) {
            write_fragment(out, template, size, &tuple);
            proof {
                let before = swizzles_upto(size as int, len as nat, rank as int);
                let after = swizzles_upto(size as int, len as nat, rank + 1);
                assert(after.drop_last() =~= before);
                assert(out@ =~= old(out)@ + fragments(*template, size as int, after));
            }
        }
        rank = rank + 1;
    }
    proof {
        lemma_swizzles_ends(size as int, len as nat);
    }
}

/// Appends what a template gives for every 4-tuple but the identity.
pub fn write_loops_vec4(out: &mut String, size: usize, template: &Template)
    requires
        valid_dimension(size as int),
        template_fits(*template, size as int),
    ensures
        final(out)@ == old(out)@ + fragments(*template, size as int, swizzles(size as int, 4)),
{
    write_swizzles(out, size, 4, template);
}

/// Appends what a template gives for every 3-tuple but the identity.
pub fn write_loops_vec3(out: &mut String, size: usize, template: &Template)
    requires
        valid_dimension(size as int),
        template_fits(*template, size as int),
    ensures
        final(out)@ == old(out)@ + fragments(*template, size as int, swizzles(size as int, 3)),
{
    write_swizzles(out, size, 3, template);
}

/// Appends what a template gives for every 2-tuple but the identity.
pub fn write_loops_vec2(out: &mut String, size: usize, template: &Template)
    requires
        valid_dimension(size as int),
        template_fits(*template, size as int),
    ensures
        final(out)@ == old(out)@ + fragments(*template, size as int, swizzles(size as int, 2)),
{
    write_swizzles(out, size, 2, template);
}

/// Appends what a template gives for every accessor of a source of `size`
/// components: the 4-tuples, then the 3-tuples, then the 2-tuples.
pub fn write_loops(out: &mut String, size: usize, template: &Template)
    requires
        valid_dimension(size as int),
        template_fits(*template, size as int),
    ensures
        final(out)@ == old(out)@ + fragments(*template, size as int, all_swizzles(size as int)),
{
    write_loops_vec4(out, size, template);
    write_loops_vec3(out, size, template);
    write_loops_vec2(out, size, template);
    proof {
        let s = size as int;
        lemma_fragments_concat(*template, s, swizzles(s, 4), swizzles(s, 3));
        lemma_fragments_concat(*template, s, swizzles(s, 4) + swizzles(s, 3), swizzles(s, 2));
        assert(out@ =~= old(out)@ + fragments(*template, s, all_swizzles(s)));
    }
}

} // verus!
