//! The backend encoders: from one swizzle tuple to the expression that one
//! backend uses for it.

use vstd::prelude::*;
use crate::index::{axes_of, axis_char, in_range, is_swizzle, method_name};

verus! {

/// The decimal digit for `d`, which is below 8.
pub open spec fn digit_char(d: int) -> char {
    if d == 0 {
        '0'
    } else if d == 1 {
        '1'
    } else if d == 2 {
        '2'
    } else if d == 3 {
        '3'
    } else if d == 4 {
        '4'
    } else if d == 5 {
        '5'
    } else if d == 6 {
        '6'
    } else {
        '7'
    }
}

/// The two binary digits of a lane index.
pub open spec fn bit_pair(lane: int) -> Seq<char> {
    seq![digit_char(lane / 2), digit_char(lane % 2)]
}

/// The items of a list, with a comma and a blank between neighbours.
pub open spec fn joined(items: Seq<Seq<char>>) -> Seq<char>
    decreases items.len(),
{
    if items.len() == 0 {
        Seq::empty()
    } else if items.len() == 1 {
        items[0]
    } else {
        joined(items.drop_last()) + ", "@ + items.last()
    }
}

/// Text appended to what was appended before: the base does not matter.
pub proof fn lemma_append(base: Seq<char>, done: Seq<char>, more: Seq<char>)
    ensures
        (base + done) + more == base + (done + more),
{
    assert((base + done) + more =~= base + (done + more));
}

/// What one more item adds to a joined list.
pub proof fn lemma_joined_step(items: Seq<Seq<char>>, i: int)
    requires
        0 <= i < items.len(),
    ensures
        joined(items.take(i + 1)) == if i == 0 {
            items[i]
        } else {
            joined(items.take(i)) + ", "@ + items[i]
        },
{
    assert(items.take(i + 1).drop_last() =~= items.take(i));
}

/// The source's field that holds the axis.
pub open spec fn field_item(axis: int) -> Seq<char> {
    "self."@.push(axis_char(axis))
}

/// The arguments of the generic backend's constructor call: one field of the
/// receiver for each position of the tuple.
pub open spec fn field_list(t: Seq<int>) -> Seq<char> {
    joined(Seq::new(t.len(), |i: int| field_item(t[i])))
}

/// The literal that a test's receiver holds on the axis: one more than the
/// axis index, typed by the scalar's name.
pub open spec fn value_item(axis: int, scalar: Seq<char>) -> Seq<char> {
    seq![digit_char(axis + 1)] + "_"@ + scalar
}

/// The components that a test expects of the accessor of a tuple.
pub open spec fn value_list(t: Seq<int>, scalar: Seq<char>) -> Seq<char> {
    joined(Seq::new(t.len(), |i: int| value_item(t[i], scalar)))
}

/// The index in lane `i` of the 4-wide shuffle that stands for a tuple: the
/// tuple's index at that position, and 0 in the lanes that the tuple leaves
/// unused.
pub open spec fn lane(t: Seq<int>, i: int) -> int {
    if 0 <= i < t.len() {
        t[i]
    } else {
        0
    }
}

/// The packed shuffle immediate of a tuple: four fields of two bits, lane 0
/// in the lowest.
pub open spec fn shuffle_immediate(t: Seq<int>) -> int {
    lane(t, 0) + 4 * lane(t, 1) + 16 * lane(t, 2) + 64 * lane(t, 3)
}

/// A byte written as a binary literal in four groups of two bits, the highest
/// first.
pub open spec fn binary_literal(v: int) -> Seq<char> {
    "0b"@ + bit_pair(v / 64) + "_"@ + bit_pair(v / 16 % 4) + "_"@ + bit_pair(v / 4 % 4) + "_"@
        + bit_pair(v % 4)
}

/// Whether an argument of the lane-pair shuffle selects from the second
/// operand: 1 for the positions 2 and 3, 0 for the positions 0 and 1.
pub open spec fn range_flag(position: int) -> int {
    if position >= 2 {
        1
    } else {
        0
    }
}

/// The four lane arguments of the lane-pair shuffle of a tuple. The first two
/// select from the first operand, the last two from the second, whose lanes
/// are numbered from 4; an unused slot holds the second operand's lane 0.
pub open spec fn lane_arguments(t: Seq<int>) -> Seq<int> {
    Seq::new(4, |i: int| lane(t, i) + 4 * range_flag(i))
}

/// The lane arguments as they stand between the angle brackets.
pub open spec fn lane_list(t: Seq<int>) -> Seq<char> {
    joined(Seq::new(4, |i: int| seq![digit_char(lane_arguments(t)[i])]))
}

/// The low two bits for each position of a tuple of the packed shuffle
/// immediate, read from the least significant end, are the tuple's index at
/// that position, and all bits above them are zero.
pub proof fn law_shuffle_immediate_fields(t: Seq<int>)
    requires
        is_swizzle(t, 4),
    ensures
        0 <= shuffle_immediate(t) < 256,
        forall|i: int|
            0 <= i < t.len() ==> ((shuffle_immediate(t) as u32) >> ((2 * i) as u32)) & 3
                == #[trigger] t[i],
        (shuffle_immediate(t) as u32) >> ((2 * t.len()) as u32) == 0,
{
    let a = lane(t, 0) as u32;
    let b = lane(t, 1) as u32;
    let c = lane(t, 2) as u32;
    let d = lane(t, 3) as u32;
    assert(0 <= t[0] < 4 && 0 <= t[1] < 4);
    if t.len() > 2 {
        assert(0 <= t[2] < 4);
    }
    if t.len() > 3 {
        assert(0 <= t[3] < 4);
    }
    let v = (a + 4 * b + 16 * c + 64 * d) as u32;
    assert(v == shuffle_immediate(t));
    assert((v >> 0) & 3 == a && (v >> 2) & 3 == b && (v >> 4) & 3 == c && (v >> 6) & 3 == d && v
        >> 8 == 0) by (bit_vector)
        requires
            a < 4 && b < 4 && c < 4 && d < 4,
            v == a + 4 * b + 16 * c + 64 * d,
    ;
    assert(d == 0 ==> v >> 6 == 0) by (bit_vector)
        requires
            a < 4 && b < 4 && c < 4 && d < 4,
            v == a + 4 * b + 16 * c + 64 * d,
    ;
    assert(d == 0 && c == 0 ==> v >> 4 == 0) by (bit_vector)
        requires
            a < 4 && b < 4 && c < 4 && d < 4,
            v == a + 4 * b + 16 * c + 64 * d,
    ;
    assert forall|i: int| 0 <= i < t.len() implies ((shuffle_immediate(t) as u32) >> ((2
        * i) as u32)) & 3 == #[trigger] t[i] by {
        assert(i == 0 || i == 1 || i == 2 || i == 3);
    }
}

/// The four groups of the immediate's literal are the tuple's lanes, lane 3
/// first and lane 0 last; the lanes that the tuple leaves unused read `00`.
pub proof fn law_immediate_text(t: Seq<int>)
    requires
        is_swizzle(t, 4),
    ensures
        binary_literal(shuffle_immediate(t)) == "0b"@ + bit_pair(lane(t, 3)) + "_"@ + bit_pair(
            lane(t, 2),
        ) + "_"@ + bit_pair(lane(t, 1)) + "_"@ + bit_pair(lane(t, 0)),
        forall|i: int| t.len() <= i < 4 ==> bit_pair(#[trigger] lane(t, i)) == seq!['0', '0'],
{
    assert(0 <= t[0] < 4 && 0 <= t[1] < 4);
    if t.len() > 2 {
        assert(0 <= t[2] < 4);
    }
    if t.len() > 3 {
        assert(0 <= t[3] < 4);
    }
    let v = shuffle_immediate(t);
    assert(v / 64 == lane(t, 3));
    assert(v / 16 % 4 == lane(t, 2));
    assert(v / 4 % 4 == lane(t, 1));
    assert(v % 4 == lane(t, 0));
}

/// Each of the four lane arguments lies in 0 to 3 where its position selects
/// from the first operand (positions 0 and 1) and in 4 to 7 where it selects
/// from the second (positions 2 and 3). At a position of the tuple the
/// argument, less 4 times the range flag, is the tuple's index there; the
/// slots past the tuple's end hold 4.
pub proof fn law_lane_arguments(t: Seq<int>)
    requires
        is_swizzle(t, 4),
    ensures
        lane_arguments(t).len() == 4,
        forall|i: int|
            0 <= i < 4 ==> {
                &&& range_flag(i) == 0 ==> 0 <= #[trigger] lane_arguments(t)[i] <= 3
                &&& range_flag(i) == 1 ==> 4 <= lane_arguments(t)[i] <= 7
            },
        forall|i: int|
            0 <= i < t.len() ==> #[trigger] lane_arguments(t)[i] - 4 * range_flag(i) == t[i],
        forall|i: int| t.len() <= i < 4 ==> #[trigger] lane_arguments(t)[i] == 4,
{
}

/// The name of an axis.
pub fn axis_name(axis: usize) -> (name: &'static str)
    requires
        axis < 4,
    ensures
        name@ == seq![axis_char(axis as int)],
{
    proof {
        reveal_strlit("x");
        reveal_strlit("y");
        reveal_strlit("z");
        reveal_strlit("w");
    }
    let name = if axis == 0 {
        "x"
    } else if axis == 1 {
        "y"
    } else if axis == 2 {
        "z"
    } else {
        "w"
    };
    assert(name@ =~= seq![axis_char(axis as int)]);
    name
}

/// The decimal digit for a number below 8.
pub fn digit_name(d: usize) -> (name: &'static str)
    requires
        d < 8,
    ensures
        name@ == seq![digit_char(d as int)],
{
    proof {
        reveal_strlit("0");
        reveal_strlit("1");
        reveal_strlit("2");
        reveal_strlit("3");
        reveal_strlit("4");
        reveal_strlit("5");
        reveal_strlit("6");
        reveal_strlit("7");
    }
    let name = if d == 0 {
        "0"
    } else if d == 1 {
        "1"
    } else if d == 2 {
        "2"
    } else if d == 3 {
        "3"
    } else if d == 4 {
        "4"
    } else if d == 5 {
        "5"
    } else if d == 6 {
        "6"
    } else {
        "7"
    };
    assert(name@ =~= seq![digit_char(d as int)]);
    name
}

/// The two binary digits of a lane index.
pub fn bit_pair_name(lane: u8) -> (name: &'static str)
    requires
        lane < 4,
    ensures
        name@ == bit_pair(lane as int),
{
    proof {
        reveal_strlit("00");
        reveal_strlit("01");
        reveal_strlit("10");
        reveal_strlit("11");
    }
    let name = if lane == 0 {
        "00"
    } else if lane == 1 {
        "01"
    } else if lane == 2 {
        "10"
    } else {
        "11"
    };
    assert(name@ =~= bit_pair(lane as int));
    name
}

/// Appends the accessor's name of a tuple.
pub fn write_method_name(out: &mut String, tuple: &Vec<usize>)
    requires
        in_range(axes_of(tuple@), 4),
    ensures
        final(out)@ == old(out)@ + method_name(axes_of(tuple@)),
{
    let ghost name = method_name(axes_of(tuple@));
    let mut i: usize = 0;
    assert(out@ =~= old(out)@ + name.take(0));
    while i < tuple.len()
        invariant
            i <= tuple.len(),
            in_range(axes_of(tuple@), 4),
            name == method_name(axes_of(tuple@)),
            out@ == old(out)@ + name.take(i as int),
        decreases tuple.len() - i,
    {
        assert(0 <= axes_of(tuple@)[i as int] < 4);
        out.append(axis_name(tuple[i]));
        assert(name.take(i + 1) =~= name.take(i as int).push(axis_char(tuple[i as int] as int)));
        assert(out@ =~= old(out)@ + name.take(i + 1));
        i = i + 1;
    }
    assert(name.take(i as int) =~= name);
}

/// Appends the generic backend's constructor arguments for a tuple.
pub fn write_field_list(out: &mut String, tuple: &Vec<usize>)
    requires
        in_range(axes_of(tuple@), 4),
    ensures
        final(out)@ == old(out)@ + field_list(axes_of(tuple@)),
{
    let ghost t = axes_of(tuple@);
    let ghost items = Seq::new(t.len(), |i: int| field_item(t[i]));
    let mut i: usize = 0;
    assert(out@ =~= old(out)@ + joined(items.take(0)));
    while i < tuple.len()
        invariant
            i <= tuple.len(),
            t == axes_of(tuple@),
            in_range(t, 4),
            items == Seq::new(t.len(), |i: int| field_item(t[i])),
            out@ == old(out)@ + joined(items.take(i as int)),
        decreases tuple.len() - i,
    {
        proof {
            lemma_joined_step(items, i as int);
            assert(0 <= t[i as int] < 4);
        }
        if i > 0 {
            out.append(", ");
        }
        out.append("self.");
        out.append(axis_name(tuple[i]));
        assert(out@ =~= old(out)@ + joined(items.take(i + 1))) by {
            assert(items[i as int] =~= "self."@ + seq![axis_char(t[i as int])]);
            assert(joined(items.take(0)) =~= Seq::<char>::empty());
        }
        i = i + 1;
    }
    assert(items.take(i as int) =~= items);
}

/// Appends the components that a test expects of a tuple's accessor, each
/// typed by `scalar`.
pub fn write_value_list(out: &mut String, tuple: &Vec<usize>, scalar: &str)
    requires
        in_range(axes_of(tuple@), 4),
    ensures
        final(out)@ == old(out)@ + value_list(axes_of(tuple@), scalar@),
{
    let ghost t = axes_of(tuple@);
    let ghost items = Seq::new(t.len(), |i: int| value_item(t[i], scalar@));
    let mut i: usize = 0;
    assert(out@ =~= old(out)@ + joined(items.take(0)));
    while i < tuple.len()
        invariant
            i <= tuple.len(),
            t == axes_of(tuple@),
            in_range(t, 4),
            items == Seq::new(t.len(), |i: int| value_item(t[i], scalar@)),
            out@ == old(out)@ + joined(items.take(i as int)),
        decreases tuple.len() - i,
    {
        proof {
            lemma_joined_step(items, i as int);
            assert(0 <= t[i as int] < 4);
        }
        if i > 0 {
            out.append(", ");
        }
        out.append(digit_name(tuple[i] + 1));
        out.append("_");
        out.append(scalar);
        assert(out@ =~= old(out)@ + joined(items.take(i + 1))) by {
            assert(items[i as int] == value_item(t[i as int], scalar@));
            assert(joined(items.take(0)) =~= Seq::<char>::empty());
        }
        i = i + 1;
    }
    assert(items.take(i as int) =~= items);
}

/// The index that a tuple puts in lane `i` of a 4-wide shuffle.
pub fn lane_of(tuple: &Vec<usize>, i: usize) -> (l: usize)
    ensures
        l == lane(axes_of(tuple@), i as int),
{
    if i < tuple.len() {
        tuple[i]
    } else {
        0
    }
}

/// The packed shuffle immediate of a tuple.
pub fn packed_immediate(tuple: &Vec<usize>) -> (imm: u8)
    requires
        is_swizzle(axes_of(tuple@), 4),
    ensures
        imm == shuffle_immediate(axes_of(tuple@)),
{
    let ghost t = axes_of(tuple@);
    assert(0 <= t[0] < 4 && 0 <= t[1] < 4);
    assert(tuple.len() > 2 ==> 0 <= t[2] < 4);
    assert(tuple.len() > 3 ==> 0 <= t[3] < 4);
    let imm: usize = lane_of(tuple, 0) + 4 * lane_of(tuple, 1) + 16 * lane_of(tuple, 2) + 64
        * lane_of(tuple, 3);
    imm as u8
}

/// Appends a byte as a binary literal in four groups of two bits.
pub fn write_binary_literal(out: &mut String, v: u8)
    ensures
        final(out)@ == old(out)@ + binary_literal(v as int),
{
    out.append("0b");
    out.append(bit_pair_name(v / 64));
    out.append("_");
    out.append(bit_pair_name(v / 16 % 4));
    out.append("_");
    out.append(bit_pair_name(v / 4 % 4));
    out.append("_");
    out.append(bit_pair_name(v % 4));
    assert(out@ =~= old(out)@ + binary_literal(v as int));
}

/// The four lane arguments of the lane-pair shuffle of a tuple.
pub fn lane_pair_arguments(tuple: &Vec<usize>) -> (args: Vec<usize>)
    requires
        is_swizzle(axes_of(tuple@), 4),
    ensures
        args@.len() == 4,
        axes_of(args@) == lane_arguments(axes_of(tuple@)),
{
    let ghost t = axes_of(tuple@);
    assert(0 <= t[0] < 4 && 0 <= t[1] < 4);
    assert(tuple.len() > 2 ==> 0 <= t[2] < 4);
    assert(tuple.len() > 3 ==> 0 <= t[3] < 4);
    let mut args: Vec<usize> = Vec::new();
    args.push(lane_of(tuple, 0));
    args.push(lane_of(tuple, 1));
    args.push(lane_of(tuple, 2) + 4);
    args.push(lane_of(tuple, 3) + 4);
    assert(axes_of(args@) =~= lane_arguments(t));
    args
}

/// Appends the four lane arguments of the lane-pair shuffle of a tuple.
pub fn write_lane_list(out: &mut String, tuple: &Vec<usize>)
    requires
        is_swizzle(axes_of(tuple@), 4),
    ensures
        final(out)@ == old(out)@ + lane_list(axes_of(tuple@)),
{
    let ghost t = axes_of(tuple@);
    let ghost items = Seq::new(4, |i: int| seq![digit_char(lane_arguments(t)[i])]);
    let args = lane_pair_arguments(tuple);
    proof {
        law_lane_arguments(t);
        lemma_joined_step(items, 0);
        lemma_joined_step(items, 1);
        lemma_joined_step(items, 2);
        lemma_joined_step(items, 3);
        assert(items.take(4) =~= items);
        assert(forall|i: int| 0 <= i < 4 ==> axes_of(args@)[i] == args@[i] as int);
        assert(0 <= t[0] < 4 && 0 <= t[1] < 4);
        assert(tuple.len() > 2 ==> 0 <= t[2] < 4);
        assert(tuple.len() > 3 ==> 0 <= t[3] < 4);
    }
    out.append(digit_name(args[0]));
    out.append(", ");
    out.append(digit_name(args[1]));
    out.append(", ");
    out.append(digit_name(args[2]));
    out.append(", ");
    out.append(digit_name(args[3]));
    assert(out@ =~= old(out)@ + lane_list(t));
}

} // verus!
