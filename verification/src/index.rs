//! The index domain: swizzle tuples, their enumeration order and the identity.

use vstd::prelude::*;
use vstd::arithmetic::div_mod::{lemma_div_denominator, lemma_fundamental_div_mod_converse};

verus! {

/// A source or result dimension: 2, 3 or 4 components.
pub open spec fn valid_dimension(d: int) -> bool {
    2 <= d <= 4
}

/// `base` raised to `exp`.
pub open spec fn power(base: int, exp: nat) -> int
    decreases exp,
{
    if exp == 0 {
        1
    } else {
        base * power(base, (exp - 1) as nat)
    }
}

/// The axis indices that a vector of indices stands for.
pub open spec fn axes_of(v: Seq<usize>) -> Seq<int> {
    Seq::new(v.len(), |i: int| v[i] as int)
}

/// A tuple whose indices all name an axis of a source of `size` components.
pub open spec fn in_range(t: Seq<int>, size: int) -> bool {
    forall|i: int| 0 <= i < t.len() ==> 0 <= #[trigger] t[i] < size
}

/// A swizzle tuple: 2 to 4 indices, each below the source dimension.
pub open spec fn is_swizzle(t: Seq<int>, size: int) -> bool {
    2 <= t.len() <= 4 && in_range(t, size)
}

/// The tuple that reads the source's components in their own order.
pub open spec fn is_identity(t: Seq<int>, size: int) -> bool {
    t.len() == size && forall|i: int| 0 <= i < t.len() ==> #[trigger] t[i] == i
}

/// The tuple at position `rank` of the enumeration of all tuples of length
/// `len`: the digits of `rank` in base `size`, the last position being the
/// least significant, so that it varies fastest.
pub open spec fn tuple_at(size: int, len: nat, rank: int) -> Seq<int>
    decreases len,
{
    if len == 0 {
        Seq::empty()
    } else {
        tuple_at(size, (len - 1) as nat, rank / size).push(rank % size)
    }
}

/// The position of a tuple in the enumeration: its value as a number in base
/// `size`.
pub open spec fn rank_of(size: int, t: Seq<int>) -> int
    decreases t.len(),
{
    if t.len() == 0 {
        0
    } else {
        rank_of(size, t.drop_last()) * size + t.last()
    }
}

/// Every tuple of length `len` over `size` axes, in enumeration order.
pub open spec fn all_tuples(size: int, len: nat) -> Seq<Seq<int>> {
    Seq::new(power(size, len) as nat, |rank: int| tuple_at(size, len, rank))
}

/// The test that keeps a tuple in the output: it is not the identity.
pub open spec fn overridden(size: int) -> spec_fn(Seq<int>) -> bool {
    |t: Seq<int>| !is_identity(t, size)
}

/// The tuples among the first `n` of the enumeration that get an accessor.
pub open spec fn swizzles_upto(size: int, len: nat, n: int) -> Seq<Seq<int>> {
    all_tuples(size, len).take(n).filter(overridden(size))
}

/// The tuples of length `len` that get an accessor, in the order in which they
/// are emitted.
pub open spec fn swizzles(size: int, len: nat) -> Seq<Seq<int>> {
    all_tuples(size, len).filter(overridden(size))
}

/// Every tuple that gets an accessor on a source of `size` components: the
/// 4-tuples first, then the 3-tuples, then the 2-tuples.
pub open spec fn all_swizzles(size: int) -> Seq<Seq<int>> {
    swizzles(size, 4) + swizzles(size, 3) + swizzles(size, 2)
}

/// The identity tuple of a source of `size` components.
pub open spec fn identity_tuple(size: int) -> Seq<int> {
    Seq::new(size as nat, |i: int| i)
}

/// The name of the axis at index `axis`.
pub open spec fn axis_char(axis: int) -> char {
    if axis == 0 {
        'x'
    } else if axis == 1 {
        'y'
    } else if axis == 2 {
        'z'
    } else {
        'w'
    }
}

/// The name of the accessor of a tuple: its axes' names in the tuple's order.
pub open spec fn method_name(t: Seq<int>) -> Seq<char> {
    Seq::new(t.len(), |i: int| axis_char(t[i]))
}

/// Lexicographic order on tuples of one length: at the first position where
/// they differ, `s` holds the smaller index.
pub open spec fn precedes(s: Seq<int>, t: Seq<int>) -> bool {
    exists|p: int|
        0 <= p < s.len() && s[p] < t[p] && forall|k: int| 0 <= k < p ==> s[k] == t[k]
}

/// The tuples that a list of index vectors stands for.
pub open spec fn tuples_of(list: Seq<Vec<usize>>) -> Seq<Seq<int>> {
    Seq::new(list.len(), |k: int| axes_of(list[k]@))
}

/// The powers that count tuples fit a machine integer: at most 4 to the
/// power 4.
pub proof fn lemma_power_bounds(size: int, len: nat)
    requires
        1 <= size <= 4,
        len <= 4,
    ensures
        1 <= power(size, len) <= 256,
        power(size, len) <= power(4, len),
    decreases len,
{
    reveal_with_fuel(power, 6);
    if len > 0 {
        lemma_power_bounds(size, (len - 1) as nat);
        let p = power(size, (len - 1) as nat);
        let q = power(4, (len - 1) as nat);
        assert(1 <= size * p <= 4 * q) by (nonlinear_arith)
            requires
                1 <= size <= 4,
                1 <= p <= q,
        ;
    }
}

/// Each tuple of the enumeration has the asked length and indices in range,
/// and stands at its own rank.
pub proof fn lemma_tuple_at(size: int, len: nat, rank: int)
    requires
        size > 0,
        0 <= rank < power(size, len),
    ensures
        tuple_at(size, len, rank).len() == len,
        in_range(tuple_at(size, len, rank), size),
        rank_of(size, tuple_at(size, len, rank)) == rank,
    decreases len,
{
    if len > 0 {
        let q = rank / size;
        let p = power(size, (len - 1) as nat);
        assert(0 <= q < p && rank == q * size + rank % size && 0 <= rank % size < size)
            by (nonlinear_arith)
            requires
                size > 0,
                0 <= rank < size * p,
                q == rank / size,
        ;
        lemma_tuple_at(size, (len - 1) as nat, q);
        let t = tuple_at(size, len, rank);
        assert(t.drop_last() =~= tuple_at(size, (len - 1) as nat, q));
    }
}

/// A tuple with indices in range is the one that the enumeration holds at the
/// tuple's rank.
pub proof fn lemma_rank_of(size: int, t: Seq<int>)
    requires
        size > 0,
        in_range(t, size),
    ensures
        0 <= rank_of(size, t) < power(size, t.len()),
        tuple_at(size, t.len(), rank_of(size, t)) == t,
    decreases t.len(),
{
    if t.len() > 0 {
        let head = t.drop_last();
        let d = t.last();
        lemma_rank_of(size, head);
        let r = rank_of(size, head);
        let p = power(size, head.len());
        assert(0 <= r * size + d < size * p) by (nonlinear_arith)
            requires
                size > 0,
                0 <= r < p,
                0 <= d < size,
        ;
        lemma_fundamental_div_mod_converse(r * size + d, size, r, d);
        assert(tuple_at(size, t.len(), rank_of(size, t)) =~= t);
    }
}

/// One more position of the enumeration adds its tuple to the emitted ones,
/// unless that tuple is the identity.
pub proof fn lemma_swizzles_step(size: int, len: nat, n: int)
    requires
        0 <= n < power(size, len),
    ensures
        swizzles_upto(size, len, n + 1) == if is_identity(tuple_at(size, len, n), size) {
            swizzles_upto(size, len, n)
        } else {
            swizzles_upto(size, len, n).push(tuple_at(size, len, n))
        },
{
    let all = all_tuples(size, len);
    let next = all.take(n + 1);
    assert(next.drop_last() =~= all.take(n));
    assert(next.last() == tuple_at(size, len, n));
    reveal(Seq::filter);
}

/// Before the first position nothing is emitted; after the last, everything
/// that gets an accessor.
pub proof fn lemma_swizzles_ends(size: int, len: nat)
    requires
        0 <= power(size, len),
    ensures
        swizzles_upto(size, len, 0) == Seq::<Seq<int>>::empty(),
        swizzles_upto(size, len, power(size, len)) == swizzles(size, len),
{
    let all = all_tuples(size, len);
    assert(all.take(power(size, len)) =~= all);
    assert(all.take(0) =~= Seq::<Seq<int>>::empty());
    reveal(Seq::filter);
}

/// Among the first `n` tuples of the enumeration all are emitted but the
/// identity, which only stands there when the length is the dimension.
pub proof fn lemma_count_upto(size: int, len: nat, n: int)
    requires
        size > 0,
        0 <= n <= power(size, len),
    ensures
        swizzles_upto(size, len, n).len() == if len == size && rank_of(
            size,
            identity_tuple(size),
        ) < n {
            n - 1
        } else {
            n
        },
    decreases n,
{
    let id = identity_tuple(size);
    if len == size {
        lemma_rank_of(size, id);
        assert(is_identity(id, size));
    }
    if n == 0 {
        lemma_swizzles_ends(size, len);
    } else {
        lemma_count_upto(size, len, n - 1);
        lemma_swizzles_step(size, len, n - 1);
        lemma_tuple_at(size, len, n - 1);
        let t = tuple_at(size, len, n - 1);
        if is_identity(t, size) {
            assert(t =~= id);
        }
    }
}

/// The emitted tuples among the first `n` have the asked length and indices
/// in range, and stand by rising rank.
pub proof fn lemma_ranks_upto(size: int, len: nat, n: int)
    requires
        size > 0,
        0 <= n <= power(size, len),
    ensures
        forall|i: int|
            0 <= i < swizzles_upto(size, len, n).len() ==> {
                let t = #[trigger] swizzles_upto(size, len, n)[i];
                &&& t.len() == len
                &&& in_range(t, size)
                &&& !is_identity(t, size)
                &&& 0 <= rank_of(size, t) < n
            },
        forall|i: int, j: int|
            0 <= i < j < swizzles_upto(size, len, n).len() ==> rank_of(
                size,
                #[trigger] swizzles_upto(size, len, n)[i],
            ) < rank_of(size, #[trigger] swizzles_upto(size, len, n)[j]),
    decreases n,
{
    if n == 0 {
        lemma_swizzles_ends(size, len);
    } else {
        lemma_ranks_upto(size, len, n - 1);
        lemma_swizzles_step(size, len, n - 1);
        lemma_tuple_at(size, len, n - 1);
    }
}

/// The number of accessors of length `len` on a source of `size` components
/// is `size` to the power `len`, less the one identity where the length is
/// the dimension.
pub proof fn law_swizzle_count(size: int, len: nat)
    requires
        valid_dimension(size),
        valid_dimension(len as int),
    ensures
        swizzles(size, len).len() == if len == size {
            power(size, len) - 1
        } else {
            power(size, len)
        },
{
    lemma_power_bounds(size, len);
    lemma_swizzles_ends(size, len);
    lemma_count_upto(size, len, power(size, len));
    if len == size {
        lemma_rank_of(size, identity_tuple(size));
    }
}

/// Every emitted tuple is a swizzle tuple of the asked length and not the
/// identity, and no tuple is emitted twice.
pub proof fn law_swizzles_distinct(size: int, len: nat)
    requires
        valid_dimension(size),
        valid_dimension(len as int),
    ensures
        forall|i: int|
            0 <= i < swizzles(size, len).len() ==> {
                let t = #[trigger] swizzles(size, len)[i];
                &&& t.len() == len
                &&& is_swizzle(t, size)
                &&& !is_identity(t, size)
            },
        forall|i: int, j: int|
            0 <= i < j < swizzles(size, len).len() ==> #[trigger] swizzles(size, len)[i]
                != #[trigger] swizzles(size, len)[j],
{
    lemma_power_bounds(size, len);
    lemma_swizzles_ends(size, len);
    lemma_ranks_upto(size, len, power(size, len));
}

/// Two tuples over at most four axes with one accessor name are one tuple.
pub proof fn lemma_method_name_injective(a: Seq<int>, b: Seq<int>)
    requires
        in_range(a, 4),
        in_range(b, 4),
        method_name(a) == method_name(b),
    ensures
        a == b,
{
    assert(method_name(a).len() == a.len());
    assert(method_name(b).len() == b.len());
    assert forall|i: int| 0 <= i < a.len() implies a[i] == b[i] by {
        assert(method_name(a)[i] == axis_char(a[i]));
        assert(method_name(b)[i] == axis_char(b[i]));
    }
    assert(a =~= b);
}

/// Within one artifact no accessor name occurs twice: any two of the tuples
/// emitted for one source dimension, whatever their lengths, differ, and so do
/// their names.
pub proof fn law_method_names_unique(size: int)
    requires
        valid_dimension(size),
    ensures
        forall|i: int, j: int|
            0 <= i < j < all_swizzles(size).len() ==> {
                &&& #[trigger] all_swizzles(size)[i] != #[trigger] all_swizzles(size)[j]
                &&& method_name(all_swizzles(size)[i]) != method_name(all_swizzles(size)[j])
            },
{
    law_swizzles_distinct(size, 4);
    law_swizzles_distinct(size, 3);
    law_swizzles_distinct(size, 2);
    let all = all_swizzles(size);
    let n4 = swizzles(size, 4).len() as int;
    let n3 = swizzles(size, 3).len() as int;
    assert forall|i: int, j: int| 0 <= i < j < all.len() implies {
        &&& #[trigger] all[i] != #[trigger] all[j]
        &&& method_name(all[i]) != method_name(all[j])
    } by {
        let a = all[i];
        let b = all[j];
        assert(a == if i < n4 {
            swizzles(size, 4)[i]
        } else if i < n4 + n3 {
            swizzles(size, 3)[i - n4]
        } else {
            swizzles(size, 2)[i - n4 - n3]
        });
        assert(b == if j < n4 {
            swizzles(size, 4)[j]
        } else if j < n4 + n3 {
            swizzles(size, 3)[j - n4]
        } else {
            swizzles(size, 2)[j - n4 - n3]
        });
        assert(a != b);
        if method_name(a) == method_name(b) {
            lemma_method_name_injective(a, b);
        }
    }
}

/// Every swizzle tuple but the identity gets an accessor: none is skipped.
pub proof fn law_every_swizzle_emitted(size: int, t: Seq<int>)
    requires
        valid_dimension(size),
        is_swizzle(t, size),
        !is_identity(t, size),
    ensures
        swizzles(size, t.len()).contains(t),
        all_swizzles(size).contains(t),
{
    lemma_rank_of(size, t);
    let rank = rank_of(size, t);
    let all = all_tuples(size, t.len());
    assert(all[rank] == t);
    all.lemma_filter_contains(overridden(size), rank);
    let kept = swizzles(size, t.len());
    let k = choose|k: int| 0 <= k < kept.len() && kept[k] == t;
    let n4 = swizzles(size, 4).len() as int;
    let n3 = swizzles(size, 3).len() as int;
    if t.len() == 4 {
        assert(all_swizzles(size)[k] == t);
    } else if t.len() == 3 {
        assert(all_swizzles(size)[n4 + k] == t);
    } else {
        assert(all_swizzles(size)[n4 + n3 + k] == t);
    }
}

/// A source of `size` components has `size` to the powers 4, 3 and 2
/// accessors, less the identity.
pub proof fn law_accessor_total(size: int)
    requires
        valid_dimension(size),
    ensures
        all_swizzles(size).len() == power(size, 4) + power(size, 3) + power(size, 2) - 1,
{
    law_swizzle_count(size, 4);
    law_swizzle_count(size, 3);
    law_swizzle_count(size, 2);
}

/// A tuple of the enumeration has the asked length.
pub proof fn lemma_tuple_len(size: int, len: nat, rank: int)
    ensures
        tuple_at(size, len, rank).len() == len,
    decreases len,
{
    if len > 0 {
        lemma_tuple_len(size, (len - 1) as nat, rank / size);
    }
}

/// A power of a positive base is positive.
pub proof fn lemma_power_positive(base: int, exp: nat)
    requires
        base > 0,
    ensures
        power(base, exp) > 0,
    decreases exp,
{
    if exp > 0 {
        lemma_power_positive(base, (exp - 1) as nat);
        let p = power(base, (exp - 1) as nat);
        assert(base * p > 0) by (nonlinear_arith)
            requires
                base > 0,
                p > 0,
        ;
    }
}

/// The index at a position of the tuple at `rank` is a digit of `rank` in
/// base `size`: the last position holds the lowest digit, and each position
/// before it the next higher one.
pub proof fn law_tuple_digits(size: int, len: nat, rank: int, i: int)
    requires
        size > 0,
        0 <= rank,
        0 <= i < len,
    ensures
        tuple_at(size, len, rank).len() == len,
        tuple_at(size, len, rank)[i] == (rank / power(size, (len - 1 - i) as nat)) % size,
    decreases len,
{
    lemma_tuple_len(size, len, rank);
    if i == len - 1 {
        assert(power(size, 0) == 1);
    } else {
        let rest = (len - 1) as nat;
        let weight = power(size, (rest - 1 - i) as nat);
        lemma_tuple_len(size, rest, rank / size);
        lemma_power_positive(size, (rest - 1 - i) as nat);
        assert(0 <= rank / size) by (nonlinear_arith)
            requires
                size > 0,
                0 <= rank,
        ;
        law_tuple_digits(size, rest, rank / size, i);
        lemma_div_denominator(rank, size, weight);
        assert(power(size, (len - 1 - i) as nat) == size * weight);
    }
}

/// The enumeration is in lexicographic order, the first position varying
/// slowest: of two ranks the lower one holds the tuple that precedes.
pub proof fn law_enumeration_order(size: int, len: nat, a: int, b: int)
    requires
        size > 0,
        0 <= a < b < power(size, len),
    ensures
        precedes(tuple_at(size, len, a), tuple_at(size, len, b)),
    decreases len,
{
    if len > 0 {
        let rest = (len - 1) as nat;
        let s = tuple_at(size, len, a);
        let t = tuple_at(size, len, b);
        let p = power(size, rest);
        lemma_tuple_len(size, rest, a / size);
        lemma_tuple_len(size, rest, b / size);
        assert(0 <= a / size <= b / size < p && a == (a / size) * size + a % size && b == (b
            / size) * size + b % size && 0 <= a % size < size && 0 <= b % size < size)
            by (nonlinear_arith)
            requires
                size > 0,
                0 <= a < b < size * p,
        ;
        if a / size == b / size {
            assert(tuple_at(size, rest, a / size) == tuple_at(size, rest, b / size));
            let last = rest as int;
            assert(s[last] < t[last]);
            assert(forall|k: int| 0 <= k < last ==> s[k] == t[k]);
        } else {
            law_enumeration_order(size, rest, a / size, b / size);
            let hs = tuple_at(size, rest, a / size);
            let ht = tuple_at(size, rest, b / size);
            let at = choose|at: int|
                0 <= at < hs.len() && hs[at] < ht[at] && forall|k: int|
                    0 <= k < at ==> hs[k] == ht[k];
            assert(s[at] == hs[at] && t[at] == ht[at]);
            assert forall|k: int| 0 <= k < at implies s[k] == t[k] by {
                assert(s[k] == hs[k] && t[k] == ht[k]);
            }
        }
    }
}

/// The accessors of one length are emitted in lexicographic order of their
/// tuples.
pub proof fn law_emitted_in_order(size: int, len: nat)
    requires
        valid_dimension(size),
        valid_dimension(len as int),
    ensures
        forall|i: int, j: int|
            0 <= i < j < swizzles(size, len).len() ==> precedes(
                #[trigger] swizzles(size, len)[i],
                #[trigger] swizzles(size, len)[j],
            ),
{
    lemma_power_bounds(size, len);
    lemma_swizzles_ends(size, len);
    lemma_ranks_upto(size, len, power(size, len));
    let kept = swizzles(size, len);
    assert forall|i: int, j: int| 0 <= i < j < kept.len() implies precedes(
        #[trigger] kept[i],
        #[trigger] kept[j],
    ) by {
        lemma_rank_of(size, kept[i]);
        lemma_rank_of(size, kept[j]);
        law_enumeration_order(size, len, rank_of(size, kept[i]), rank_of(size, kept[j]));
    }
}

/// The number of tuples of length `len` over `size` axes, as a machine
/// integer.
pub fn tuple_count(size: usize, len: usize) -> (n: usize)
    requires
        valid_dimension(size as int),
        len <= 4,
    ensures
        n == power(size as int, len as nat),
{
    let mut n: usize = 1;
    let mut i: usize = 0;
    while i < len
        invariant
            valid_dimension(size as int),
            i <= len <= 4,
            n == power(size as int, i as nat),
        decreases len - i,
    {
        proof {
            lemma_power_bounds(size as int, i as nat);
            lemma_power_bounds(size as int, (i + 1) as nat);
            assert(power(size as int, (i + 1) as nat) == size * power(size as int, i as nat));
            assert(n * size == size * n) by (nonlinear_arith);
        }
        n = n * size;
        i = i + 1;
    }
    n
}

/// The tuple at position `rank` of the enumeration.
pub fn nth_tuple(size: usize, len: usize, rank: usize) -> (t: Vec<usize>)
    requires
        size > 0,
    ensures
        t@.len() == len,
        axes_of(t@) == tuple_at(size as int, len as nat, rank as int),
    decreases len,
{
    if len == 0 {
        let t: Vec<usize> = Vec::new();
        assert(axes_of(t@) =~= Seq::<int>::empty());
        t
    } else {
        let mut t = nth_tuple(size, len - 1, rank / size);
        let ghost before = t@;
        t.push(rank % size);
        assert(axes_of(t@) =~= axes_of(before).push((rank % size) as int));
        t
    }
}

/// Every tuple of length `len` over the axes of a source of `size`
/// components, in enumeration order: the first position varies slowest, the
/// last fastest.
pub fn axes(size: usize, len: usize) -> (list: Vec<Vec<usize>>)
    requires
        valid_dimension(size as int),
        len <= 4,
    ensures
        tuples_of(list@) == all_tuples(size as int, len as nat),
{
    let total = tuple_count(size, len);
    let mut list: Vec<Vec<usize>> = Vec::new();
    let mut rank: usize = 0;
    while rank < total
        invariant
            size > 0,
            rank <= total,
            total == power(size as int, len as nat),
            list@.len() == rank,
            forall|k: int|
                0 <= k < rank ==> axes_of(#[trigger] list@[k]@) == tuple_at(
                    size as int,
                    len as nat,
                    k,
                ),
        decreases total - rank,
    {
        list.push(nth_tuple(size, len, rank));
        rank = rank + 1;
    }
    assert(tuples_of(list@) =~= all_tuples(size as int, len as nat));
    list
}

/// Whether `tuple` reads the components of a source of `size` components in
/// their own order.
pub fn is_identity_tuple(tuple: &Vec<usize>, size: usize) -> (b: bool)
    ensures
        b == is_identity(axes_of(tuple@), size as int),
{
    if tuple.len() != size {
        return false;
    }
    let mut i: usize = 0;
    while i < tuple.len()
        invariant
            i <= tuple.len(),
            forall|j: int| 0 <= j < i ==> #[trigger] axes_of(tuple@)[j] == j,
        decreases tuple.len() - i,
    {
        if tuple[i] != i {
            assert(axes_of(tuple@)[i as int] != i);
            return false;
        }
        i = i + 1;
    }
    true
}

/// The identity tuple of a source of `size` components.
pub fn identity(size: usize) -> (t: Vec<usize>)
    ensures
        t@.len() == size,
        axes_of(t@) == identity_tuple(size as int),
{
    let mut t: Vec<usize> = Vec::new();
    let mut i: usize = 0;
    while i < size
        invariant
            i <= size,
            t@.len() == i,
            forall|j: int| 0 <= j < i ==> #[trigger] t@[j] == j,
        decreases size - i,
    {
        t.push(i);
        i = i + 1;
    }
    assert(axes_of(t@) =~= identity_tuple(size as int));
    t
}

} // verus!
