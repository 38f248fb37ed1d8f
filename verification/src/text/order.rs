//! The order of names: by code point, character after character.

use vstd::prelude::*;

verus! {

/// Whether `a` stands before `b`: at the first place where they differ `a` has
/// the smaller code point, or `a` ends there and `b` goes on.
pub open spec fn text_lt(a: Seq<char>, b: Seq<char>) -> bool
    decreases a.len(),
{
    if b.len() == 0 {
        false
    } else if a.len() == 0 {
        true
    } else if a[0] != b[0] {
        (a[0] as int) < (b[0] as int)
    } else {
        text_lt(a.drop_first(), b.drop_first())
    }
}

/// How one text stands to another in that order.
#[derive(Clone, Copy, Debug, PartialEq, Eq, Structural)]
pub enum Rank {
    Before,
    Same,
    After,
}

/// What [`rank`] answers for `a` against `b`.
pub open spec fn rank_spec(a: Seq<char>, b: Seq<char>) -> Rank {
    if a == b {
        Rank::Same
    } else if text_lt(a, b) {
        Rank::Before
    } else {
        Rank::After
    }
}

/// No text stands before itself.
pub proof fn lemma_lt_irreflexive(a: Seq<char>)
    ensures
        !text_lt(a, a),
    decreases a.len(),
{
    if a.len() > 0 {
        lemma_lt_irreflexive(a.drop_first());
    }
}

/// Of two different texts exactly one stands before the other.
pub proof fn lemma_lt_total(a: Seq<char>, b: Seq<char>)
    ensures
        a != b ==> (text_lt(a, b) <==> !text_lt(b, a)),
        a == b ==> !text_lt(a, b) && !text_lt(b, a),
    decreases a.len(),
{
    if a == b {
        lemma_lt_irreflexive(a);
    } else if a.len() == 0 || b.len() == 0 {
        if a.len() == 0 && b.len() == 0 {
            assert(a =~= b);
        }
    } else if a[0] == b[0] {
        if a.drop_first() == b.drop_first() {
            assert(a =~= seq![a[0]] + a.drop_first());
            assert(b =~= seq![b[0]] + b.drop_first());
        }
        lemma_lt_total(a.drop_first(), b.drop_first());
    }
}

/// The order is transitive.
pub proof fn lemma_lt_transitive(a: Seq<char>, b: Seq<char>, c: Seq<char>)
    requires
        text_lt(a, b),
        text_lt(b, c),
    ensures
        text_lt(a, c),
    decreases a.len(),
{
    if a.len() > 0 && a[0] == b[0] && b[0] == c[0] {
        lemma_lt_transitive(a.drop_first(), b.drop_first(), c.drop_first());
    }
}

/// Whether `list` holds each of `names` once, in order.
pub open spec fn is_ordering(names: Set<Seq<char>>, list: Seq<Seq<char>>) -> bool {
    &&& forall|i: int, j: int|
        0 <= i < j < list.len() ==> text_lt(#[trigger] list[i], #[trigger] list[j])
    &&& forall|i: int| 0 <= i < list.len() ==> names.contains(#[trigger] list[i])
    &&& forall|k: Seq<char>| #[trigger]
        names.contains(k) ==> exists|i: int| 0 <= i < list.len() && #[trigger] list[i] == k
}

/// The names of a finite set in order.
pub open spec fn ordering(names: Set<Seq<char>>) -> Seq<Seq<char>> {
    choose|list: Seq<Seq<char>>| is_ordering(names, list)
}

/// A set of names has one ordering.
pub proof fn lemma_ordering_unique(names: Set<Seq<char>>, a: Seq<Seq<char>>, b: Seq<Seq<char>>)
    requires
        is_ordering(names, a),
        is_ordering(names, b),
    ensures
        a == b,
    decreases a.len(),
{
    if a.len() == 0 {
        if b.len() > 0 {
            assert(names.contains(b[0]));
        }
        assert(a =~= b);
    } else {
        assert(names.contains(a[0]));
        let jb = choose|i: int| 0 <= i < b.len() && #[trigger] b[i] == a[0];
        assert(names.contains(b[0]));
        let ja = choose|i: int| 0 <= i < a.len() && #[trigger] a[i] == b[0];
        lemma_lt_total(a[0], b[0]);
        if a[0] != b[0] {
            assert(text_lt(b[0], b[jb]));
            assert(text_lt(a[0], a[ja]));
        }
        let rest = names.remove(a[0]);
        let a1 = a.drop_first();
        let b1 = b.drop_first();
        assert forall|l: Seq<Seq<char>>| (l == a || l == b) implies is_ordering(
            rest,
            #[trigger] l.drop_first(),
        ) by {
            let l1 = l.drop_first();
            assert forall|i: int, j: int| 0 <= i < j < l1.len() implies text_lt(
                #[trigger] l1[i],
                #[trigger] l1[j],
            ) by {
                assert(text_lt(l[i + 1], l[j + 1]));
            }
            assert forall|i: int| 0 <= i < l1.len() implies rest.contains(#[trigger] l1[i]) by {
                assert(names.contains(l[i + 1]));
                assert(text_lt(l[0], l[i + 1]));
                lemma_lt_irreflexive(l[0]);
            }
            assert forall|k: Seq<char>| #[trigger] rest.contains(k) implies exists|i: int|
                0 <= i < l1.len() && #[trigger] l1[i] == k by {
                assert(names.contains(k));
                let i = choose|i: int| 0 <= i < l.len() && #[trigger] l[i] == k;
                assert(l1[i - 1] == k);
            }
        }
        assert(is_ordering(rest, a.drop_first()));
        assert(is_ordering(rest, b.drop_first()));
        lemma_ordering_unique(rest, a1, b1);
        assert(a =~= seq![a[0]] + a1);
        assert(b =~= seq![b[0]] + b1);
    }
}

/// Where a list is an ordering of a set of names, it is the ordering.
pub proof fn lemma_ordering_is(names: Set<Seq<char>>, list: Seq<Seq<char>>)
    requires
        is_ordering(names, list),
    ensures
        ordering(names) == list,
{
    lemma_ordering_unique(names, ordering(names), list);
}

/// An ordering of a set of names holds a name exactly where the set does.
pub proof fn lemma_ordering_contains(names: Set<Seq<char>>, list: Seq<Seq<char>>, name: Seq<char>)
    requires
        is_ordering(names, list),
    ensures
        list.contains(name) <==> names.contains(name),
{
    if list.contains(name) {
        let i = choose|i: int| 0 <= i < list.len() && list[i] == name;
        assert(names.contains(list[i]));
    }
    if names.contains(name) {
        let i = choose|i: int| 0 <= i < list.len() && #[trigger] list[i] == name;
        assert(list[i] == name);
    }
}

/// The empty list is the ordering of no names.
pub proof fn lemma_ordering_empty()
    ensures
        is_ordering(Set::<Seq<char>>::empty(), Seq::<Seq<char>>::empty()),
        ordering(Set::<Seq<char>>::empty()) == Seq::<Seq<char>>::empty(),
{
    lemma_ordering_is(Set::<Seq<char>>::empty(), Seq::<Seq<char>>::empty());
}

/// An ordering without the name at place `i` is the ordering of the set
/// without that name.
pub proof fn lemma_ordering_remove(names: Set<Seq<char>>, list: Seq<Seq<char>>, i: int)
    requires
        is_ordering(names, list),
        0 <= i < list.len(),
    ensures
        is_ordering(names.remove(list[i]), list.remove(i)),
        !list.remove(i).contains(list[i]),
{
    let rest = names.remove(list[i]);
    let short = list.remove(i);
    assert forall|k: int| 0 <= k < short.len() implies #[trigger] short[k] == list[if k < i {
        k
    } else {
        k + 1
    }] by {}
    assert forall|a: int, b: int| 0 <= a < b < short.len() implies text_lt(
        #[trigger] short[a],
        #[trigger] short[b],
    ) by {
        let la = if a < i { a } else { a + 1 };
        let lb = if b < i { b } else { b + 1 };
        assert(text_lt(list[la], list[lb]));
    }
    assert forall|k: int| 0 <= k < short.len() implies rest.contains(#[trigger] short[k]) by {
        let lk = if k < i { k } else { k + 1 };
        assert(names.contains(list[lk]));
        lemma_lt_irreflexive(list[i]);
        if lk < i {
            assert(text_lt(list[lk], list[i]));
        } else {
            assert(text_lt(list[i], list[lk]));
        }
    }
    assert forall|n: Seq<char>| #[trigger] rest.contains(n) implies exists|k: int|
        0 <= k < short.len() && #[trigger] short[k] == n by {
        assert(names.contains(n));
        let l = choose|l: int| 0 <= l < list.len() && #[trigger] list[l] == n;
        let k = if l < i { l } else { l - 1 };
        assert(short[k] == n);
    }
    lemma_ordering_contains(rest, short, list[i]);
}

/// Where `a` and `b` agree on their first `i` characters, they stand to each
/// other as what follows those characters does.
pub proof fn lemma_lt_common_prefix(a: Seq<char>, b: Seq<char>, i: int)
    requires
        0 <= i <= a.len(),
        i <= b.len(),
        forall|k: int| 0 <= k < i ==> a[k] == b[k],
    ensures
        text_lt(a, b) == text_lt(a.skip(i), b.skip(i)),
    decreases i,
{
    if i == 0 {
        assert(a.skip(0) =~= a);
        assert(b.skip(0) =~= b);
    } else {
        assert(a[0] == b[0]);
        let a1 = a.drop_first();
        let b1 = b.drop_first();
        assert forall|k: int| 0 <= k < i - 1 implies a1[k] == b1[k] by {
            assert(a1[k] == a[k + 1]);
            assert(b1[k] == b[k + 1]);
        }
        lemma_lt_common_prefix(a1, b1, i - 1);
        assert(a1.skip(i - 1) =~= a.skip(i));
        assert(b1.skip(i - 1) =~= b.skip(i));
    }
}

/// Ranks `a` against `b`.
pub fn rank(a: &str, b: &str) -> (r: Rank)
    ensures
        r == rank_spec(a@, b@),
{
    let n = a.unicode_len();
    let m = b.unicode_len();
    let mut i: usize = 0;
    while i < n && i < m
        invariant
            n == a@.len(),
            m == b@.len(),
            i <= n,
            i <= m,
            forall|k: int| 0 <= k < i ==> a@[k] == b@[k],
        decreases n - i,
    {
        let x = a.get_char(i) as u32;
        let y = b.get_char(i) as u32;
        if x != y {
            proof {
                lemma_lt_common_prefix(a@, b@, i as int);
                assert(a@.skip(i as int)[0] == a@[i as int]);
                assert(b@.skip(i as int)[0] == b@[i as int]);
            }
            return if x < y {
                Rank::Before
            } else {
                Rank::After
            };
        }
        i += 1;
    }
    proof {
        lemma_lt_common_prefix(a@, b@, i as int);
        if n == m {
            assert(a@ =~= b@);
        }
    }
    if n == m {
        Rank::Same
    } else if n < m {
        Rank::Before
    } else {
        Rank::After
    }
}

/// Whether `a` and `b` hold the same characters.
pub fn same_text(a: &str, b: &str) -> (r: bool)
    ensures
        r == (a@ == b@),
{
    match rank(a, b) {
        Rank::Same => true,
        _ => false,
    }
}

} // verus!
