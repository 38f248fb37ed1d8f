//! A map from names to values that keeps its names in order.

use crate::text::order::{lemma_lt_irreflexive, lemma_lt_total, lemma_lt_transitive, rank, text_lt, Rank};
use vstd::prelude::*;

verus! {

/// Whether `list` holds each pair of `map` once, ordered by name.
pub open spec fn lists<V>(map: Map<Seq<char>, V>, list: Seq<(String, V)>) -> bool {
    &&& forall|i: int, j: int|
        0 <= i < j < list.len() ==> text_lt(#[trigger] list[i].0@, #[trigger] list[j].0@)
    &&& forall|i: int|
        0 <= i < list.len() ==> map.contains_key(#[trigger] list[i].0@) && map[list[i].0@]
            == list[i].1
    &&& forall|k: Seq<char>| #[trigger]
        map.contains_key(k) ==> exists|i: int| 0 <= i < list.len() && #[trigger] list[i].0@ == k
}

/// A list ordered by name holds no name twice.
pub proof fn lemma_lists_distinct<V>(map: Map<Seq<char>, V>, list: Seq<(String, V)>, i: int, j: int)
    requires
        lists(map, list),
        0 <= i < list.len(),
        0 <= j < list.len(),
        list[i].0@ == list[j].0@,
    ensures
        i == j,
{
    lemma_lt_irreflexive(list[i].0@);
}

spec fn has<V>(es: Seq<(String, V)>, name: Seq<char>) -> bool {
    exists|i: int| 0 <= i < es.len() && #[trigger] es[i].0@ == name
}

spec fn at<V>(es: Seq<(String, V)>, name: Seq<char>) -> int {
    choose|i: int| 0 <= i < es.len() && #[trigger] es[i].0@ == name
}

spec fn as_map<V>(es: Seq<(String, V)>) -> Map<Seq<char>, V> {
    Map::new(|k: Seq<char>| has(es, k), |k: Seq<char>| es[at(es, k)].1)
}

spec fn sorted<V>(es: Seq<(String, V)>) -> bool {
    forall|i: int, j: int|
        0 <= i < j < es.len() ==> text_lt(#[trigger] es[i].0@, #[trigger] es[j].0@)
}

proof fn lemma_sorted_distinct<V>(es: Seq<(String, V)>, i: int, j: int)
    requires
        sorted(es),
        0 <= i < es.len(),
        0 <= j < es.len(),
        es[i].0@ == es[j].0@,
    ensures
        i == j,
{
    lemma_lt_irreflexive(es[i].0@);
}

proof fn lemma_at<V>(es: Seq<(String, V)>, i: int)
    requires
        sorted(es),
        0 <= i < es.len(),
    ensures
        has(es, es[i].0@),
        at(es, es[i].0@) == i,
        as_map(es).contains_key(es[i].0@),
        as_map(es)[es[i].0@] == es[i].1,
{
    let j = at(es, es[i].0@);
    lemma_sorted_distinct(es, i, j);
}

/// Values under names, the names kept in order.
#[derive(Debug)]
pub struct NameMap<V> {
    slots: Vec<(String, V)>,
}

impl<V> View for NameMap<V> {
    type V = Map<Seq<char>, V>;

    closed spec fn view(&self) -> Map<Seq<char>, V> {
        as_map(self.slots@)
    }
}

impl<V> NameMap<V> {
    /// Whether the names stand in order, each once.
    pub closed spec fn wf(&self) -> bool {
        sorted(self.slots@)
    }

    /// The pairs in the order of their names.
    pub closed spec fn entries(&self) -> Seq<(String, V)> {
        self.slots@
    }

    /// The pairs in order are a listing of the map.
    pub proof fn lemma_entries(&self)
        requires
            self.wf(),
        ensures
            lists(self@, self.entries()),
    {
        let es = self.slots@;
        assert forall|i: int| 0 <= i < es.len() implies self@.contains_key(#[trigger] es[i].0@)
            && self@[es[i].0@] == es[i].1 by {
            lemma_at(es, i);
        }
        assert forall|k: Seq<char>| #[trigger] self@.contains_key(k) implies exists|i: int|
            0 <= i < es.len() && #[trigger] es[i].0@ == k by {
            let i = at(es, k);
            assert(es[i].0@ == k);
        }
    }

    /// A map without names.
    pub fn new() -> (m: Self)
        ensures
            m.wf(),
            m@ == Map::<Seq<char>, V>::empty(),
            m.entries().len() == 0,
    {
        let m = NameMap { slots: Vec::new() };
        assert(m@ =~= Map::<Seq<char>, V>::empty());
        m
    }

    /// How many names the map holds.
    pub fn len(&self) -> (n: usize)
        ensures
            n == self.entries().len(),
    {
        self.slots.len()
    }

    /// The pair at place `i` of the order.
    pub fn entry_at(&self, i: usize) -> (e: &(String, V))
        requires
            i < self.entries().len(),
        ensures
            *e == self.entries()[i as int],
    {
        &self.slots[i]
    }

    /// The place of `name` among the pairs: where it stands, or where it
    /// would.
    fn locate(&self, name: &str) -> (r: (usize, bool))
        requires
            self.wf(),
        ensures
            r.0 <= self.slots@.len(),
            forall|k: int| 0 <= k < r.0 ==> text_lt((#[trigger] self.slots@[k]).0@, name@),
            forall|k: int|
                r.0 + (if r.1 { 1int } else { 0int }) <= k < self.slots@.len() ==> text_lt(
                    name@,
                    (#[trigger] self.slots@[k]).0@,
                ),
            r.1 ==> r.0 < self.slots@.len() && self.slots@[r.0 as int].0@ == name@,
            r.1 == has(self.slots@, name@),
    {
        let mut i: usize = 0;
        let mut found = false;
        while i < self.slots.len()
            invariant_except_break
                !found,
            invariant
                sorted(self.slots@),
                i <= self.slots@.len(),
                forall|k: int| 0 <= k < i ==> text_lt((#[trigger] self.slots@[k]).0@, name@),
            ensures
                found ==> i < self.slots@.len() && self.slots@[i as int].0@ == name@,
                !found ==> i == self.slots@.len() || text_lt(name@, self.slots@[i as int].0@),
            decreases self.slots@.len() - i,
        {
            proof {
                lemma_lt_total(self.slots@[i as int].0@, name@);
            }
            match rank(self.slots[i].0.as_str(), name) {
                Rank::Before => {
                    i += 1;
                },
                Rank::Same => {
                    found = true;
                    break ;
                },
                Rank::After => {
                    break ;
                },
            }
        }
        proof {
            let es = self.slots@;
            let from = i + (if found { 1int } else { 0int });
            assert forall|k: int| from <= k < es.len() implies text_lt(
                name@,
                (#[trigger] es[k]).0@,
            ) by {
                if found {
                    assert(text_lt(es[i as int].0@, es[k].0@));
                } else if k > i {
                    assert(text_lt(es[i as int].0@, es[k].0@));
                    lemma_lt_transitive(name@, es[i as int].0@, es[k].0@);
                }
            }
            if has(es, name@) {
                let k = at(es, name@);
                lemma_lt_irreflexive(name@);
                if k < i {
                    assert(text_lt(es[k].0@, name@));
                } else if k >= from {
                    assert(text_lt(name@, es[k].0@));
                }
            }
        }
        (i, found)
    }

    /// Whether `name` has a value.
    pub fn contains(&self, name: &str) -> (r: bool)
        requires
            self.wf(),
        ensures
            r == self@.contains_key(name@),
    {
        let (_, found) = self.locate(name);
        found
    }

    /// The value under `name`.
    pub fn get(&self, name: &str) -> (r: Option<&V>)
        requires
            self.wf(),
        ensures
            match r {
                Some(v) => self@.contains_key(name@) && *v == self@[name@],
                None => !self@.contains_key(name@),
            },
    {
        let (idx, found) = self.locate(name);
        if found {
            proof {
                lemma_at(self.slots@, idx as int);
            }
            Some(&self.slots[idx].1)
        } else {
            None
        }
    }

    /// Puts `value` under `name` and hands back what stood there.
    pub fn insert(&mut self, name: &str, value: V) -> (was: Option<V>)
        requires
            old(self).wf(),
        ensures
            final(self).wf(),
            final(self)@ == old(self)@.insert(name@, value),
            match was {
                Some(v) => old(self)@.contains_key(name@) && v == old(self)@[name@],
                None => !old(self)@.contains_key(name@),
            },
    {
        let (idx, found) = self.locate(name);
        let ghost before = self.slots@;
        let was = if found {
            proof {
                lemma_at(before, idx as int);
            }
            Some(self.slots.remove(idx).1)
        } else {
            None
        };
        self.slots.insert(idx, (String::from_str(name), value));
        proof {
            let after = self.slots@;
            let shift = if found { 0int } else { 1int };
            assert(after[idx as int].0@ == name@);
            assert forall|k: int| 0 <= k < idx implies after[k] == before[k] by {}
            assert forall|k: int| idx < k < after.len() implies after[k] == before[k - shift] by {}
            assert forall|i: int, j: int| 0 <= i < j < after.len() implies text_lt(
                #[trigger] after[i].0@,
                #[trigger] after[j].0@,
            ) by {
                if j < idx {
                    assert(text_lt(before[i].0@, before[j].0@));
                } else if j == idx {
                    assert(text_lt(before[i].0@, name@));
                } else if i < idx {
                    assert(text_lt(before[i].0@, before[j - shift].0@));
                } else if i == idx {
                    assert(text_lt(name@, before[j - shift].0@));
                } else {
                    assert(text_lt(before[i - shift].0@, before[j - shift].0@));
                }
            }
            let goal = as_map(before).insert(name@, value);
            assert forall|k: Seq<char>| has(after, k) == goal.contains_key(k) by {
                if has(after, k) {
                    let i = at(after, k);
                    if i < idx {
                        assert(before[i].0@ == k);
                    } else if i > idx {
                        assert(before[i - shift].0@ == k);
                    }
                }
                if has(before, k) && k != name@ {
                    let i = at(before, k);
                    if i < idx {
                        assert(after[i].0@ == k);
                    } else {
                        assert(after[i + shift] == before[i]);
                        assert(after[i + shift].0@ == k);
                    }
                }
            }
            assert forall|k: Seq<char>| has(after, k) implies after[at(after, k)].1 == goal[k] by {
                let i = at(after, k);
                if i == idx {
                } else {
                    let b = if i < idx { i } else { i - shift };
                    assert(before[b] == after[i]);
                    lemma_at(before, b);
                    if k == name@ {
                        lemma_sorted_distinct(after, i, idx as int);
                    }
                }
            }
            assert(as_map(after) =~= goal);
        }
        was
    }

    /// Takes `name` out and hands back its value; a name without one changes
    /// nothing.
    pub fn remove(&mut self, name: &str) -> (was: Option<V>)
        requires
            old(self).wf(),
        ensures
            final(self).wf(),
            final(self)@ == old(self)@.remove(name@),
            match was {
                Some(v) => old(self)@.contains_key(name@) && v == old(self)@[name@],
                None => !old(self)@.contains_key(name@),
            },
    {
        let (idx, found) = self.locate(name);
        let ghost before = self.slots@;
        if found {
            proof {
                lemma_at(before, idx as int);
            }
            let gone = self.slots.remove(idx);
            proof {
                let after = self.slots@;
                assert forall|k: int| 0 <= k < idx implies after[k] == before[k] by {}
                assert forall|k: int| idx <= k < after.len() implies after[k] == before[k + 1] by {}
                assert forall|i: int, j: int| 0 <= i < j < after.len() implies text_lt(
                    #[trigger] after[i].0@,
                    #[trigger] after[j].0@,
                ) by {
                    let bi = if i < idx { i } else { i + 1 };
                    let bj = if j < idx { j } else { j + 1 };
                    assert(text_lt(before[bi].0@, before[bj].0@));
                }
                let goal = as_map(before).remove(name@);
                assert forall|k: Seq<char>| has(after, k) == goal.contains_key(k) by {
                    if has(after, k) {
                        let i = at(after, k);
                        let b = if i < idx { i } else { i + 1 };
                        assert(before[b].0@ == k);
                        if k == name@ {
                            lemma_sorted_distinct(before, b, idx as int);
                        }
                    }
                    if has(before, k) && k != name@ {
                        let i = at(before, k);
                        if i < idx {
                            assert(after[i].0@ == k);
                        } else {
                            assert(after[i - 1] == before[i]);
                            assert(after[i - 1].0@ == k);
                        }
                    }
                }
                assert forall|k: Seq<char>| has(after, k) implies after[at(after, k)].1
                    == goal[k] by {
                    let i = at(after, k);
                    let b = if i < idx { i } else { i + 1 };
                    assert(before[b] == after[i]);
                    lemma_at(before, b);
                }
                assert(as_map(after) =~= goal);
            }
            Some(gone.1)
        } else {
            assert(as_map(before).remove(name@) =~= as_map(before));
            None
        }
    }
}

} // verus!
