//! The catalog of names that input can address: each name is a shell or a
//! builtin.

use crate::shell::spec::{ShellSpec, ShellSpecView};
use crate::names::{lemma_lists_distinct, lists, NameMap};
use crate::text::order::text_lt;
use vstd::prelude::*;

verus! {

/// What a registered name stands for.
#[derive(Debug, PartialEq, Eq)]
pub enum Entry {
    Shell(ShellSpec),
    Builtin,
}

/// An [`Entry`] as contracts see it.
pub enum EntryView {
    Shell(ShellSpecView),
    Builtin,
}

impl View for Entry {
    type V = EntryView;

    open spec fn view(&self) -> EntryView {
        match self {
            Entry::Shell(spec) => EntryView::Shell(spec@),
            Entry::Builtin => EntryView::Builtin,
        }
    }
}

impl Clone for Entry {
    fn clone(&self) -> (r: Self)
        ensures
            r@ == self@,
    {
        match self {
            Entry::Shell(spec) => Entry::Shell(spec.clone()),
            Entry::Builtin => Entry::Builtin,
        }
    }
}

/// Whether `n` is the length of the longest of `names`, or 0 where no name has
/// a character.
pub open spec fn longest(names: Set<Seq<char>>, n: nat) -> bool {
    &&& forall|k: Seq<char>| #[trigger] names.contains(k) ==> k.len() <= n
    &&& n > 0 ==> exists|k: Seq<char>| #[trigger] names.contains(k) && k.len() == n
}

/// Whether `list` holds each entry of `catalog` once, ordered by name.
pub open spec fn is_listing(catalog: Map<Seq<char>, EntryView>, list: Seq<(String, Entry)>) -> bool {
    &&& forall|i: int, j: int|
        0 <= i < j < list.len() ==> text_lt(#[trigger] list[i].0@, #[trigger] list[j].0@)
    &&& forall|i: int|
        0 <= i < list.len() ==> catalog.contains_key(#[trigger] list[i].0@) && catalog[list[i].0@]
            == list[i].1@
    &&& forall|k: Seq<char>| #[trigger]
        catalog.contains_key(k) ==> exists|i: int| 0 <= i < list.len() && #[trigger] list[i].0@ == k
}

/// The names that every registry starts with, each a builtin.
pub open spec fn builtin_catalog() -> Map<Seq<char>, EntryView> {
    Map::<Seq<char>, EntryView>::empty().insert("local"@, EntryView::Builtin).insert(
        "remote"@,
        EntryView::Builtin,
    ).insert("admin"@, EntryView::Builtin).insert("quit"@, EntryView::Builtin).insert(
        "exit"@,
        EntryView::Builtin,
    )
}

/// The length of the longest name is one number: two that fit are equal.
pub proof fn lemma_longest_unique(names: Set<Seq<char>>, a: nat, b: nat)
    requires
        longest(names, a),
        longest(names, b),
    ensures
        a == b,
{
    if a > 0 {
        let k = choose|k: Seq<char>| #[trigger] names.contains(k) && k.len() == a;
        assert(names.contains(k));
    }
    if b > 0 {
        let k = choose|k: Seq<char>| #[trigger] names.contains(k) && k.len() == b;
        assert(names.contains(k));
    }
}

/// Where the empty name is not registered, the longest length is 0 exactly when
/// no name is registered at all.
pub proof fn lemma_longest_zero(names: Set<Seq<char>>, n: nat)
    requires
        longest(names, n),
        !names.contains(Seq::<char>::empty()),
    ensures
        n == 0 <==> names == Set::<Seq<char>>::empty(),
{
    if n == 0 {
        assert forall|k: Seq<char>| !names.contains(k) by {
            if names.contains(k) {
                assert(k.len() <= 0);
                assert(k =~= Seq::<char>::empty());
            }
        }
        assert(names =~= Set::<Seq<char>>::empty());
    } else {
        let k = choose|k: Seq<char>| #[trigger] names.contains(k) && k.len() == n;
        assert(names.contains(k));
    }
}

/// The catalog that contracts see for entries held under names.
pub open spec fn entry_views(m: Map<Seq<char>, Entry>) -> Map<Seq<char>, EntryView> {
    Map::new(|k: Seq<char>| m.contains_key(k), |k: Seq<char>| m[k]@)
}

/// The entries under their names, with the length of the longest name.
#[derive(Debug)]
struct Catalog {
    names: NameMap<Entry>,
    max_len: usize,
}

impl Catalog {
    spec fn wf(self) -> bool {
        &&& self.names.wf()
        &&& longest(self.names@.dom(), self.max_len as nat)
    }

    fn empty() -> (c: Self)
        ensures
            c.wf(),
            c.names@ == Map::<Seq<char>, Entry>::empty(),
    {
        Catalog { names: NameMap::new(), max_len: 0 }
    }

    /// Sets `max_len` to the length of the longest name.
    fn recompute_max_name_len(&mut self)
        requires
            old(self).names.wf(),
        ensures
            final(self).names == old(self).names,
            final(self).wf(),
    {
        let mut m: usize = 0;
        let mut i: usize = 0;
        let n = self.names.len();
        while i < n
            invariant
                n == self.names.entries().len(),
                i <= n,
                forall|k: int| 0 <= k < i ==> (#[trigger] self.names.entries()[k]).0@.len() <= m,
                m > 0 ==> exists|k: int|
                    0 <= k < i && (#[trigger] self.names.entries()[k]).0@.len() == m,
            decreases n - i,
        {
            let len = self.names.entry_at(i).0.as_str().unicode_len();
            if len > m {
                m = len;
            }
            i += 1;
        }
        proof {
            self.names.lemma_entries();
            let es = self.names.entries();
            let dom = self.names@.dom();
            assert forall|k: Seq<char>| #[trigger] dom.contains(k) implies k.len() <= m by {
                let i = choose|i: int| 0 <= i < es.len() && #[trigger] es[i].0@ == k;
                assert(es[i].0@.len() <= m);
            }
            if m > 0 {
                let k = choose|k: int| 0 <= k < es.len() && (#[trigger] es[k]).0@.len() == m;
                assert(dom.contains(es[k].0@));
            }
        }
        self.max_len = m;
    }
}

/// A catalog from name to [`Entry`], with the length of its longest name at
/// hand.
#[derive(Debug)]
pub struct Registry {
    inner: Catalog,
}

impl View for Registry {
    type V = Map<Seq<char>, EntryView>;

    closed spec fn view(&self) -> Map<Seq<char>, EntryView> {
        entry_views(self.inner.names@)
    }
}

impl Registry {
    #[verifier::type_invariant]
    spec fn well_formed(self) -> bool {
        self.inner.wf()
    }

    /// A registry without names.
    pub fn new() -> (r: Self)
        ensures
            r@ == Map::<Seq<char>, EntryView>::empty(),
    {
        let r = Registry { inner: Catalog::empty() };
        assert(r@ =~= Map::<Seq<char>, EntryView>::empty());
        r
    }

    /// A registry that holds the builtins `local`, `remote`, `admin`, `quit`
    /// and `exit`.
    pub fn with_builtins() -> (r: Self)
        ensures
            r@ == builtin_catalog(),
    {
        let mut r = Self::new();
        r.register_entry("local", Entry::Builtin);
        r.register_entry("remote", Entry::Builtin);
        r.register_entry("admin", Entry::Builtin);
        r.register_entry("quit", Entry::Builtin);
        r.register_entry("exit", Entry::Builtin);
        r
    }

    /// Puts `entry` under `name`, in place of what stood there.
    pub fn register_entry(&mut self, name: &str, entry: Entry)
        ensures
            final(self)@ == old(self)@.insert(name@, entry@),
    {
        proof {
            use_type_invariant(&*self);
        }
        let mut inner = Catalog::empty();
        std::mem::swap(&mut inner, &mut self.inner);
        let ghost before = inner.names@;
        let ghost value = entry;
        inner.names.insert(name, entry);
        inner.recompute_max_name_len();
        assert(entry_views(inner.names@) =~= entry_views(before).insert(name@, value@));
        self.inner = inner;
    }

    /// Takes `name` out; a name that is not registered changes nothing.
    pub fn unregister_entry(&mut self, name: &str)
        ensures
            final(self)@ == old(self)@.remove(name@),
    {
        proof {
            use_type_invariant(&*self);
        }
        let mut inner = Catalog::empty();
        std::mem::swap(&mut inner, &mut self.inner);
        let ghost before = inner.names@;
        if inner.names.remove(name).is_some() {
            inner.recompute_max_name_len();
        } else {
            assert(inner.names@.dom() =~= before.dom());
        }
        assert(entry_views(inner.names@) =~= entry_views(before).remove(name@));
        self.inner = inner;
    }

    /// Whether `name` is registered.
    pub fn has_entry(&self, name: &str) -> (r: bool)
        ensures
            r == self@.contains_key(name@),
    {
        proof {
            use_type_invariant(self);
        }
        self.inner.names.contains(name)
    }

    /// The entry under `name`.
    pub fn get_entry(&self, name: &str) -> (r: Option<Entry>)
        ensures
            match r {
                Some(e) => self@.contains_key(name@) && e@ == self@[name@],
                None => !self@.contains_key(name@),
            },
    {
        proof {
            use_type_invariant(self);
        }
        match self.inner.names.get(name) {
            Some(entry) => Some(entry.clone()),
            None => None,
        }
    }

    /// The entries, ordered by name.
    pub fn list_entries(&self) -> (list: Vec<(String, Entry)>)
        ensures
            is_listing(self@, list@),
    {
        proof {
            use_type_invariant(self);
            self.inner.names.lemma_entries();
        }
        let n = self.inner.names.len();
        let mut list: Vec<(String, Entry)> = Vec::new();
        let mut i: usize = 0;
        while i < n
            invariant
                n == self.inner.names.entries().len(),
                i <= n,
                list@.len() == i,
                forall|k: int|
                    0 <= k < i ==> (#[trigger] list@[k]).0@ == self.inner.names.entries()[k].0@
                        && list@[k].1@ == self.inner.names.entries()[k].1@,
            decreases n - i,
        {
            let item = self.inner.names.entry_at(i);
            list.push((item.0.clone(), item.1.clone()));
            i += 1;
        }
        proof {
            let es = self.inner.names.entries();
            assert forall|i: int, j: int| 0 <= i < j < list@.len() implies text_lt(
                #[trigger] list@[i].0@,
                #[trigger] list@[j].0@,
            ) by {
                assert(text_lt(es[i].0@, es[j].0@));
            }
            assert forall|k: int| 0 <= k < list@.len() implies self@.contains_key(
                #[trigger] list@[k].0@,
            ) && self@[list@[k].0@] == list@[k].1@ by {
                assert(self.inner.names@.contains_key(es[k].0@));
            }
            assert forall|k: Seq<char>| #[trigger] self@.contains_key(k) implies exists|i: int|
                0 <= i < list@.len() && #[trigger] list@[i].0@ == k by {
                let i = choose|i: int| 0 <= i < es.len() && #[trigger] es[i].0@ == k;
                assert(list@[i].0@ == k);
            }
        }
        list
    }

    /// The shell under `name`, where `name` is registered as one.
    pub fn get_shell_spec(&self, name: &str) -> (r: Option<ShellSpec>)
        ensures
            match r {
                Some(spec) => self@.contains_key(name@) && self@[name@] == EntryView::Shell(spec@),
                None => !self@.contains_key(name@) || self@[name@] is Builtin,
            },
    {
        match self.get_entry(name) {
            Some(Entry::Shell(spec)) => Some(spec),
            _ => None,
        }
    }

    /// The length, in characters, of the longest registered name; 0 where no
    /// name has a character.
    pub fn max_name_len(&self) -> (n: usize)
        ensures
            longest(self@.dom(), n as nat),
    {
        proof {
            use_type_invariant(self);
            assert(self@.dom() =~= self.inner.names@.dom());
        }
        self.inner.max_len
    }
}

impl Clone for Registry {
    fn clone(&self) -> (r: Self)
        ensures
            r@ == self@,
    {
        proof {
            use_type_invariant(self);
            self.inner.names.lemma_entries();
        }
        let n = self.inner.names.len();
        let mut names: NameMap<Entry> = NameMap::new();
        let mut i: usize = 0;
        while i < n
            invariant
                n == self.inner.names.entries().len(),
                i <= n,
                names.wf(),
                lists(self.inner.names@, self.inner.names.entries()),
                forall|k: Seq<char>| #[trigger]
                    names@.contains_key(k) <==> exists|j: int|
                        0 <= j < i && #[trigger] self.inner.names.entries()[j].0@ == k,
                forall|j: int|
                    0 <= j < i ==> names@[(#[trigger] self.inner.names.entries()[j]).0@]@
                        == self.inner.names.entries()[j].1@,
            decreases n - i,
        {
            let ghost es = self.inner.names.entries();
            let ghost before = names@;
            let item = self.inner.names.entry_at(i);
            let copy = item.1.clone();
            names.insert(item.0.as_str(), copy);
            proof {
                assert forall|k: Seq<char>| #[trigger] names@.contains_key(k) <==> exists|j: int|
                    0 <= j < i + 1 && #[trigger] es[j].0@ == k by {
                    if names@.contains_key(k) {
                        if k == es[i as int].0@ {
                        } else {
                            assert(before.contains_key(k));
                        }
                    }
                    if exists|j: int| 0 <= j < i + 1 && #[trigger] es[j].0@ == k {
                        let j = choose|j: int| 0 <= j < i + 1 && #[trigger] es[j].0@ == k;
                        if j < i {
                            assert(before.contains_key(k));
                        }
                    }
                }
                assert forall|j: int| 0 <= j < i + 1 implies names@[(#[trigger] es[j]).0@]@
                    == es[j].1@ by {
                    if j < i {
                        if es[j].0@ == es[i as int].0@ {
                            lemma_lists_distinct(self.inner.names@, es, j, i as int);
                        }
                    }
                }
            }
            i += 1;
        }
        proof {
            let es = self.inner.names.entries();
            assert forall|k: Seq<char>| names@.contains_key(k) == self.inner.names@.contains_key(
                k,
            ) by {
                if names@.contains_key(k) {
                    let j = choose|j: int| 0 <= j < n && #[trigger] es[j].0@ == k;
                    assert(self.inner.names@.contains_key(es[j].0@));
                }
                if self.inner.names@.contains_key(k) {
                    let j = choose|j: int| 0 <= j < es.len() && #[trigger] es[j].0@ == k;
                    assert(es[j].0@ == k);
                }
            }
            assert forall|k: Seq<char>| names@.contains_key(k) implies names@[k]@
                == self.inner.names@[k]@ by {
                let j = choose|j: int| 0 <= j < n && #[trigger] es[j].0@ == k;
                assert(names@[es[j].0@]@ == es[j].1@);
            }
            assert(entry_views(names@) =~= entry_views(self.inner.names@));
            assert(names@.dom() =~= self.inner.names@.dom());
        }
        Registry { inner: Catalog { names, max_len: self.inner.max_len } }
    }
}

impl Default for Registry {
    fn default() -> (r: Self)
        ensures
            r@ == Map::<Seq<char>, EntryView>::empty(),
    {
        Registry::new()
    }
}

} // verus!
