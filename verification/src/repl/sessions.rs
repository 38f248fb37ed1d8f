//! The table of live sessions: one handle under each name that runs.

use crate::names::NameMap;
use crate::text::order::{is_ordering, lemma_ordering_is, ordering, text_lt};
use vstd::prelude::*;

verus! {

/// The live sessions by name. `H` is whatever stands for a running session
/// to the one who drives it; the table only keeps it.
#[derive(Debug)]
pub struct SessionTable<H> {
    live: NameMap<H>,
}

impl<H> View for SessionTable<H> {
    type V = Map<Seq<char>, H>;

    closed spec fn view(&self) -> Map<Seq<char>, H> {
        self.live@
    }
}

impl<H> SessionTable<H> {
    #[verifier::type_invariant]
    spec fn well_formed(self) -> bool {
        self.live.wf()
    }

    /// A table without sessions.
    pub fn new() -> (t: Self)
        ensures
            t@ == Map::<Seq<char>, H>::empty(),
    {
        SessionTable { live: NameMap::new() }
    }

    /// Whether a session is live under `name`.
    pub fn contains(&self, name: &str) -> (r: bool)
        ensures
            r == self@.contains_key(name@),
    {
        proof {
            use_type_invariant(self);
        }
        self.live.contains(name)
    }

    /// The handle of the session under `name`.
    pub fn get(&self, name: &str) -> (r: Option<&H>)
        ensures
            match r {
                Some(h) => self@.contains_key(name@) && *h == self@[name@],
                None => !self@.contains_key(name@),
            },
    {
        proof {
            use_type_invariant(self);
        }
        self.live.get(name)
    }

    /// Puts `handle` under `name` and hands back the handle that it replaces.
    pub fn insert(&mut self, name: &str, handle: H) -> (was: Option<H>)
        ensures
            final(self)@ == old(self)@.insert(name@, handle),
            match was {
                Some(h) => old(self)@.contains_key(name@) && h == old(self)@[name@],
                None => !old(self)@.contains_key(name@),
            },
    {
        proof {
            use_type_invariant(&*self);
        }
        let mut live = NameMap::new();
        std::mem::swap(&mut live, &mut self.live);
        let was = live.insert(name, handle);
        self.live = live;
        was
    }

    /// Takes the session under `name` out and hands back its handle; a name
    /// without a session changes nothing.
    pub fn remove(&mut self, name: &str) -> (was: Option<H>)
        ensures
            final(self)@ == old(self)@.remove(name@),
            match was {
                Some(h) => old(self)@.contains_key(name@) && h == old(self)@[name@],
                None => !old(self)@.contains_key(name@),
            },
    {
        proof {
            use_type_invariant(&*self);
        }
        let mut live = NameMap::new();
        std::mem::swap(&mut live, &mut self.live);
        let was = live.remove(name);
        self.live = live;
        was
    }

    /// The names of the live sessions: each once, in order.
    pub fn names(&self) -> (list: Vec<String>)
        ensures
            is_ordering(self@.dom(), list.deep_view()),
            list.deep_view() == ordering(self@.dom()),
    {
        proof {
            use_type_invariant(self);
            self.live.lemma_entries();
        }
        let n = self.live.len();
        let mut list: Vec<String> = Vec::new();
        let mut i: usize = 0;
        while i < n
            invariant
                n == self.live.entries().len(),
                i <= n,
                list@.len() == i,
                forall|k: int| 0 <= k < i ==> (#[trigger] list@[k])@ == self.live.entries()[k].0@,
            decreases n - i,
        {
            list.push(self.live.entry_at(i).0.clone());
            i += 1;
        }
        proof {
            let es = self.live.entries();
            let names = list.deep_view();
            assert forall|k: int| 0 <= k < n implies #[trigger] names[k] == es[k].0@ by {
                assert(list@[k]@ == es[k].0@);
            }
            assert forall|i: int, j: int| 0 <= i < j < names.len() implies text_lt(
                #[trigger] names[i],
                #[trigger] names[j],
            ) by {
                assert(text_lt(es[i].0@, es[j].0@));
            }
            assert forall|k: int| 0 <= k < names.len() implies self@.dom().contains(
                #[trigger] names[k],
            ) by {
                assert(self@.contains_key(es[k].0@));
            }
            assert forall|k: Seq<char>| #[trigger] self@.dom().contains(k) implies exists|i: int|
                0 <= i < names.len() && #[trigger] names[i] == k by {
                assert(self@.contains_key(k));
                let i = choose|i: int| 0 <= i < es.len() && #[trigger] es[i].0@ == k;
                assert(names[i] == k);
            }
            assert(is_ordering(self@.dom(), names));
            lemma_ordering_is(self@.dom(), names);
        }
        list
    }
}

} // verus!
