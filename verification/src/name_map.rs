//! Maps from names to values.

use crate::assoc::{distinct, filed, lemma_filed, lemma_filed_len, lemma_pushed, lemma_replaced};
use crate::text::same_text;
use vstd::prelude::*;

verus! {

/// A map keyed by names: at most one value per name.
#[derive(Debug)]
pub struct NameMap<V> {
    entries: Vec<(String, V)>,
}

/// The entries with each name as its text.
pub open spec fn named<V>(entries: Seq<(String, V)>) -> Seq<(Seq<char>, V)> {
    entries.map_values(|e: (String, V)| (e.0@, e.1))
}

impl<V> View for NameMap<V> {
    type V = Map<Seq<char>, V>;

    closed spec fn view(&self) -> Map<Seq<char>, V> {
        filed(named(self.entries@))
    }
}

impl<V> NameMap<V> {
    #[verifier::type_invariant]
    spec fn well_formed(self) -> bool {
        distinct(named(self.entries@))
    }

    /// An empty map.
    pub fn new() -> (r: Self)
        ensures
            r@ == Map::<Seq<char>, V>::empty(),
    {
        let entries: Vec<(String, V)> = Vec::new();
        assert(named(entries@) =~= Seq::empty());
        NameMap { entries }
    }

    /// The place of the entry named `name`.
    fn place(&self, name: &str) -> (r: Option<usize>)
        ensures
            match r {
                Some(i) => i < self.entries@.len() && self.entries@[i as int].0@ == name@,
                None => forall|i: int|
                    0 <= i < self.entries@.len() ==> #[trigger] self.entries@[i].0@ != name@,
            },
    {
        let mut i: usize = 0;
        while i < self.entries.len()
            invariant
                i <= self.entries@.len(),
                forall|j: int| 0 <= j < i ==> #[trigger] self.entries@[j].0@ != name@,
            decreases self.entries@.len() - i,
        {
            if same_text(self.entries[i].0.as_str(), name) {
                return Some(i);
            }
            i = i + 1;
        }
        None
    }

    /// Files `value` under `name`, in place of any earlier value of that name.
    pub fn insert(&mut self, name: String, value: V)
        ensures
            final(self)@ == old(self)@.insert(name@, value),
    {
        proof {
            use_type_invariant(&*self);
        }
        let place: Option<usize> = self.place(name.as_str());
        let mut entries: Vec<(String, V)> = Vec::new();
        proof {
            assert(named(entries@) =~= Seq::empty());
        }
        std::mem::swap(&mut entries, &mut self.entries);
        let ghost before = entries@;
        match place {
            Some(i) => {
                proof {
                    lemma_replaced(named(before), i as int, value);
                    assert(named(before.update(i as int, (name, value))) =~= named(before).update(
                        i as int,
                        (name@, value),
                    ));
                }
                entries.set(i, (name, value));
            },
            None => {
                proof {
                    assert forall|i: int| 0 <= i < named(before).len() implies #[trigger] named(
                        before,
                    )[i].0 != name@ by {
                        assert(before[i].0@ != name@);
                    }
                    lemma_pushed(named(before), name@, value);
                    assert(named(before.push((name, value))) =~= named(before).push(
                        (name@, value),
                    ));
                }
                entries.push((name, value));
            },
        }
        self.entries = entries;
    }

    /// The value filed under `name`.
    pub fn get(&self, name: &str) -> (r: Option<&V>)
        ensures
            match r {
                Some(v) => self@.contains_key(name@) && *v == self@[name@],
                None => !self@.contains_key(name@),
            },
    {
        proof {
            use_type_invariant(self);
            lemma_filed(named(self.entries@));
        }
        match self.place(name) {
            Some(i) => {
                assert(named(self.entries@)[i as int].0 == name@);
                Some(&self.entries[i].1)
            },
            None => {
                assert forall|i: int| 0 <= i < named(self.entries@).len() implies #[trigger] named(
                    self.entries@,
                )[i].0 != name@ by {
                    assert(self.entries@[i].0@ != name@);
                }
                None
            },
        }
    }

    /// How many names there are. The order of the entries lists each of them once.
    pub fn len(&self) -> (n: usize)
        ensures
            n == self@.len(),
            n == self.listed().len(),
            distinct(named(self.listed())),
            filed(named(self.listed())) == self@,
    {
        proof {
            use_type_invariant(self);
            lemma_filed_len(named(self.entries@));
        }
        self.entries.len()
    }

    /// The entries in the order in which their names were first filed.
    pub closed spec fn listed(&self) -> Seq<(String, V)> {
        self.entries@
    }

    /// The entry at place `i` of the order in which names were first filed.
    pub fn entry(&self, i: usize) -> (r: &(String, V))
        requires
            i < self.listed().len(),
        ensures
            *r == self.listed()[i as int],
    {
        &self.entries[i]
    }
}

impl<V: Clone> Clone for NameMap<V> {
    /// A map with a clone of each value under the same name.
    fn clone(&self) -> (r: Self)
        ensures
            r@.dom() == self@.dom(),
            forall|name: Seq<char>| #[trigger]
                self@.contains_key(name) ==> cloned::<V>(self@[name], r@[name]),
    {
        proof {
            use_type_invariant(self);
            lemma_filed(named(self.entries@));
        }
        let mut entries: Vec<(String, V)> = Vec::new();
        let mut i: usize = 0;
        while i < self.entries.len()
            invariant
                i == entries@.len(),
                i <= self.entries@.len(),
                forall|j: int|
                    0 <= j < i ==> #[trigger] entries@[j].0@ == self.entries@[j].0@ && cloned::<V>(
                        self.entries@[j].1,
                        entries@[j].1,
                    ),
            decreases self.entries@.len() - i,
        {
            entries.push((self.entries[i].0.clone(), self.entries[i].1.clone()));
            i = i + 1;
        }
        proof {
            let ours = named(self.entries@);
            let theirs = named(entries@);
            assert forall|j: int| 0 <= j < theirs.len() implies (#[trigger] theirs[j]).0 == ours[j].0
                && cloned::<V>(ours[j].1, theirs[j].1) by {
                assert(entries@[j].0@ == self.entries@[j].0@);
            }
            assert(distinct(theirs)) by {
                assert forall|a: int, b: int| 0 <= a < b < theirs.len() implies theirs[a].0
                    != theirs[b].0 by {
                    assert(ours[a].0 != ours[b].0);
                }
            }
            lemma_filed(theirs);
            assert forall|name: Seq<char>|
                filed(theirs).contains_key(name) == filed(ours).contains_key(name) by {
                if filed(theirs).contains_key(name) {
                    let j = choose|j: int| 0 <= j < theirs.len() && #[trigger] theirs[j].0 == name;
                    assert(ours[j].0 == name);
                }
                if filed(ours).contains_key(name) {
                    let j = choose|j: int| 0 <= j < ours.len() && #[trigger] ours[j].0 == name;
                    assert(theirs[j].0 == name);
                }
            }
            assert forall|name: Seq<char>| #[trigger] filed(ours).contains_key(name) implies cloned::<
                V,
            >(filed(ours)[name], filed(theirs)[name]) by {
                let j = choose|j: int| 0 <= j < ours.len() && #[trigger] ours[j].0 == name;
                assert(theirs[j].0 == name);
            }
        }
        NameMap { entries }
    }
}

// ----------------------------------------------------------------------- laws

/// The list of entries has each name once, with its value, and no other.
pub proof fn law_entries_are_the_map<V>(map: &NameMap<V>, n: usize, name: Seq<char>, i: int, j: int)
    requires
        call_ensures(NameMap::<V>::len, (map,), n),
    ensures
        n == map.listed().len(),
        0 <= i < n ==> map@.contains_key(map.listed()[i].0@) && map@[map.listed()[i].0@]
            == map.listed()[i].1,
        0 <= i < j < n ==> map.listed()[i].0@ != map.listed()[j].0@,
        map@.contains_key(name) ==> exists|k: int|
            0 <= k < n && (#[trigger] map.listed()[k]).0@ == name,
{
    let entries = named(map.listed());
    lemma_filed(entries);
    assert(forall|k: int| 0 <= k < n ==> entries[k].0 == (#[trigger] map.listed()[k]).0@);
    if 0 <= i < n {
        assert(filed(entries)[entries[i].0] == entries[i].1);
    }
    if 0 <= i < j < n {
        assert(entries[i].0 != entries[j].0);
    }
    if map@.contains_key(name) {
        let k = choose|k: int| 0 <= k < entries.len() && #[trigger] entries[k].0 == name;
        assert(map.listed()[k].0@ == name);
    }
}

} // verus!
