//! Type-indexed shared state for command handlers.
//!
//! A value is filed under the identity of its type. The map is generic in the
//! form in which values are kept, so that a caller that needs values of many
//! types keeps them as shared pointers to any type.

use crate::assoc::{distinct, filed, lemma_filed, lemma_pushed, lemma_replaced};
use std::any::TypeId;
use vstd::prelude::*;

verus! {

/// `std::any::TypeId`, the identity of a type.
#[verifier::external_type_specification]
#[verifier::external_body]
pub struct ExTypeId(TypeId);

/// `TypeId` compares with `==`: two of them are equal when, and only when, they
/// are the identity of the same type.
#[verifier::external_body]
fn same_type(a: &TypeId, b: &TypeId) -> (r: bool)
    ensures
        r == (*a == *b),
{
    a == b
}

/// Type-indexed container: at most one value per type. It is shared by a pointer to
/// it, so that all who hold one look into the same container.
pub struct StateMap<V> {
    entries: Vec<(TypeId, V)>,
}

impl<V> View for StateMap<V> {
    type V = Map<TypeId, V>;

    closed spec fn view(&self) -> Map<TypeId, V> {
        filed(self.entries@)
    }
}

impl<V> StateMap<V> {
    #[verifier::type_invariant]
    spec fn well_formed(self) -> bool {
        distinct(self.entries@)
    }

    /// An empty map.
    pub fn new() -> (r: Self)
        ensures
            r@ == Map::<TypeId, V>::empty(),
    {
        StateMap { entries: Vec::new() }
    }

    /// The place at which a value is filed under `key`.
    fn place(&self, key: &TypeId) -> (r: Option<usize>)
        ensures
            match r {
                Some(i) => i < self.entries@.len() && self.entries@[i as int].0 == *key,
                None => forall|i: int|
                    0 <= i < self.entries@.len() ==> #[trigger] self.entries@[i].0 != *key,
            },
    {
        let mut i: usize = 0;
        while i < self.entries.len()
            invariant
                i <= self.entries@.len(),
                forall|j: int| 0 <= j < i ==> #[trigger] self.entries@[j].0 != *key,
            decreases self.entries@.len() - i,
        {
            if same_type(&self.entries[i].0, key) {
                return Some(i);
            }
            i = i + 1;
        }
        None
    }

    /// Insert a value keyed by its type. Replaces any previous value of the
    /// same type.
    pub fn insert(&mut self, key: TypeId, value: V)
        ensures
            final(self)@ == old(self)@.insert(key, value),
    {
        proof {
            use_type_invariant(&*self);
            lemma_filed(self.entries@);
        }
        let place: Option<usize> = self.place(&key);
        let mut entries: Vec<(TypeId, V)> = Vec::new();
        std::mem::swap(&mut entries, &mut self.entries);
        match place {
            Some(i) => {
                proof {
                    lemma_replaced(entries@, i as int, value);
                }
                entries.set(i, (key, value));
            },
            None => {
                proof {
                    lemma_pushed(entries@, key, value);
                }
                entries.push((key, value));
            },
        }
        self.entries = entries;
    }

    /// Retrieve a previously inserted value.
    pub fn get(&self, key: TypeId) -> (r: Option<&V>)
        ensures
            match r {
                Some(v) => self@.contains_key(key) && *v == self@[key],
                None => !self@.contains_key(key),
            },
    {
        proof {
            use_type_invariant(self);
            lemma_filed(self.entries@);
        }
        match self.place(&key) {
            Some(i) => Some(&self.entries[i].1),
            None => None,
        }
    }
}

impl<V> Default for StateMap<V> {
    fn default() -> (r: Self)
        ensures
            r@ == Map::<TypeId, V>::empty(),
    {
        StateMap::new()
    }
}

// --------------------------------------------------------------------- laws

/// What was filed under a type is what a lookup under that type gives back, and
/// only the value that was filed last.
pub proof fn law_last_insert_wins<V>(map: Map<TypeId, V>, key: TypeId, first: V, second: V)
    ensures
        map.insert(key, first).insert(key, second).contains_key(key),
        map.insert(key, first).insert(key, second)[key] == second,
        map.insert(key, first).insert(key, second) == map.insert(key, second),
{
    assert(map.insert(key, first).insert(key, second) =~= map.insert(key, second));
}

/// Filing a value under one type leaves the values of all other types alone.
pub proof fn law_types_are_independent<V>(map: Map<TypeId, V>, key: TypeId, value: V, other: TypeId)
    requires
        key != other,
    ensures
        map.insert(key, value).contains_key(other) == map.contains_key(other),
        map.contains_key(other) ==> map.insert(key, value)[other] == map[other],
{
}

/// What a new map holds after a sequence of inserts.
pub open spec fn after_inserts<V>(inserts: Seq<(TypeId, V)>) -> Map<TypeId, V>
    decreases inserts.len(),
{
    if inserts.len() == 0 {
        Map::empty()
    } else {
        after_inserts(inserts.drop_last()).insert(inserts.last().0, inserts.last().1)
    }
}

/// After any sequence of inserts into a new map, a lookup gives the value that was
/// inserted last under that type.
pub proof fn law_lookup_gives_the_last_insert<V>(inserts: Seq<(TypeId, V)>, key: TypeId, i: int)
    requires
        0 <= i < inserts.len(),
        inserts[i].0 == key,
        forall|j: int| i < j < inserts.len() ==> (#[trigger] inserts[j]).0 != key,
    ensures
        after_inserts(inserts).contains_key(key),
        after_inserts(inserts)[key] == inserts[i].1,
    decreases inserts.len(),
{
    if i < inserts.len() - 1 {
        assert(inserts[inserts.len() - 1].0 != key);
        law_lookup_gives_the_last_insert(inserts.drop_last(), key, i);
    }
}

/// A lookup under a type that was never inserted gives nothing.
pub proof fn law_lookup_gives_nothing_else<V>(inserts: Seq<(TypeId, V)>, key: TypeId)
    requires
        forall|j: int| 0 <= j < inserts.len() ==> (#[trigger] inserts[j]).0 != key,
    ensures
        !after_inserts(inserts).contains_key(key),
    decreases inserts.len(),
{
    if inserts.len() > 0 {
        assert(inserts[inserts.len() - 1].0 != key);
        law_lookup_gives_nothing_else(inserts.drop_last(), key);
    }
}

} // verus!
