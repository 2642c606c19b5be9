//! Maps kept as lists of entries.

use vstd::prelude::*;

verus! {

/// The map that a list of entries stands for: where a key occurs more than
/// once, the last entry counts.
pub open spec fn filed<K, V>(entries: Seq<(K, V)>) -> Map<K, V>
    decreases entries.len(),
{
    if entries.len() == 0 {
        Map::empty()
    } else {
        filed(entries.drop_last()).insert(entries.last().0, entries.last().1)
    }
}

/// Whether no key occurs twice.
pub open spec fn distinct<K, V>(entries: Seq<(K, V)>) -> bool {
    forall|i: int, j: int| 0 <= i < j < entries.len() ==> entries[i].0 != entries[j].0
}

/// In a list without repeated keys, the map holds the entries and nothing else.
pub proof fn lemma_filed<K, V>(entries: Seq<(K, V)>)
    requires
        distinct(entries),
    ensures
        forall|i: int|
            0 <= i < entries.len() ==> filed(entries).contains_key(#[trigger] entries[i].0)
                && filed(entries)[entries[i].0] == entries[i].1,
        forall|key: K| #[trigger]
            filed(entries).contains_key(key) ==> exists|i: int|
                0 <= i < entries.len() && #[trigger] entries[i].0 == key,
    decreases entries.len(),
{
    if entries.len() > 0 {
        let front = entries.drop_last();
        assert(distinct(front)) by {
            assert(forall|i: int| 0 <= i < front.len() ==> front[i] == entries[i]);
        }
        lemma_filed(front);
        assert forall|i: int| 0 <= i < entries.len() implies filed(entries).contains_key(
            #[trigger] entries[i].0,
        ) && filed(entries)[entries[i].0] == entries[i].1 by {
            if i < front.len() {
                assert(front[i] == entries[i]);
            }
        }
        assert forall|key: K| #[trigger] filed(entries).contains_key(key) implies exists|
            i: int,
        | 0 <= i < entries.len() && #[trigger] entries[i].0 == key by {
            if key == entries.last().0 {
                assert(entries[entries.len() - 1].0 == key);
            } else {
                assert(filed(front).contains_key(key));
                let i = choose|i: int| 0 <= i < front.len() && #[trigger] front[i].0 == key;
                assert(entries[i].0 == key);
            }
        }
    }
}

/// A new value at the place of a key is a new value in the map.
pub proof fn lemma_replaced<K, V>(entries: Seq<(K, V)>, at: int, value: V)
    requires
        distinct(entries),
        0 <= at < entries.len(),
    ensures
        distinct(entries.update(at, (entries[at].0, value))),
        filed(entries.update(at, (entries[at].0, value))) == filed(entries).insert(
            entries[at].0,
            value,
        ),
{
    let key = entries[at].0;
    let after = entries.update(at, (key, value));
    assert(forall|i: int| 0 <= i < entries.len() ==> after[i].0 == entries[i].0);
    lemma_filed(entries);
    lemma_filed(after);
    assert forall|k: K|
        filed(after).contains_key(k) == filed(entries).insert(key, value).contains_key(k) by {
        if filed(after).contains_key(k) {
            let i = choose|i: int| 0 <= i < after.len() && #[trigger] after[i].0 == k;
            assert(entries[i].0 == k);
        }
        if filed(entries).contains_key(k) {
            let i = choose|i: int| 0 <= i < entries.len() && #[trigger] entries[i].0 == k;
            assert(after[i].0 == k);
        }
        assert(after[at].0 == key);
    }
    assert forall|k: K| filed(after).contains_key(k) implies filed(after)[k] == filed(
        entries,
    ).insert(key, value)[k] by {
        let i = choose|i: int| 0 <= i < after.len() && #[trigger] after[i].0 == k;
        assert(entries[i].0 == k);
        assert(filed(after)[after[i].0] == after[i].1);
        assert(filed(entries)[entries[i].0] == entries[i].1);
    }
    assert(filed(after) =~= filed(entries).insert(key, value));
}

/// An entry with a new key at the end is a new entry in the map.
pub proof fn lemma_pushed<K, V>(entries: Seq<(K, V)>, key: K, value: V)
    requires
        distinct(entries),
        forall|i: int| 0 <= i < entries.len() ==> #[trigger] entries[i].0 != key,
    ensures
        distinct(entries.push((key, value))),
        filed(entries.push((key, value))) == filed(entries).insert(key, value),
{
    let after = entries.push((key, value));
    assert(after.drop_last() =~= entries);
    assert(forall|i: int| 0 <= i < entries.len() ==> after[i] == entries[i]);
    assert forall|i: int, j: int| 0 <= i < j < after.len() implies after[i].0 != after[j].0 by {
        if j == entries.len() {
            assert(entries[i].0 != key);
        }
    }
}

/// A list without repeated keys has as many entries as the map has keys.
pub proof fn lemma_filed_len<K, V>(entries: Seq<(K, V)>)
    requires
        distinct(entries),
    ensures
        filed(entries).dom().finite(),
        filed(entries).len() == entries.len(),
    decreases entries.len(),
{
    if entries.len() > 0 {
        let front = entries.drop_last();
        assert(distinct(front)) by {
            assert(forall|i: int| 0 <= i < front.len() ==> front[i] == entries[i]);
        }
        lemma_filed_len(front);
        lemma_filed(front);
        if filed(front).contains_key(entries.last().0) {
            let i = choose|i: int|
                0 <= i < front.len() && #[trigger] front[i].0 == entries.last().0;
            assert(entries[i].0 == entries[entries.len() - 1].0);
        }
    }
}

} // verus!
