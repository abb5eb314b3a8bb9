//! The insertion-ordered maps of the protocol (`linked_hash_map::LinkedHashMap`),
//! described by the sequence of their entries in insertion order.
use vstd::prelude::*;

use crate::context::Context;
use crate::event::RepoReference;
use crate::json::{
    distinct_keys, entries_lookup, has_key, key_index, lemma_key_index, lemma_key_index_at, Value,
};

use linked_hash_map::LinkedHashMap;

verus! {

#[verifier::external_type_specification]
#[verifier::external_body]
#[verifier::reject_recursive_types(K)]
#[verifier::reject_recursive_types(V)]
#[verifier::reject_recursive_types(S)]
pub struct ExLinkedHashMap<K, V, S>(LinkedHashMap<K, V, S>);

/// `LinkedHashMap::clone`: by its source, a new map into which each entry's
/// key and value are cloned in order. The clones of keys and values are
/// only as faithful as their own `clone`, so nothing is stated here.
pub assume_specification<K, V, S>[ <LinkedHashMap<K, V, S> as Clone>::clone ](m: &LinkedHashMap<K, V, S>) -> LinkedHashMap<K, V, S>
    where
        K: std::hash::Hash + Eq + Clone,
        S: std::hash::BuildHasher + Clone,
        V: Clone,
;

/// The entries of a map of JSON values, in insertion order.
pub uninterp spec fn value_map_entries(m: LinkedHashMap<String, Value>) -> Seq<(String, Value)>;

/// The entries of a map of strings, in insertion order.
pub uninterp spec fn string_map_entries(m: LinkedHashMap<String, String>) -> Seq<(String, String)>;

/// The entries of a map of repository references, in insertion order.
pub uninterp spec fn repo_map_entries(m: LinkedHashMap<String, RepoReference>) -> Seq<(String, RepoReference)>;

/// The entries of a map of contexts, in insertion order.
pub uninterp spec fn context_map_entries(m: LinkedHashMap<String, Context>) -> Seq<(String, Context)>;

/// The entries after `LinkedHashMap::insert(key, value)`: a new key goes to
/// the end; an existing key keeps its stored key, takes the new value and
/// moves to the end.
pub open spec fn linked_inserted<V>(entries: Seq<(String, V)>, key: String, value: V) -> Seq<(String, V)> {
    let i = key_index(entries, key@);
    if i < 0 {
        entries.push((key, value))
    } else {
        entries.remove(i).push((entries[i].0, value))
    }
}

/// The entries after inserting each pair of `pairs` in turn.
pub open spec fn linked_inserted_all<V>(entries: Seq<(String, V)>, pairs: Seq<(String, V)>) -> Seq<(String, V)>
    decreases pairs.len(),
{
    if pairs.len() == 0 {
        entries
    } else {
        linked_inserted(linked_inserted_all(entries, pairs.drop_last()), pairs.last().0, pairs.last().1)
    }
}

/// Inserting into entries whose keys are distinct keeps them distinct, and
/// the inserted key then looks up the inserted value.
pub proof fn lemma_linked_inserted<V>(entries: Seq<(String, V)>, key: String, value: V)
    requires
        distinct_keys(entries),
    ensures
        distinct_keys(linked_inserted(entries, key, value)),
        entries_lookup(linked_inserted(entries, key, value), key@) == Some(value),
{
    lemma_key_index(entries, key@);
    let i = key_index(entries, key@);
    let after = linked_inserted(entries, key, value);
    let kept = if i < 0 { entries } else { entries.remove(i) };
    assert forall|a: int, b: int| 0 <= a < b < kept.len() implies #[trigger] kept[a].0@ != #[trigger] kept[b].0@ by {
        if i >= 0 {
            let a0 = if a < i { a } else { a + 1 };
            let b0 = if b < i { b } else { b + 1 };
            assert(kept[a] == entries[a0]);
            assert(kept[b] == entries[b0]);
        }
    }
    assert forall|j: int| 0 <= j < kept.len() implies #[trigger] kept[j].0@ != key@ by {
        if i < 0 {
            if kept[j].0@ == key@ {
                assert(has_key(entries, key@));
            }
        } else {
            let j0 = if j < i { j } else { j + 1 };
            assert(kept[j] == entries[j0]);
            if j0 > i {
                assert(entries[i].0@ != entries[j0].0@);
            }
        }
    }
    if i < 0 {
        assert(after == kept.push((key, value)));
    } else {
        assert(after == kept.push((entries[i].0, value)));
    }
    assert forall|a: int, b: int| 0 <= a < b < after.len() implies #[trigger] after[a].0@ != #[trigger] after[b].0@ by {
        assert(after[a] == kept[a]);
        if b < kept.len() {
            assert(after[b] == kept[b]);
        }
    }
    assert forall|j: int| 0 <= j < kept.len() implies #[trigger] after[j].0@ != key@ by {
        assert(after[j] == kept[j]);
    }
    lemma_key_index_at(after, key@, kept.len() as int);
}

/// Inserting pairs one after another into entries with distinct keys keeps
/// the keys distinct.
pub proof fn lemma_linked_inserted_all_distinct<V>(entries: Seq<(String, V)>, pairs: Seq<(String, V)>)
    requires
        distinct_keys(entries),
    ensures
        distinct_keys(linked_inserted_all(entries, pairs)),
    decreases pairs.len(),
{
    if pairs.len() > 0 {
        lemma_linked_inserted_all_distinct(entries, pairs.drop_last());
        lemma_linked_inserted(linked_inserted_all(entries, pairs.drop_last()), pairs.last().0, pairs.last().1);
    }
}

/// A map keeps the order in which its keys were inserted: inserting pairs
/// with distinct keys into an empty map gives exactly those pairs, in order.
pub proof fn lemma_insertion_order_kept<V>(pairs: Seq<(String, V)>)
    requires
        distinct_keys(pairs),
    ensures
        linked_inserted_all(Seq::<(String, V)>::empty(), pairs) == pairs,
    decreases pairs.len(),
{
    if pairs.len() > 0 {
        let init = pairs.drop_last();
        assert forall|a: int, b: int| 0 <= a < b < init.len() implies #[trigger] init[a].0@ != #[trigger] init[b].0@ by {
            assert(init[a] == pairs[a] && init[b] == pairs[b]);
        }
        lemma_insertion_order_kept(init);
        let last = pairs.last();
        lemma_key_index(init, last.0@);
        if has_key(init, last.0@) {
            let j = choose|j: int| 0 <= j < init.len() && #[trigger] init[j].0@ == last.0@;
            assert(pairs[j].0@ != pairs[pairs.len() - 1].0@);
        }
        assert(pairs =~= init.push(last));
    }
}

/// `LinkedHashMap::new()` for JSON values: an empty map.
#[verifier::external_body]
pub(crate) fn new_value_map() -> (m: LinkedHashMap<String, Value>)
    ensures
        value_map_entries(m) == Seq::<(String, Value)>::empty(),
{
    LinkedHashMap::new()
}

/// `LinkedHashMap::new()` for strings: an empty map.
#[verifier::external_body]
pub(crate) fn new_string_map() -> (m: LinkedHashMap<String, String>)
    ensures
        string_map_entries(m) == Seq::<(String, String)>::empty(),
{
    LinkedHashMap::new()
}

/// `LinkedHashMap::new()` for repository references: an empty map.
#[verifier::external_body]
pub(crate) fn new_repo_map() -> (m: LinkedHashMap<String, RepoReference>)
    ensures
        repo_map_entries(m) == Seq::<(String, RepoReference)>::empty(),
{
    LinkedHashMap::new()
}

/// `LinkedHashMap::new()` for contexts: an empty map.
#[verifier::external_body]
pub(crate) fn new_context_map() -> (m: LinkedHashMap<String, Context>)
    ensures
        context_map_entries(m) == Seq::<(String, Context)>::empty(),
{
    LinkedHashMap::new()
}

/// `LinkedHashMap::insert` for JSON values: by its source, an existing key
/// has its value replaced (the old one is returned) and its entry moved to
/// the back; a new key is appended. The map holds each key once (its
/// entries are indexed by a hash map of their keys).
#[verifier::external_body]
pub(crate) fn value_map_insert(m: &mut LinkedHashMap<String, Value>, key: String, value: Value) -> (r: Option<Value>)
    ensures
        distinct_keys(value_map_entries(*old(m))),
        r == entries_lookup(value_map_entries(*old(m)), key@),
        value_map_entries(*final(m)) == linked_inserted(value_map_entries(*old(m)), key, value),
{
    m.insert(key, value)
}

/// `LinkedHashMap::insert` for contexts, as for JSON values.
#[verifier::external_body]
pub(crate) fn context_map_insert(m: &mut LinkedHashMap<String, Context>, key: String, value: Context) -> (r: Option<Context>)
    ensures
        distinct_keys(context_map_entries(*old(m))),
        r == entries_lookup(context_map_entries(*old(m)), key@),
        context_map_entries(*final(m)) == linked_inserted(context_map_entries(*old(m)), key, value),
{
    m.insert(key, value)
}

/// `LinkedHashMap::get` for JSON values: the value stored under the key
/// (keys are unique in the map).
#[verifier::external_body]
pub(crate) fn value_map_get<'a>(m: &'a LinkedHashMap<String, Value>, key: &str) -> (r: Option<&'a Value>)
    ensures
        r == (match entries_lookup(value_map_entries(*m), key@) {
            Some(v) => Some(&v),
            None => None::<&Value>,
        }),
{
    m.get(key)
}

/// A map of JSON values holding the given pairs, inserted in order.
pub fn value_map_from_entries(pairs: Vec<(String, Value)>) -> (m: LinkedHashMap<String, Value>)
    ensures
        value_map_entries(m) == linked_inserted_all(Seq::<(String, Value)>::empty(), pairs@),
        distinct_keys(value_map_entries(m)),
{
    let mut m = new_value_map();
    let mut rest = pairs;
    let ghost mut done = Seq::<(String, Value)>::empty();
    while rest.len() > 0
        invariant
            pairs@ == done + rest@,
            value_map_entries(m) == linked_inserted_all(Seq::<(String, Value)>::empty(), done),
        decreases rest@.len(),
    {
        let ghost before = rest@;
        let (k, v) = rest.remove(0);
        proof {
            assert(before =~= seq![(k, v)] + rest@);
            let next = done.push((k, v));
            assert(next.drop_last() =~= done);
            assert(pairs@ =~= next + rest@);
            done = next;
        }
        value_map_insert(&mut m, k, v);
    }
    assert(pairs@ =~= done);
    proof {
        lemma_linked_inserted_all_distinct(Seq::<(String, Value)>::empty(), pairs@);
    }
    m
}

} // verus!
