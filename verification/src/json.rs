//! Arbitrary JSON data as the protocol carries it (the `extra`, `data`,
//! `vars` and `other` parts of its types), and the key lookups on JSON
//! objects that the protocol's encoding needs.
use vstd::prelude::*;

use crate::text::str_equal;

verus! {

/// A JSON number.
#[derive(Clone, Copy, Debug, PartialEq, Eq, Structural)]
pub enum Number {
    /// A non-negative integer.
    PosInt(u64),
    /// A negative integer.
    NegInt(i64),
    /// A floating point number, held as its IEEE 754 bit pattern.
    Float(u64),
}

/// An arbitrary JSON value.
#[derive(Debug, PartialEq)]
pub enum Value {
    /// `null`
    Null,
    /// `true` or `false`
    Bool(bool),
    /// A number.
    Number(Number),
    /// A string.
    String(String),
    /// An array of values.
    Array(Vec<Value>),
    /// An object.
    Object(JsonObject),
}

/// A JSON object: its members in order, no key twice.
#[derive(Debug, PartialEq)]
pub struct JsonObject {
    members: Vec<(String, Value)>,
}

impl JsonObject {
    /// No two members have the same key.
    #[verifier::type_invariant]
    spec fn keys_unique(self) -> bool {
        distinct_keys(self.members@)
    }

    /// The members of the object, in order.
    pub closed spec fn entries(self) -> Seq<(String, Value)> {
        self.members@
    }
}

impl View for JsonObject {
    type V = Seq<(String, Value)>;

    open spec fn view(&self) -> Seq<(String, Value)> {
        self.entries()
    }
}

/// Whether two JSON values hold the same data (strings compared by their characters).
pub open spec fn same_json(a: Value, b: Value) -> bool
    decreases a,
{
    match a {
        Value::Null => b is Null,
        Value::Bool(x) => b matches Value::Bool(y) && x == y,
        Value::Number(x) => b matches Value::Number(y) && x == y,
        Value::String(x) => b matches Value::String(y) && x@ == y@,
        Value::Array(xs) => match b {
            Value::Array(ys) => xs@.len() == ys@.len() && forall|i: int|
                0 <= i < xs@.len() ==> same_json(#[trigger] xs@[i], ys@[i]),
            _ => false,
        },
        Value::Object(xs) => match b {
            Value::Object(ys) => xs@.len() == ys@.len() && forall|i: int|
                0 <= i < xs@.len() ==> (#[trigger] xs@[i]).0@ == ys@[i].0@ && same_json(xs@[i].1, ys@[i].1),
            _ => false,
        },
    }
}

impl Value {
    /// A copy of this value.
    pub fn deep_copy(&self) -> (r: Value)
        ensures
            same_json(*self, r),
        decreases self,
    {
        match self {
            Value::Null => Value::Null,
            Value::Bool(b) => Value::Bool(*b),
            Value::Number(n) => Value::Number(*n),
            Value::String(s) => Value::String(s.clone()),
            Value::Array(items) => {
                let mut out: Vec<Value> = Vec::new();
                let mut i: usize = 0;
                while i < items.len()
                    invariant
                        self is Array,
                        self->Array_0 == *items,
                        i <= items@.len(),
                        out@.len() == i,
                        forall|j: int| 0 <= j < i ==> same_json(#[trigger] items@[j], out@[j]),
                    decreases items@.len() - i,
                {
                    proof {
                        assert(decreases_to!(*self => self->Array_0));
                        assert(decreases_to!(*items => items@[i as int]));
                        assert(decreases_to!(*self => items@[i as int]));
                    }
                    out.push(items[i].deep_copy());
                    i = i + 1;
                }
                Value::Array(out)
            },
            Value::Object(obj) => {
                proof {
                    use_type_invariant(obj);
                }
                let entries = &obj.members;
                let mut out: Vec<(String, Value)> = Vec::new();
                let mut i: usize = 0;
                while i < entries.len()
                    invariant
                        self is Object,
                        self->Object_0 == *obj,
                        obj.members == *entries,
                        distinct_keys(entries@),
                        i <= entries@.len(),
                        out@.len() == i,
                        forall|j: int| 0 <= j < i ==> (#[trigger] entries@[j]).0@ == out@[j].0@
                            && same_json(entries@[j].1, out@[j].1),
                    decreases entries@.len() - i,
                {
                    proof {
                        assert(decreases_to!(*self => self->Object_0));
                        assert(decreases_to!(*obj => obj.members));
                        assert(decreases_to!(*entries => entries@[i as int]));
                        assert(decreases_to!(entries@[i as int] => entries@[i as int].1));
                        assert(decreases_to!(*self => entries@[i as int].1));
                    }
                    let k = entries[i].0.clone();
                    let v = entries[i].1.deep_copy();
                    out.push((k, v));
                    i = i + 1;
                }
                proof {
                    assert forall|a: int, b: int| 0 <= a < b < out@.len() implies #[trigger] out@[a].0@
                        != #[trigger] out@[b].0@ by {
                        assert(entries@[a].0@ == out@[a].0@);
                        assert(entries@[b].0@ == out@[b].0@);
                    }
                }
                Value::Object(JsonObject { members: out })
            },
        }
    }
}

impl Clone for Value {
    fn clone(&self) -> (r: Value)
        ensures
            same_json(*self, r),
    {
        self.deep_copy()
    }
}

/// The position of the first entry whose key reads `key`, or -1 if none does.
pub open spec fn key_index<V>(entries: Seq<(String, V)>, key: Seq<char>) -> int
    decreases entries.len(),
{
    if entries.len() == 0 {
        -1
    } else if entries[0].0@ == key {
        0
    } else {
        let r = key_index(entries.drop_first(), key);
        if r < 0 {
            -1
        } else {
            r + 1
        }
    }
}

/// Whether some entry has the key `key`.
pub open spec fn has_key<V>(entries: Seq<(String, V)>, key: Seq<char>) -> bool {
    exists|i: int| 0 <= i < entries.len() && #[trigger] entries[i].0@ == key
}

/// The value of the first entry whose key reads `key`.
pub open spec fn entries_lookup<V>(entries: Seq<(String, V)>, key: Seq<char>) -> Option<V> {
    let i = key_index(entries, key);
    if i < 0 {
        None
    } else {
        Some(entries[i].1)
    }
}

/// `entries` with the first entry of key `key` taken out.
pub open spec fn entries_without<V>(entries: Seq<(String, V)>, key: Seq<char>) -> Seq<(String, V)> {
    let i = key_index(entries, key);
    if i < 0 {
        entries
    } else {
        entries.remove(i)
    }
}

/// `entries` with the value of key `key` set to `value`: in place where the
/// key is there, appended at the end where it is not.
pub open spec fn entries_with<V>(entries: Seq<(String, V)>, key: String, value: V) -> Seq<(String, V)> {
    let i = key_index(entries, key@);
    if i < 0 {
        entries.push((key, value))
    } else {
        entries.update(i, (key, value))
    }
}

/// `entries` after setting each pair of `pairs` in turn.
pub open spec fn entries_with_all<V>(entries: Seq<(String, V)>, pairs: Seq<(String, V)>) -> Seq<(String, V)>
    decreases pairs.len(),
{
    if pairs.len() == 0 {
        entries
    } else {
        entries_with(entries_with_all(entries, pairs.drop_last()), pairs.last().0, pairs.last().1)
    }
}

/// `key_index` finds the first entry with the key, and -1 means there is none.
pub proof fn lemma_key_index<V>(entries: Seq<(String, V)>, key: Seq<char>)
    ensures
        -1 <= key_index(entries, key) < entries.len(),
        key_index(entries, key) < 0 <==> !has_key(entries, key),
        key_index(entries, key) >= 0 ==> entries[key_index(entries, key)].0@ == key,
        forall|j: int| 0 <= j < key_index(entries, key) ==> #[trigger] entries[j].0@ != key,
    decreases entries.len(),
{
    if entries.len() > 0 {
        let rest = entries.drop_first();
        lemma_key_index(rest, key);
        if entries[0].0@ != key {
            assert forall|j: int| 1 <= j < entries.len() implies #[trigger] entries[j].0@ == rest[j - 1].0@ by {}
            if has_key(rest, key) {
                let j = choose|j: int| 0 <= j < rest.len() && #[trigger] rest[j].0@ == key;
                assert(entries[j + 1].0@ == key);
            }
            if has_key(entries, key) {
                let j = choose|j: int| 0 <= j < entries.len() && #[trigger] entries[j].0@ == key;
                assert(rest[j - 1].0@ == key);
            }
        }
    }
}

/// The first entry whose key reads `key`, if any.
pub fn entries_get<'a, V>(entries: &'a Vec<(String, V)>, key: &str) -> (r: Option<&'a V>)
    ensures
        r == (match entries_lookup(entries@, key@) {
            Some(v) => Some(&v),
            None => None::<&V>,
        }),
{
    match find_key(entries, key) {
        Some(i) => Some(&entries[i].1),
        None => None,
    }
}

/// The first entry with a key is the one `key_index` finds.
pub proof fn lemma_key_index_at<V>(entries: Seq<(String, V)>, key: Seq<char>, i: int)
    requires
        0 <= i < entries.len(),
        entries[i].0@ == key,
        forall|j: int| 0 <= j < i ==> #[trigger] entries[j].0@ != key,
    ensures
        key_index(entries, key) == i,
{
    lemma_key_index(entries, key);
    let k = key_index(entries, key);
    if k < 0 {
        assert(has_key(entries, key));
    } else if k < i {
        assert(entries[k].0@ != key);
    }
}

/// Whether no two entries have keys that read the same.
pub open spec fn distinct_keys<V>(entries: Seq<(String, V)>) -> bool {
    forall|i: int, j: int| 0 <= i < j < entries.len() ==> #[trigger] entries[i].0@ != #[trigger] entries[j].0@
}

/// After setting `key`, looking it up gives the value set; looking up any
/// other key gives what it gave before.
pub proof fn lemma_lookup_entries_with<V>(entries: Seq<(String, V)>, key: String, value: V, other: Seq<char>)
    ensures
        entries_lookup(entries_with(entries, key, value), key@) == Some(value),
        other != key@ ==> entries_lookup(entries_with(entries, key, value), other)
            == entries_lookup(entries, other),
{
    lemma_key_index(entries, key@);
    lemma_key_index(entries, other);
    let i = key_index(entries, key@);
    let after = entries_with(entries, key, value);
    if i < 0 {
        assert(after == entries.push((key, value)));
        assert forall|j: int| 0 <= j < entries.len() implies #[trigger] after[j].0@ != key@ by {
            assert(after[j] == entries[j]);
            if entries[j].0@ == key@ {
                assert(has_key(entries, key@));
            }
        }
        lemma_key_index_at(after, key@, entries.len() as int);
    } else {
        assert(after == entries.update(i, (key, value)));
        assert forall|j: int| 0 <= j < i implies #[trigger] after[j].0@ != key@ by {
            assert(after[j] == entries[j]);
        }
        lemma_key_index_at(after, key@, i);
    }
    if other != key@ {
        let o = key_index(entries, other);
        if o < 0 {
            lemma_key_index(after, other);
            if has_key(after, other) {
                let j = choose|j: int| 0 <= j < after.len() && #[trigger] after[j].0@ == other;
                if j < entries.len() && j != i {
                    assert(after[j] == entries[j]);
                    assert(has_key(entries, other));
                }
            }
        } else {
            assert(o != i);
            assert(after[o] == entries[o]);
            assert forall|j: int| 0 <= j < o implies #[trigger] after[j].0@ != other by {
                if j != i {
                    assert(after[j] == entries[j]);
                }
            }
            lemma_key_index_at(after, other, o);
        }
    }
}

/// Setting keys other than `key`, one after another, leaves the lookup of `key` as it was.
pub proof fn lemma_lookup_entries_with_all<V>(entries: Seq<(String, V)>, pairs: Seq<(String, V)>, key: Seq<char>)
    requires
        forall|i: int| 0 <= i < pairs.len() ==> #[trigger] pairs[i].0@ != key,
    ensures
        entries_lookup(entries_with_all(entries, pairs), key) == entries_lookup(entries, key),
    decreases pairs.len(),
{
    if pairs.len() > 0 {
        let init = pairs.drop_last();
        assert forall|i: int| 0 <= i < init.len() implies #[trigger] init[i].0@ != key by {
            assert(init[i] == pairs[i]);
        }
        lemma_lookup_entries_with_all(entries, init, key);
        assert(pairs.last().0@ != key);
        lemma_lookup_entries_with(entries_with_all(entries, init), pairs.last().0, pairs.last().1, key);
    }
}

/// Setting pairs in turn keeps every entry's key in its place and never
/// shortens the entries.
pub proof fn lemma_entries_with_all_keeps_keys<V>(entries: Seq<(String, V)>, pairs: Seq<(String, V)>)
    ensures
        entries_with_all(entries, pairs).len() >= entries.len(),
        forall|i: int|
            0 <= i < entries.len() ==> #[trigger] entries_with_all(entries, pairs)[i].0@ == entries[i].0@,
    decreases pairs.len(),
{
    if pairs.len() > 0 {
        let init = pairs.drop_last();
        lemma_entries_with_all_keeps_keys(entries, init);
        let before = entries_with_all(entries, init);
        let key = pairs.last().0;
        lemma_key_index(before, key@);
        let after = entries_with(before, key, pairs.last().1);
        assert forall|i: int| 0 <= i < entries.len() implies #[trigger] after[i].0@ == entries[i].0@ by {
            assert(before[i].0@ == entries[i].0@);
        }
    }
}

/// Taking out the entry of `key` leaves the lookup of any other key as it was.
pub proof fn lemma_lookup_entries_without<V>(entries: Seq<(String, V)>, key: Seq<char>, other: Seq<char>)
    requires
        other != key,
    ensures
        entries_lookup(entries_without(entries, key), other) == entries_lookup(entries, other),
{
    lemma_key_index(entries, key);
    lemma_key_index(entries, other);
    let i = key_index(entries, key);
    if i >= 0 {
        let after = entries.remove(i);
        let o = key_index(entries, other);
        if o < 0 {
            lemma_key_index(after, other);
            if has_key(after, other) {
                let j = choose|j: int| 0 <= j < after.len() && #[trigger] after[j].0@ == other;
                let j0 = if j < i { j } else { j + 1 };
                assert(after[j] == entries[j0]);
                assert(has_key(entries, other));
            }
        } else {
            let o2 = if o < i { o } else { o - 1 };
            assert(after[o2] == entries[o]);
            assert forall|j: int| 0 <= j < o2 implies #[trigger] after[j].0@ != other by {
                let j0 = if j < i { j } else { j + 1 };
                assert(after[j] == entries[j0]);
            }
            lemma_key_index_at(after, other, o2);
        }
    }
}

/// Setting a key keeps the keys distinct.
pub proof fn lemma_distinct_entries_with<V>(entries: Seq<(String, V)>, key: String, value: V)
    requires
        distinct_keys(entries),
    ensures
        distinct_keys(entries_with(entries, key, value)),
{
    lemma_key_index(entries, key@);
    let i = key_index(entries, key@);
    let after = entries_with(entries, key, value);
    assert forall|a: int, b: int| 0 <= a < b < after.len() implies #[trigger] after[a].0@ != #[trigger] after[b].0@ by {
        if i < 0 {
            assert(after[a] == entries[a]);
            if b < entries.len() {
                assert(after[b] == entries[b]);
            } else if entries[a].0@ == key@ {
                assert(has_key(entries, key@));
            }
        } else {
            if a != i {
                assert(after[a] == entries[a]);
            }
            if b != i {
                assert(after[b] == entries[b]);
            }
        }
    }
}

/// Taking out the entry of `key` from entries with distinct keys keeps them
/// distinct and leaves no entry of `key`.
pub proof fn lemma_distinct_entries_without<V>(entries: Seq<(String, V)>, key: Seq<char>)
    requires
        distinct_keys(entries),
    ensures
        distinct_keys(entries_without(entries, key)),
        !has_key(entries_without(entries, key), key),
{
    lemma_key_index(entries, key);
    let i = key_index(entries, key);
    let after = entries_without(entries, key);
    assert forall|a: int, b: int| 0 <= a < b < after.len() implies #[trigger] after[a].0@ != #[trigger] after[b].0@ by {
        if i >= 0 {
            let a0 = if a < i { a } else { a + 1 };
            let b0 = if b < i { b } else { b + 1 };
            assert(after[a] == entries[a0]);
            assert(after[b] == entries[b0]);
        }
    }
    if has_key(after, key) {
        let j = choose|j: int| 0 <= j < after.len() && #[trigger] after[j].0@ == key;
        if i >= 0 {
            let j0 = if j < i { j } else { j + 1 };
            assert(after[j] == entries[j0]);
            assert(entries[i].0@ == entries[j0].0@);
        } else {
            assert(has_key(entries, key));
        }
    }
}

/// Setting a key other than `key` commutes with an entry of key `key`
/// standing at position `p`.
proof fn lemma_with_around_entry<V>(entries: Seq<(String, V)>, p: int, key: String, value: V, other: String, w: V)
    requires
        0 <= p <= entries.len(),
        !has_key(entries, key@),
        other@ != key@,
    ensures
        entries_with(entries.insert(p, (key, value)), other, w) == entries_with(entries, other, w).insert(
            p,
            (key, value),
        ),
        !has_key(entries_with(entries, other, w), key@),
        entries_with(entries, other, w).len() >= entries.len(),
{
    let big = entries.insert(p, (key, value));
    lemma_key_index(entries, other@);
    lemma_key_index(entries, key@);
    let i = key_index(entries, other@);
    assert forall|j: int| 0 <= j < entries.len() implies #[trigger] entries[j].0@ != key@ by {
        if entries[j].0@ == key@ {
            assert(has_key(entries, key@));
        }
    }
    if i < 0 {
        assert forall|j: int| 0 <= j < big.len() implies #[trigger] big[j].0@ != other@ by {
            if j < p {
                assert(big[j] == entries[j]);
            } else if j > p {
                assert(big[j] == entries[j - 1]);
            }
            if j != p && big[j].0@ == other@ {
                assert(has_key(entries, other@));
            }
        }
        lemma_key_index(big, other@);
        if has_key(big, other@) {
            let j = choose|j: int| 0 <= j < big.len() && #[trigger] big[j].0@ == other@;
            assert(big[j].0@ != other@);
        }
        assert(entries_with(big, other, w) =~= entries_with(entries, other, w).insert(p, (key, value)));
    } else {
        let bi = if i < p { i } else { i + 1 };
        assert(big[bi] == entries[i]);
        assert forall|j: int| 0 <= j < bi implies #[trigger] big[j].0@ != other@ by {
            if j < p {
                assert(big[j] == entries[j]);
            } else if j > p {
                assert(big[j] == entries[j - 1]);
            }
        }
        lemma_key_index_at(big, other@, bi);
        assert(entries_with(big, other, w) =~= entries_with(entries, other, w).insert(p, (key, value)));
    }
    let after = entries_with(entries, other, w);
    assert forall|j: int| 0 <= j < after.len() implies #[trigger] after[j].0@ != key@ by {
        if i < 0 {
            if j < entries.len() {
                assert(after[j] == entries[j]);
            }
        } else if j != i {
            assert(after[j] == entries[j]);
        }
    }
}

/// An entry of key `key` set before other keys are set stands, once taken
/// out again, as if it had never been set.
pub proof fn lemma_without_after_with<V>(entries: Seq<(String, V)>, key: String, value: V, pairs: Seq<(String, V)>)
    requires
        !has_key(entries, key@),
        forall|i: int| 0 <= i < pairs.len() ==> #[trigger] pairs[i].0@ != key@,
    ensures
        entries_without(entries_with_all(entries_with(entries, key, value), pairs), key@)
            == entries_with_all(entries, pairs),
{
    lemma_with_all_around_entry(entries, key, value, pairs);
    let rest = entries_with_all(entries, pairs);
    let p = entries.len() as int;
    let big = rest.insert(p, (key, value));
    assert forall|j: int| 0 <= j < p implies #[trigger] big[j].0@ != key@ by {
        assert(big[j] == rest[j]);
        if rest[j].0@ == key@ {
            assert(has_key(rest, key@));
        }
    }
    lemma_key_index_at(big, key@, p);
    assert(big.remove(p) =~= rest);
}

/// Setting other keys after an entry of key `key` is set at the end keeps
/// that entry where it stands.
proof fn lemma_with_all_around_entry<V>(entries: Seq<(String, V)>, key: String, value: V, pairs: Seq<(String, V)>)
    requires
        !has_key(entries, key@),
        forall|i: int| 0 <= i < pairs.len() ==> #[trigger] pairs[i].0@ != key@,
    ensures
        entries_with_all(entries_with(entries, key, value), pairs) == entries_with_all(entries, pairs).insert(
            entries.len() as int,
            (key, value),
        ),
        !has_key(entries_with_all(entries, pairs), key@),
        entries_with_all(entries, pairs).len() >= entries.len(),
    decreases pairs.len(),
{
    if pairs.len() == 0 {
        lemma_key_index(entries, key@);
        assert(entries_with(entries, key, value) =~= entries.insert(entries.len() as int, (key, value)));
    } else {
        let init = pairs.drop_last();
        assert forall|i: int| 0 <= i < init.len() implies #[trigger] init[i].0@ != key@ by {
            assert(init[i] == pairs[i]);
        }
        lemma_with_all_around_entry(entries, key, value, init);
        let last = pairs.last();
        assert(last.0@ != key@);
        lemma_with_around_entry(entries_with_all(entries, init), entries.len() as int, key, value, last.0, last.1);
    }
}

/// The position of the first entry whose key reads `key`.
pub fn find_key<V>(entries: &Vec<(String, V)>, key: &str) -> (r: Option<usize>)
    ensures
        r matches Some(i) ==> i == key_index(entries@, key@) && i < entries@.len(),
        r is None <==> key_index(entries@, key@) < 0,
{
    proof {
        lemma_key_index(entries@, key@);
    }
    let mut i: usize = 0;
    while i < entries.len()
        invariant
            i <= entries@.len(),
            forall|j: int| 0 <= j < i ==> #[trigger] entries@[j].0@ != key@,
            -1 <= key_index(entries@, key@) < entries@.len(),
            key_index(entries@, key@) < 0 <==> !has_key(entries@, key@),
            key_index(entries@, key@) >= 0 ==> entries@[key_index(entries@, key@)].0@ == key@,
            forall|j: int| 0 <= j < key_index(entries@, key@) ==> #[trigger] entries@[j].0@ != key@,
        decreases entries@.len() - i,
    {
        if str_equal(entries[i].0.as_str(), key) {
            return Some(i);
        }
        i = i + 1;
    }
    None
}

/// Takes out the first entry whose key reads `key` and gives back its value.
pub fn entries_remove<V>(entries: &mut Vec<(String, V)>, key: &str) -> (r: Option<V>)
    ensures
        r == entries_lookup(old(entries)@, key@),
        final(entries)@ == entries_without(old(entries)@, key@),
{
    proof {
        lemma_key_index(entries@, key@);
    }
    match find_key(entries, key) {
        Some(i) => {
            let (_, v) = entries.remove(i);
            Some(v)
        },
        None => None,
    }
}

/// Sets the value of `key`: in place where the key is there, appended at
/// the end where it is not. Gives back the value it replaced.
pub fn entries_insert<V>(entries: &mut Vec<(String, V)>, key: String, value: V) -> (r: Option<V>)
    ensures
        r == entries_lookup(old(entries)@, key@),
        final(entries)@ == entries_with(old(entries)@, key, value),
{
    proof {
        lemma_key_index(entries@, key@);
    }
    match find_key(entries, key.as_str()) {
        Some(i) => {
            let (_, old_value) = entries.remove(i);
            entries.insert(i, (key, value));
            proof {
                assert(entries@ =~= entries_with(old(entries)@, key, value));
            }
            Some(old_value)
        },
        None => {
            entries.push((key, value));
            None
        },
    }
}

impl JsonObject {
    /// An object with no members.
    pub fn new() -> (o: JsonObject)
        ensures
            o@ == Seq::<(String, Value)>::empty(),
    {
        JsonObject { members: Vec::new() }
    }

    /// An object of the given members, set in turn: a member whose key came
    /// before replaces the earlier value in its place.
    pub fn from_members(members: Vec<(String, Value)>) -> (o: JsonObject)
        ensures
            o@ == entries_with_all(Seq::<(String, Value)>::empty(), members@),
    {
        let mut o = JsonObject::new();
        let mut rest = members;
        let ghost mut done = Seq::<(String, Value)>::empty();
        while rest.len() > 0
            invariant
                members@ == done + rest@,
                o@ == entries_with_all(Seq::<(String, Value)>::empty(), done),
            decreases rest@.len(),
        {
            let ghost before = rest@;
            let (k, v) = rest.remove(0);
            proof {
                assert(before =~= seq![(k, v)] + rest@);
                let next = done.push((k, v));
                assert(next.drop_last() =~= done);
                assert(members@ =~= next + rest@);
                done = next;
            }
            o.insert(k, v);
        }
        assert(members@ =~= done);
        o
    }

    /// The members of the object, in order; no key occurs twice.
    pub fn members(&self) -> (r: &Vec<(String, Value)>)
        ensures
            r@ == self@,
            distinct_keys(self@),
    {
        proof {
            use_type_invariant(self);
        }
        &self.members
    }

    /// The members of the object, in order; no key occurs twice.
    pub fn into_members(self) -> (r: Vec<(String, Value)>)
        ensures
            r@ == self@,
            distinct_keys(r@),
    {
        proof {
            use_type_invariant(&self);
        }
        self.members
    }

    /// The value of the member with the key, if any.
    pub fn get(&self, key: &str) -> (r: Option<&Value>)
        ensures
            r == (match entries_lookup(self@, key@) {
                Some(v) => Some(&v),
                None => None::<&Value>,
            }),
    {
        entries_get(&self.members, key)
    }

    /// Sets the value of `key`: in place where the key is there, appended at
    /// the end where it is not. Gives back the value it replaced.
    pub fn insert(&mut self, key: String, value: Value) -> (r: Option<Value>)
        ensures
            r == entries_lookup(old(self)@, key@),
            final(self)@ == entries_with(old(self)@, key, value),
    {
        proof {
            use_type_invariant(&*self);
            lemma_distinct_entries_with(self.members@, key, value);
        }
        let mut members = Vec::new();
        std::mem::swap(&mut members, &mut self.members);
        let r = entries_insert(&mut members, key, value);
        self.members = members;
        r
    }

    /// Takes out the member with the key and gives back its value.
    pub fn remove(&mut self, key: &str) -> (r: Option<Value>)
        ensures
            r == entries_lookup(old(self)@, key@),
            final(self)@ == entries_without(old(self)@, key@),
            !has_key(final(self)@, key@),
    {
        proof {
            use_type_invariant(&*self);
            lemma_distinct_entries_without(self.members@, key@);
        }
        let mut members = Vec::new();
        std::mem::swap(&mut members, &mut self.members);
        let r = entries_remove(&mut members, key);
        self.members = members;
        r
    }
}

} // verus!
