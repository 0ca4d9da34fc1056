//! A map with text keys, held in key order.
use vstd::prelude::*;

use crate::text::chars_of;

verus! {

// ---------------------------------------------------------------------------
// The order of text
// ---------------------------------------------------------------------------

/// Whether `a` comes before `b` when both are read character by character, a
/// shorter text before its continuations.
pub open spec fn less(a: Seq<char>, b: Seq<char>) -> bool
    decreases a.len(),
{
    if b.len() == 0 {
        false
    } else if a.len() == 0 {
        true
    } else if a[0] == b[0] {
        less(a.skip(1), b.skip(1))
    } else {
        (a[0] as int) < (b[0] as int)
    }
}

/// No text comes before itself.
pub proof fn lemma_less_irreflexive(a: Seq<char>)
    ensures
        !less(a, a),
    decreases a.len(),
{
    if a.len() > 0 {
        lemma_less_irreflexive(a.skip(1));
    }
}

/// The order is transitive.
pub proof fn lemma_less_transitive(a: Seq<char>, b: Seq<char>, c: Seq<char>)
    requires
        less(a, b),
        less(b, c),
    ensures
        less(a, c),
    decreases a.len(),
{
    if a.len() > 0 && a[0] == b[0] && b[0] == c[0] {
        lemma_less_transitive(a.skip(1), b.skip(1), c.skip(1));
    }
}

/// Of two different texts one comes first.
pub proof fn lemma_less_total(a: Seq<char>, b: Seq<char>)
    ensures
        less(a, b) || less(b, a) || a == b,
    decreases a.len(),
{
    if a.len() > 0 && b.len() > 0 {
        if a[0] == b[0] {
            lemma_less_total(a.skip(1), b.skip(1));
            if a.skip(1) == b.skip(1) {
                assert(a =~= seq![a[0]] + a.skip(1));
                assert(b =~= seq![b[0]] + b.skip(1));
            }
        } else {
            assert(a[0] as int != b[0] as int);
        }
    } else {
        assert(a.len() == 0 && b.len() == 0 ==> a =~= b);
    }
}

/// How one text stands to another.
#[derive(Clone, Copy, Debug, PartialEq, Eq, Structural)]
pub enum TextOrder {
    Before,
    Same,
    After,
}

/// How `a` stands to `b` in the order of text.
pub fn text_order(a: &str, b: &str) -> (order: TextOrder)
    ensures
        match order {
            TextOrder::Before => less(a@, b@),
            TextOrder::Same => a@ == b@,
            TextOrder::After => less(b@, a@),
        },
{
    let xs: Vec<char> = chars_of(a);
    let ys: Vec<char> = chars_of(b);
    let mut i: usize = 0;
    proof {
        assert(a@.skip(0) =~= a@);
        assert(b@.skip(0) =~= b@);
    }
    while i < xs.len() && i < ys.len()
        invariant
            i <= xs@.len(),
            i <= ys@.len(),
            xs@ == a@,
            ys@ == b@,
            forall|j: int| 0 <= j < i ==> a@[j] == b@[j],
            less(a@, b@) == less(a@.skip(i as int), b@.skip(i as int)),
            less(b@, a@) == less(b@.skip(i as int), a@.skip(i as int)),
        decreases xs@.len() - i,
    {
        let x: char = xs[i];
        let y: char = ys[i];
        if x < y {
            return TextOrder::Before;
        }
        if y < x {
            return TextOrder::After;
        }
        proof {
            assert(a@.skip(i as int).skip(1) =~= a@.skip(i + 1));
            assert(b@.skip(i as int).skip(1) =~= b@.skip(i + 1));
        }
        i = i + 1;
    }
    if i < ys.len() {
        return TextOrder::Before;
    }
    if i < xs.len() {
        return TextOrder::After;
    }
    proof {
        assert(a@ =~= b@);
    }
    TextOrder::Same
}

// ---------------------------------------------------------------------------
// The map
// ---------------------------------------------------------------------------

/// A map from text to `V`. Its entries stand in the order of their keys, and no key
/// occurs twice.
#[derive(Debug, PartialEq, Eq)]
pub struct TextMap<V> {
    entries: Vec<(String, V)>,
}

/// Whether the keys of `entries` come in strictly increasing order.
spec fn increasing<V>(entries: Seq<(String, V)>) -> bool {
    forall|i: int, j: int|
        0 <= i < j < entries.len() ==> less(#[trigger] entries[i].0@, #[trigger] entries[j].0@)
}

/// The keys of `entries`, in order.
spec fn keys_in<V>(entries: Seq<(String, V)>) -> Seq<Seq<char>> {
    entries.map_values(|e: (String, V)| e.0@)
}

/// What `entries` maps to what.
spec fn map_of<V>(entries: Seq<(String, V)>) -> Map<Seq<char>, V> {
    Map::new(
        |k: Seq<char>| keys_in(entries).contains(k),
        |k: Seq<char>| entries[keys_in(entries).index_of(k)].1,
    )
}

/// In increasing entries a key determines its place.
proof fn lemma_key_place<V>(entries: Seq<(String, V)>, i: int)
    requires
        increasing(entries),
        0 <= i < entries.len(),
    ensures
        keys_in(entries).index_of(entries[i].0@) == i,
        map_of(entries).dom().contains(entries[i].0@),
        map_of(entries)[entries[i].0@] == entries[i].1,
{
    let keys = keys_in(entries);
    let k = entries[i].0@;
    assert(keys[i] == k);
    assert(keys.contains(k));
    let j = keys.index_of(k);
    assert(0 <= j < keys.len() && keys[j] == k);
    if j < i {
        assert(less(entries[j].0@, entries[i].0@));
        lemma_less_irreflexive(k);
    }
    if i < j {
        assert(less(entries[i].0@, entries[j].0@));
        lemma_less_irreflexive(k);
    }
}

impl<V> View for TextMap<V> {
    type V = Map<Seq<char>, V>;

    closed spec fn view(&self) -> Map<Seq<char>, V> {
        map_of(self.entries@)
    }
}

impl<V> TextMap<V> {
    #[verifier::type_invariant]
    spec fn well_formed(self) -> bool {
        increasing(self.entries@)
    }

    /// The keys, in the order in which the map walks them.
    pub closed spec fn keys(self) -> Seq<Seq<char>> {
        keys_in(self.entries@)
    }

    /// The empty map.
    pub fn new() -> (map: Self)
        ensures
            map@ == Map::<Seq<char>, V>::empty(),
            map.keys() == Seq::<Seq<char>>::empty(),
    {
        let map: TextMap<V> = TextMap { entries: Vec::new() };
        proof {
            assert(map.keys() =~= Seq::<Seq<char>>::empty());
            assert(map@ =~= Map::<Seq<char>, V>::empty());
        }
        map
    }

    /// Where `key` stands, or where it would be inserted.
    fn place(&self, key: &str) -> (at: (usize, bool))
        ensures
            at.0 <= self.entries@.len(),
            at.1 ==> at.0 < self.entries@.len() && self.entries@[at.0 as int].0@ == key@,
            forall|j: int|
                0 <= j < at.0 ==> less(#[trigger] self.entries@[j].0@, key@),
            forall|j: int|
                at.0 <= j < self.entries@.len() && !at.1 ==> less(
                    key@,
                    #[trigger] self.entries@[j].0@,
                ),
    {
        proof {
            use_type_invariant(self);
        }
        let mut i: usize = 0;
        while i < self.entries.len()
            invariant
                i <= self.entries@.len(),
                increasing(self.entries@),
                forall|j: int| 0 <= j < i ==> less(#[trigger] self.entries@[j].0@, key@),
            decreases self.entries@.len() - i,
        {
            match text_order(self.entries[i].0.as_str(), key) {
                TextOrder::Before => {},
                TextOrder::Same => {
                    return (i, true);
                },
                TextOrder::After => {
                    proof {
                        assert forall|j: int| i <= j < self.entries@.len() implies less(
                            key@,
                            #[trigger] self.entries@[j].0@,
                        ) by {
                            if i < j {
                                lemma_less_transitive(
                                    key@,
                                    self.entries@[i as int].0@,
                                    self.entries@[j].0@,
                                );
                            }
                        }
                    }
                    return (i, false);
                },
            }
            i = i + 1;
        }
        (i, false)
    }

    /// The number of keys. The map walks each of them once, in increasing order.
    pub fn len(&self) -> (n: usize)
        ensures
            n == self.keys().len(),
            walks(self.keys(), self@),
    {
        proof {
            use_type_invariant(self);
            assert forall|i: int, j: int| 0 <= i < j < self.keys().len() implies less(
                #[trigger] self.keys()[i],
                #[trigger] self.keys()[j],
            ) by {
                assert(less(self.entries@[i].0@, self.entries@[j].0@));
            }
        }
        self.entries.len()
    }

    /// Whether `key` is in the map.
    pub fn contains_key(&self, key: &str) -> (found: bool)
        ensures
            found == self@.dom().contains(key@),
    {
        match self.get(key) {
            Some(_) => true,
            None => false,
        }
    }

    /// What `key` is mapped to.
    pub fn get(&self, key: &str) -> (value: Option<&V>)
        ensures
            match value {
                Some(v) => self@.dom().contains(key@) && *v == self@[key@],
                None => !self@.dom().contains(key@),
            },
    {
        proof {
            use_type_invariant(self);
        }
        let (i, found) = self.place(key);
        if found {
            proof {
                lemma_key_place(self.entries@, i as int);
            }
            Some(&self.entries[i].1)
        } else {
            proof {
                self.lemma_absent(key@, i as int);
            }
            None
        }
    }

    /// A key between its neighbours is not in the map.
    proof fn lemma_absent(self, key: Seq<char>, i: int)
        requires
            0 <= i <= self.entries@.len(),
            forall|j: int| 0 <= j < i ==> less(#[trigger] self.entries@[j].0@, key),
            forall|j: int|
                i <= j < self.entries@.len() ==> less(key, #[trigger] self.entries@[j].0@),
        ensures
            !self@.dom().contains(key),
    {
        if keys_in(self.entries@).contains(key) {
            let j = keys_in(self.entries@).index_of(key);
            assert(self.entries@[j].0@ == key);
            lemma_less_irreflexive(key);
        }
    }

    /// Maps `key` to `value`, in place of what it was mapped to before.
    pub fn insert(&mut self, key: String, value: V)
        ensures
            final(self)@ == old(self)@.insert(key@, value),
    {
        proof {
            use_type_invariant(&*self);
        }
        let ghost before = self.entries@;
        let (i, found) = self.place(key.as_str());
        let mut entries: Vec<(String, V)> = Vec::new();
        core::mem::swap(&mut entries, &mut self.entries);
        if found {
            proof {
                lemma_key_place(before, i as int);
            }
            entries.set(i, (key, value));
            proof {
                assert(increasing(entries@));
                assert(keys_in(entries@) =~= keys_in(before));
            }
        } else {
            entries.insert(i, (key, value));
            proof {
                assert(increasing(entries@)) by {
                    assert forall|a: int, b: int| 0 <= a < b < entries@.len() implies less(
                        #[trigger] entries@[a].0@,
                        #[trigger] entries@[b].0@,
                    ) by {
                        let a0 = if a < i {
                            a
                        } else {
                            a - 1
                        };
                        let b0 = if b < i {
                            b
                        } else {
                            b - 1
                        };
                        if a != i && b != i {
                            assert(less(before[a0].0@, before[b0].0@));
                        } else if a == i {
                            assert(less(key@, before[b0].0@));
                        } else {
                            assert(less(before[a0].0@, key@));
                        }
                    }
                }
            }
        }
        self.entries = entries;
        proof {
            lemma_inserted(before, self.entries@, i as int, found, key, value);
        }
    }

    /// Takes `key` out of the map.
    pub fn remove(&mut self, key: &str) -> (taken: Option<V>)
        ensures
            final(self)@ == old(self)@.remove(key@),
            match taken {
                Some(v) => old(self)@.dom().contains(key@) && v == old(self)@[key@],
                None => !old(self)@.dom().contains(key@),
            },
    {
        proof {
            use_type_invariant(&*self);
        }
        let ghost before = self.entries@;
        let (i, found) = self.place(key);
        if !found {
            proof {
                self.lemma_absent(key@, i as int);
                assert(self@.remove(key@) =~= self@);
            }
            return None;
        }
        let mut entries: Vec<(String, V)> = Vec::new();
        core::mem::swap(&mut entries, &mut self.entries);
        let taken: (String, V) = entries.remove(i);
        proof {
            lemma_key_place(before, i as int);
            assert(increasing(entries@)) by {
                assert forall|a: int, b: int| 0 <= a < b < entries@.len() implies less(
                    #[trigger] entries@[a].0@,
                    #[trigger] entries@[b].0@,
                ) by {
                    let a0 = if a < i {
                        a
                    } else {
                        a + 1
                    };
                    let b0 = if b < i {
                        b
                    } else {
                        b + 1
                    };
                    assert(less(before[a0].0@, before[b0].0@));
                }
            }
        }
        self.entries = entries;
        proof {
            lemma_removed(before, self.entries@, i as int);
        }
        Some(taken.1)
    }

    /// The key at place `i`.
    pub fn key_at(&self, i: usize) -> (key: &String)
        requires
            i < self.keys().len(),
        ensures
            key@ == self.keys()[i as int],
    {
        &self.entries[i].0
    }

    /// The value at place `i`.
    pub fn value_at(&self, i: usize) -> (value: &V)
        requires
            i < self.keys().len(),
        ensures
            self@.dom().contains(self.keys()[i as int]),
            *value == self@[self.keys()[i as int]],
    {
        proof {
            use_type_invariant(self);
            lemma_key_place(self.entries@, i as int);
        }
        &self.entries[i].1
    }
}

/// Whether `keys` are the keys of `map`, each once and in increasing order.
pub open spec fn walks<V>(keys: Seq<Seq<char>>, map: Map<Seq<char>, V>) -> bool {
    &&& forall|k: Seq<char>| #[trigger] map.dom().contains(k) <==> keys.contains(k)
    &&& forall|i: int, j: int|
        0 <= i < j < keys.len() ==> less(#[trigger] keys[i], #[trigger] keys[j])
}

proof fn lemma_inserted<V>(
    before: Seq<(String, V)>,
    after: Seq<(String, V)>,
    i: int,
    found: bool,
    key: String,
    value: V,
)
    requires
        increasing(before),
        increasing(after),
        0 <= i <= before.len(),
        found ==> i < before.len() && before[i].0@ == key@ && after == before.update(
            i,
            (key, value),
        ),
        !found ==> after == before.insert(i, (key, value)),
    ensures
        map_of(after) == map_of(before).insert(key@, value),
{
    let m = map_of(before).insert(key@, value);
    lemma_key_place(after, i);
    assert forall|k: Seq<char>| map_of(after).dom().contains(k) <==> m.dom().contains(k) by {
        if map_of(after).dom().contains(k) {
            let j = keys_in(after).index_of(k);
            if j != i {
                let j0 = if found || j < i {
                    j
                } else {
                    j - 1
                };
                assert(before[j0] == after[j]);
                lemma_key_place(before, j0);
            }
        }
        if m.dom().contains(k) && k != key@ {
            let j = keys_in(before).index_of(k);
            let j1 = if found || j < i {
                j
            } else {
                j + 1
            };
            assert(after[j1] == before[j]);
            lemma_key_place(after, j1);
        }
    }
    assert forall|k: Seq<char>| map_of(after).dom().contains(k) implies map_of(after)[k]
        == m[k] by {
        let j = keys_in(after).index_of(k);
        lemma_key_place(after, j);
        if k != key@ {
            let j0 = if found || j < i {
                j
            } else {
                j - 1
            };
            assert(before[j0] == after[j]);
            lemma_key_place(before, j0);
        }
    }
    assert(map_of(after) =~= m);
}

proof fn lemma_removed<V>(before: Seq<(String, V)>, after: Seq<(String, V)>, i: int)
    requires
        increasing(before),
        increasing(after),
        0 <= i < before.len(),
        after == before.remove(i),
    ensures
        map_of(after) == map_of(before).remove(before[i].0@),
{
    let gone = before[i].0@;
    let m = map_of(before).remove(gone);
    lemma_key_place(before, i);
    assert forall|k: Seq<char>| map_of(after).dom().contains(k) <==> m.dom().contains(k) by {
        if map_of(after).dom().contains(k) {
            let j = keys_in(after).index_of(k);
            let j0 = if j < i {
                j
            } else {
                j + 1
            };
            assert(before[j0] == after[j]);
            lemma_key_place(before, j0);
        }
        if m.dom().contains(k) {
            let j = keys_in(before).index_of(k);
            assert(j != i);
            let j1 = if j < i {
                j
            } else {
                j - 1
            };
            assert(after[j1] == before[j]);
            lemma_key_place(after, j1);
        }
    }
    assert forall|k: Seq<char>| map_of(after).dom().contains(k) implies map_of(after)[k]
        == m[k] by {
        let j = keys_in(after).index_of(k);
        lemma_key_place(after, j);
        let j0 = if j < i {
            j
        } else {
            j + 1
        };
        assert(before[j0] == after[j]);
        lemma_key_place(before, j0);
    }
    assert(map_of(after) =~= m);
}

/// The texts that a map of strings holds.
pub open spec fn texts(map: Map<Seq<char>, String>) -> Map<Seq<char>, Seq<char>> {
    map.map_values(|t: String| t@)
}

/// Inserting a string inserts its text.
pub proof fn lemma_texts_insert(map: Map<Seq<char>, String>, key: Seq<char>, value: String)
    ensures
        texts(map.insert(key, value)) == texts(map).insert(key, value@),
{
    assert(texts(map.insert(key, value)) =~= texts(map).insert(key, value@));
}

/// Removing a key removes its text.
pub proof fn lemma_texts_remove(map: Map<Seq<char>, String>, key: Seq<char>)
    ensures
        texts(map.remove(key)) == texts(map).remove(key),
{
    assert(texts(map.remove(key)) =~= texts(map).remove(key));
}

impl Clone for TextMap<String> {
    fn clone(&self) -> (copy: Self)
        ensures
            copy@ == self@,
            copy.keys() == self.keys(),
    {
        proof {
            use_type_invariant(self);
        }
        let mut entries: Vec<(String, String)> = Vec::new();
        let mut i: usize = 0;
        while i < self.entries.len()
            invariant
                i <= self.entries@.len(),
                entries@ =~= self.entries@.take(i as int),
            decreases self.entries@.len() - i,
        {
            let entry: (String, String) = (self.entries[i].0.clone(), self.entries[i].1.clone());
            entries.push(entry);
            i = i + 1;
        }
        proof {
            assert(entries@ =~= self.entries@);
        }
        TextMap { entries }
    }
}

} // verus!
