//! A map keyed by strings.
//!
//! The entries are kept in the order in which their keys first came; no key
//! occurs twice. Contracts speak of the entries, or of the `Map` from key
//! text to value that they make up.

use vstd::prelude::*;
use crate::text::str_eq;

verus! {

/// Whether no key text occurs twice among `entries`.
pub open spec fn distinct_keys<V>(entries: Seq<(String, V)>) -> bool {
    forall|i: int, j: int|
        0 <= i < j < entries.len() ==> (#[trigger] entries[i]).0@ != (#[trigger] entries[j]).0@
}

/// The first position at or after `from` whose key reads `key`, or the
/// length of `entries` where there is none.
pub open spec fn position_from<V>(entries: Seq<(String, V)>, key: Seq<char>, from: int) -> int
    decreases entries.len() - from,
{
    if from < 0 || from >= entries.len() {
        entries.len() as int
    } else if entries[from].0@ == key {
        from
    } else {
        position_from(entries, key, from + 1)
    }
}

/// The position of `key` among `entries`, or their length where it is absent.
pub open spec fn position<V>(entries: Seq<(String, V)>, key: Seq<char>) -> int {
    position_from(entries, key, 0)
}

/// `position_from` finds the first entry with the key and nothing before it.
pub proof fn lemma_position_from<V>(entries: Seq<(String, V)>, key: Seq<char>, from: int)
    requires
        0 <= from <= entries.len(),
    ensures
        from <= position_from(entries, key, from) <= entries.len(),
        position_from(entries, key, from) < entries.len() ==> entries[position_from(
            entries,
            key,
            from,
        )].0@ == key,
        forall|i: int|
            from <= i < position_from(entries, key, from) ==> (#[trigger] entries[i]).0@ != key,
    decreases entries.len() - from,
{
    if from < entries.len() && entries[from].0@ != key {
        lemma_position_from(entries, key, from + 1);
    }
}

/// Entries with the same keys at the same places find every key at the same
/// place.
pub proof fn lemma_same_keys_same_position<A, B>(
    a: Seq<(String, A)>,
    b: Seq<(String, B)>,
    key: Seq<char>,
    from: int,
)
    requires
        a.len() == b.len(),
        forall|i: int| 0 <= i < a.len() ==> (#[trigger] a[i]).0@ == b[i].0@,
    ensures
        position_from(a, key, from) == position_from(b, key, from),
    decreases a.len() - from,
{
    if 0 <= from < a.len() {
        assert(a[from].0@ == b[from].0@);
        if a[from].0@ != key {
            lemma_same_keys_same_position(a, b, key, from + 1);
        }
    }
}

/// Where a key is found once an entry has been added at the end: where it
/// was, or at the new entry where that has the key.
pub proof fn lemma_position_after_push<V>(
    entries: Seq<(String, V)>,
    entry: (String, V),
    key: Seq<char>,
    from: int,
)
    requires
        0 <= from <= entries.len(),
    ensures
        position_from(entries.push(entry), key, from) == if position_from(entries, key, from)
            < entries.len() {
            position_from(entries, key, from)
        } else if entry.0@ == key {
            entries.len() as int
        } else {
            entries.len() as int + 1
        },
    decreases entries.len() - from,
{
    let longer = entries.push(entry);
    if from < entries.len() {
        assert(longer[from] == entries[from]);
        if entries[from].0@ != key {
            lemma_position_after_push(entries, entry, key, from + 1);
        }
    } else {
        assert(longer[from] == entry);
        assert(position_from(entries, key, from) == entries.len());
        assert(position_from(longer, key, from + 1) == longer.len());
    }
}

/// A map from strings to values of `V`.
///
/// Two maps are `==` where they hold equal entries in the same order.
#[derive(Debug, PartialEq)]
pub struct StringMap<V> {
    entries: Vec<(String, V)>,
}

impl<V> StringMap<V> {
    /// Every map that code can hold has distinct keys.
    #[verifier::type_invariant]
    spec fn distinct(&self) -> bool {
        distinct_keys(self.entries@)
    }

    /// The entries, in the order in which their keys first came.
    pub closed spec fn entries(&self) -> Seq<(String, V)> {
        self.entries@
    }

    /// No key occurs twice.
    pub open spec fn wf(&self) -> bool {
        distinct_keys(self.entries())
    }

    /// Whether some entry has the key `key`.
    pub open spec fn has(&self, key: Seq<char>) -> bool {
        position(self.entries(), key) < self.entries().len()
    }

    /// The value under `key`, where `has(key)`.
    pub open spec fn value(&self, key: Seq<char>) -> V {
        self.entries()[position(self.entries(), key)].1
    }

    /// The map from key text to value that the entries make up.
    pub open spec fn as_map(&self) -> Map<Seq<char>, V> {
        Map::new(|k: Seq<char>| self.has(k), |k: Seq<char>| self.value(k))
    }

    /// An empty map.
    pub fn new() -> (r: Self)
        ensures
            r.entries() == Seq::<(String, V)>::empty(),
            r.as_map() == Map::<Seq<char>, V>::empty(),
            r.wf(),
    {
        let r = StringMap { entries: Vec::new() };
        proof {
            assert(r.as_map() =~= Map::<Seq<char>, V>::empty());
        }
        r
    }

    /// The number of entries.
    pub fn len(&self) -> (r: usize)
        ensures
            r == self.entries().len(),
            self.wf(),
    {
        proof {
            use_type_invariant(self);
        }
        self.entries.len()
    }

    /// Whether the map has no entry.
    pub fn is_empty(&self) -> (r: bool)
        ensures
            r == (self.entries().len() == 0),
    {
        self.entries.len() == 0
    }

    /// Where `key` stands among the entries.
    fn find(&self, key: &str) -> (r: usize)
        ensures
            r == position(self.entries(), key@),
            r <= self.entries().len(),
    {
        let mut i: usize = 0;
        while i < self.entries.len()
            invariant
                i <= self.entries@.len(),
                position(self.entries@, key@) == position_from(self.entries@, key@, i as int),
            decreases self.entries@.len() - i,
        {
            if str_eq(self.entries[i].0.as_str(), key) {
                return i;
            }
            i = i + 1;
        }
        i
    }

    /// Whether the map has an entry under `key`.
    pub fn contains_key(&self, key: &str) -> (r: bool)
        ensures
            r == self.has(key@),
            r == self.as_map().contains_key(key@),
    {
        self.find(key) < self.entries.len()
    }

    /// The value under `key`, if there is one.
    pub fn get(&self, key: &str) -> (r: Option<&V>)
        ensures
            match r {
                Some(v) => self.has(key@) && *v == self.value(key@),
                None => !self.has(key@),
            },
            match r {
                Some(v) => self.as_map().contains_key(key@) && *v == self.as_map()[key@],
                None => !self.as_map().contains_key(key@),
            },
    {
        let i = self.find(key);
        if i < self.entries.len() {
            Some(&self.entries[i].1)
        } else {
            None
        }
    }

    /// The key and the value at position `i`.
    pub fn entry(&self, i: usize) -> (r: (&String, &V))
        requires
            i < self.entries().len(),
        ensures
            *r.0 == self.entries()[i as int].0,
            *r.1 == self.entries()[i as int].1,
    {
        (&self.entries[i].0, &self.entries[i].1)
    }

    /// Puts `value` under `key`. A key that is new goes to the end; for one
    /// that is there already the value is replaced, in place, and the old
    /// value is handed back.
    pub fn insert(&mut self, key: String, value: V) -> (r: Option<V>)
        ensures
            old(self).wf(),
            final(self).wf(),
            final(self).as_map() == old(self).as_map().insert(key@, value),
            match r {
                Some(previous) => {
                    &&& old(self).has(key@)
                    &&& previous == old(self).value(key@)
                    &&& final(self).entries() == old(self).entries().update(
                        position(old(self).entries(), key@),
                        (old(self).entries()[position(old(self).entries(), key@)].0, value),
                    )
                },
                None => {
                    &&& !old(self).has(key@)
                    &&& final(self).entries() == old(self).entries().push((key, value))
                },
            },
    {
        let i = self.find(key.as_str());
        proof {
            use_type_invariant(&*self);
            lemma_position_from(self.entries@, key@, 0);
        }
        let mut entries: Vec<(String, V)> = Vec::new();
        std::mem::swap(&mut self.entries, &mut entries);
        let r = if i < entries.len() {
            let (k, previous) = entries.remove(i);
            entries.insert(i, (k, value));
            proof {
                assert(entries@ =~= old(self).entries@.update(
                    i as int,
                    (old(self).entries@[i as int].0, value),
                ));
            }
            Some(previous)
        } else {
            entries.push((key, value));
            None
        };
        std::mem::swap(&mut self.entries, &mut entries);
        proof {
            let before = old(self).entries@;
            let after = self.entries@;
            assert forall|k: Seq<char>|
                self.has(k) == (k == key@ || old(self).has(k)) && (self.has(k) ==> self.value(k)
                    == if k == key@ {
                    value
                } else {
                    old(self).value(k)
                }) by {
                lemma_position_from(before, k, 0);
                if i < before.len() {
                    lemma_same_keys_same_position(after, before, k, 0);
                } else {
                    lemma_position_after_push(before, (key, value), k, 0);
                }
            }
            assert(self.as_map() =~= old(self).as_map().insert(key@, value));
        }
        r
    }

    /// Hands the entries out, in their order.
    pub fn into_entries(self) -> (r: Vec<(String, V)>)
        ensures
            r@ == self.entries(),
            distinct_keys(r@),
    {
        proof {
            use_type_invariant(&self);
        }
        self.entries
    }

    /// Makes a map of entries whose keys are known to differ.
    pub fn from_entries(entries: Vec<(String, V)>) -> (r: Self)
        requires
            distinct_keys(entries@),
        ensures
            r.entries() == entries@,
            r.wf(),
    {
        StringMap { entries }
    }
}

impl<V: Clone> Clone for StringMap<V> {
    /// A map with the same keys in the same order, each with a clone of its
    /// value.
    fn clone(&self) -> (r: Self)
        ensures
            r.wf(),
            r.entries().len() == self.entries().len(),
            forall|i: int|
                0 <= i < self.entries().len() ==> (#[trigger] r.entries()[i]).0
                    == self.entries()[i].0 && cloned(self.entries()[i].1, r.entries()[i].1),
    {
        proof {
            use_type_invariant(self);
        }
        let mut entries: Vec<(String, V)> = Vec::new();
        let mut i: usize = 0;
        while i < self.entries.len()
            invariant
                i <= self.entries@.len(),
                entries@.len() == i,
                forall|j: int|
                    0 <= j < i ==> (#[trigger] entries@[j]).0 == self.entries@[j].0 && cloned(
                        self.entries@[j].1,
                        entries@[j].1,
                    ),
            decreases self.entries@.len() - i,
        {
            entries.push((self.entries[i].0.clone(), self.entries[i].1.clone()));
            i = i + 1;
        }
        proof {
            assert forall|a: int, b: int| 0 <= a < b < entries@.len() implies (
            #[trigger] entries@[a]).0@ != (#[trigger] entries@[b]).0@ by {
                assert(self.entries@[a].0@ != self.entries@[b].0@);
            }
        }
        StringMap { entries }
    }
}

} // verus!
