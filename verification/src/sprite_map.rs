//! A small association list keyed by sprite index and variant.
//!
//! The keys are kept in the order in which they were first inserted and no
//! key occurs twice. Its model is [`Assoc`]: the sequence of the keys and
//! the sequence of their values.

use vstd::prelude::*;
use crate::SpriteType;

verus! {

/// A sprite index together with a variant.
pub type SpriteKey = (usize, SpriteType);

/// The model of a [`SpriteMap`]: keys and values, index by index.
pub struct Assoc<V> {
    pub keys: Seq<SpriteKey>,
    pub values: Seq<V>,
}

impl<V> Assoc<V> {
    /// No key occurs twice, and each key has its value.
    pub open spec fn wf(self) -> bool {
        &&& self.keys.no_duplicates()
        &&& self.keys.len() == self.values.len()
    }

    pub open spec fn empty() -> Assoc<V> {
        Assoc { keys: Seq::empty(), values: Seq::empty() }
    }

    pub open spec fn is_empty(self) -> bool {
        self.keys.len() == 0
    }

    pub open spec fn contains_key(self, key: SpriteKey) -> bool {
        self.keys.contains(key)
    }

    /// The value stored under the key.
    pub open spec fn get(self, key: SpriteKey) -> Option<V> {
        if self.keys.contains(key) {
            Some(self.values[self.keys.index_of(key)])
        } else {
            None
        }
    }

    /// The list with `value` under `key`. A key that is already there
    /// keeps its place; a new key goes to the end.
    pub open spec fn put(self, key: SpriteKey, value: V) -> Assoc<V> {
        if self.keys.contains(key) {
            Assoc { keys: self.keys, values: self.values.update(self.keys.index_of(key), value) }
        } else {
            Assoc { keys: self.keys.push(key), values: self.values.push(value) }
        }
    }

    /// The list without `key`; the other keys keep their order.
    pub open spec fn remove(self, key: SpriteKey) -> Assoc<V> {
        if self.keys.contains(key) {
            Assoc {
                keys: self.keys.remove(self.keys.index_of(key)),
                values: self.values.remove(self.keys.index_of(key)),
            }
        } else {
            self
        }
    }

    /// Every stored pair is found under its key.
    pub proof fn lemma_get_at(self, i: int)
        requires
            self.wf(),
            0 <= i < self.keys.len(),
        ensures
            self.get(self.keys[i]) == Some(self.values[i]),
    {
        lemma_index_of_unique(self.keys, i);
    }

    /// After `put` the key holds the value, and every other key holds what
    /// it held before.
    pub proof fn lemma_put(self, key: SpriteKey, value: V)
        requires
            self.wf(),
        ensures
            self.put(key, value).wf(),
            self.put(key, value).get(key) == Some(value),
            forall|other: SpriteKey|
                other != key ==> #[trigger] self.put(key, value).get(other) == self.get(other),
    {
        let after = self.put(key, value);
        if self.keys.contains(key) {
            let i = self.keys.index_of(key);
            lemma_index_of_unique(self.keys, i);
        } else {
            let n = self.keys.len() as int;
            assert(after.keys[n] == key);
            lemma_index_of_unique(after.keys, n);
            assert forall|other: SpriteKey| other != key implies #[trigger] after.get(other)
                == self.get(other) by {
                if self.keys.contains(other) {
                    let j = self.keys.index_of(other);
                    assert(after.keys[j] == other);
                    lemma_index_of_unique(after.keys, j);
                    lemma_index_of_unique(self.keys, j);
                } else if after.keys.contains(other) {
                    let j = after.keys.index_of(other);
                    assert(self.keys[j] == other);
                }
            }
        }
    }

    /// After `remove` the key holds nothing, and every other key holds what
    /// it held before.
    pub proof fn lemma_remove(self, key: SpriteKey)
        requires
            self.wf(),
        ensures
            self.remove(key).wf(),
            self.remove(key).get(key).is_none(),
            forall|other: SpriteKey|
                other != key ==> #[trigger] self.remove(key).get(other) == self.get(other),
    {
        let after = self.remove(key);
        if self.keys.contains(key) {
            let i = self.keys.index_of(key);
            lemma_index_of_unique(self.keys, i);
            assert forall|a: int, b: int|
                0 <= a < after.keys.len() && 0 <= b < after.keys.len() && a != b implies after.keys[a]
                != after.keys[b] by {
                let a0 = if a < i {
                    a
                } else {
                    a + 1
                };
                let b0 = if b < i {
                    b
                } else {
                    b + 1
                };
                assert(after.keys[a] == self.keys[a0]);
                assert(after.keys[b] == self.keys[b0]);
            }
            if after.keys.contains(key) {
                let j = after.keys.index_of(key);
                let j0 = if j < i {
                    j
                } else {
                    j + 1
                };
                assert(self.keys[j0] == key);
            }
            assert forall|other: SpriteKey| other != key implies #[trigger] after.get(other)
                == self.get(other) by {
                if self.keys.contains(other) {
                    let j0 = self.keys.index_of(other);
                    let j = if j0 < i {
                        j0
                    } else {
                        j0 - 1
                    };
                    assert(after.keys[j] == other);
                    lemma_index_of_unique(after.keys, j);
                    lemma_index_of_unique(self.keys, j0);
                } else if after.keys.contains(other) {
                    let j = after.keys.index_of(other);
                    let j0 = if j < i {
                        j
                    } else {
                        j + 1
                    };
                    assert(self.keys[j0] == other);
                }
            }
        }
    }

    /// A second `put` under the same key overrules the first.
    pub proof fn lemma_put_twice(self, key: SpriteKey, first: V, second: V)
        requires
            self.wf(),
        ensures
            self.put(key, first).put(key, second) == self.put(key, second),
    {
        let once = self.put(key, first);
        if self.keys.contains(key) {
            let i = self.keys.index_of(key);
            assert(once.put(key, second).values =~= self.put(key, second).values);
        } else {
            let n = self.keys.len() as int;
            assert(once.keys[n] == key);
            lemma_index_of_unique(once.keys, n);
            assert(once.put(key, second).values =~= self.put(key, second).values);
        }
    }

    /// Taking out a key undoes a `put` under it: what is left is the list
    /// without the key, which is the list itself where the key was new.
    pub proof fn lemma_put_then_remove(self, key: SpriteKey, value: V)
        requires
            self.wf(),
        ensures
            self.put(key, value).remove(key) == self.remove(key),
    {
        let put = self.put(key, value);
        if self.keys.contains(key) {
            let i = self.keys.index_of(key);
            assert(put.remove(key).values =~= self.remove(key).values);
        } else {
            let n = self.keys.len() as int;
            assert(put.keys[n] == key);
            lemma_index_of_unique(put.keys, n);
            assert(put.remove(key).keys =~= self.keys);
            assert(put.remove(key).values =~= self.values);
        }
    }
}

/// In a sequence without duplicates every element is found at its own index.
pub proof fn lemma_index_of_unique<K>(s: Seq<K>, i: int)
    requires
        s.no_duplicates(),
        0 <= i < s.len(),
    ensures
        s.contains(s[i]),
        s.index_of(s[i]) == i,
{
    assert(s.contains(s[i]));
    let j = s.index_of(s[i]);
    assert(0 <= j < s.len() && s[j] == s[i]);
}

pub struct SpriteMap<V> {
    entries: Vec<(usize, SpriteType, V)>,
}

impl<V> View for SpriteMap<V> {
    type V = Assoc<V>;

    closed spec fn view(&self) -> Assoc<V> {
        Assoc {
            keys: Seq::new(self.entries@.len(), |i: int| (self.entries@[i].0, self.entries@[i].1)),
            values: Seq::new(self.entries@.len(), |i: int| self.entries@[i].2),
        }
    }
}

impl<V> SpriteMap<V> {
    /// No key occurs twice.
    pub open spec fn wf(&self) -> bool {
        self@.wf()
    }

    pub fn new() -> (r: Self)
        ensures
            r.wf(),
            r@ == Assoc::<V>::empty(),
    {
        let r = SpriteMap { entries: Vec::new() };
        assert(r@.keys =~= Seq::<SpriteKey>::empty());
        assert(r@.values =~= Seq::<V>::empty());
        r
    }

    pub fn len(&self) -> (r: usize)
        ensures
            r == self@.keys.len(),
            r == self@.values.len(),
    {
        self.entries.len()
    }

    pub fn is_empty(&self) -> (r: bool)
        ensures
            r == self@.is_empty(),
    {
        self.entries.len() == 0
    }

    /// The key stored at index `i`.
    pub fn key_at(&self, i: usize) -> (r: SpriteKey)
        requires
            i < self@.keys.len(),
        ensures
            r == self@.keys[i as int],
    {
        (self.entries[i].0, self.entries[i].1)
    }

    /// The value stored at index `i`.
    pub fn value_at(&self, i: usize) -> (r: &V)
        requires
            i < self@.values.len(),
        ensures
            *r == self@.values[i as int],
    {
        &self.entries[i].2
    }

    /// The index at which the key is stored.
    pub fn position(&self, sprite: usize, ty: SpriteType) -> (r: Option<usize>)
        ensures
            match r {
                Some(i) => i < self@.keys.len() && self@.keys[i as int] == (sprite, ty),
                None => !self@.contains_key((sprite, ty)),
            },
    {
        let mut i: usize = 0;
        while i < self.entries.len()
            invariant
                i <= self.entries@.len(),
                forall|j: int| 0 <= j < i ==> self@.keys[j] != (sprite, ty),
            decreases self.entries@.len() - i,
        {
            if self.entries[i].0 == sprite && self.entries[i].1 == ty {
                return Some(i);
            }
            i += 1;
        }
        None
    }

    pub fn contains_key(&self, sprite: usize, ty: SpriteType) -> (r: bool)
        ensures
            r == self@.contains_key((sprite, ty)),
    {
        self.position(sprite, ty).is_some()
    }

    pub fn get(&self, sprite: usize, ty: SpriteType) -> (r: Option<&V>)
        requires
            self.wf(),
        ensures
            match r {
                Some(v) => self@.get((sprite, ty)) == Some(*v),
                None => self@.get((sprite, ty)).is_none(),
            },
    {
        match self.position(sprite, ty) {
            Some(i) => {
                proof {
                    self@.lemma_get_at(i as int);
                }
                Some(&self.entries[i].2)
            },
            None => None,
        }
    }

    /// Stores `value` under the key and hands back what was stored under it
    /// before. A key that is already there keeps its place; a new key goes
    /// to the end.
    pub fn insert(&mut self, sprite: usize, ty: SpriteType, value: V) -> (r: Option<V>)
        requires
            old(self).wf(),
        ensures
            final(self).wf(),
            final(self)@ == old(self)@.put((sprite, ty), value),
            r == old(self)@.get((sprite, ty)),
    {
        let ghost before = self@;
        proof {
            before.lemma_put((sprite, ty), value);
        }
        match self.position(sprite, ty) {
            Some(i) => {
                proof {
                    lemma_index_of_unique(before.keys, i as int);
                }
                let replaced = self.entries.remove(i);
                self.entries.insert(i, (sprite, ty, value));
                assert(self@.keys =~= before.keys);
                assert(self@.values =~= before.values.update(i as int, value));
                Some(replaced.2)
            },
            None => {
                self.entries.push((sprite, ty, value));
                assert(self@.keys =~= before.keys.push((sprite, ty)));
                assert(self@.values =~= before.values.push(value));
                None
            },
        }
    }

    /// Takes the key out and hands back what was stored under it.
    pub fn remove(&mut self, sprite: usize, ty: SpriteType) -> (r: Option<V>)
        requires
            old(self).wf(),
        ensures
            final(self).wf(),
            final(self)@ == old(self)@.remove((sprite, ty)),
            r == old(self)@.get((sprite, ty)),
    {
        let ghost before = self@;
        proof {
            before.lemma_remove((sprite, ty));
        }
        match self.position(sprite, ty) {
            Some(i) => {
                proof {
                    lemma_index_of_unique(before.keys, i as int);
                }
                let removed = self.entries.remove(i);
                assert(self@.keys =~= before.keys.remove(i as int));
                assert(self@.values =~= before.values.remove(i as int));
                Some(removed.2)
            },
            None => None,
        }
    }

    pub fn clear(&mut self)
        ensures
            final(self).wf(),
            final(self)@ == Assoc::<V>::empty(),
    {
        self.entries.clear();
        assert(self@.keys =~= Seq::<SpriteKey>::empty());
        assert(self@.values =~= Seq::<V>::empty());
    }
}

} // verus!
