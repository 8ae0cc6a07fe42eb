//! A map from public keys to values that remembers the order in which keys came.

use vstd::prelude::*;

use crate::primitives::PublicKeyBytes;

verus! {

/// A finite map whose keys are public keys. A key keeps the place at which it first came.
#[derive(Debug)]
pub struct PubkeyMap<V> {
    entries: Vec<(PublicKeyBytes, V)>,
}

/// The keys of `entries`, in order.
pub open spec fn keys_of<V>(entries: Seq<(PublicKeyBytes, V)>) -> Seq<PublicKeyBytes> {
    Seq::new(entries.len(), |i: int| entries[i].0)
}

impl<V> View for PubkeyMap<V> {
    type V = Map<PublicKeyBytes, V>;

    closed spec fn view(&self) -> Map<PublicKeyBytes, V> {
        Map::new(
            |key: PublicKeyBytes| self.keys().contains(key),
            |key: PublicKeyBytes| self.entries@[self.keys().index_of(key)].1,
        )
    }
}

impl<V> PubkeyMap<V> {
    /// The keys in the order in which they came.
    pub closed spec fn keys(&self) -> Seq<PublicKeyBytes> {
        keys_of(self.entries@)
    }

    /// No key occurs twice.
    #[verifier::type_invariant]
    pub open spec fn wf(&self) -> bool {
        self.keys().no_duplicates()
    }

    /// The keys are those of the contents.
    pub proof fn lemma_keys(&self)
        ensures
            self.keys().to_set() == self@.dom(),
    {
        assert(self.keys().to_set() =~= self@.dom());
    }

    /// The empty map.
    pub fn new() -> (map: Self)
        ensures
            map.wf(),
            map.keys() == Seq::<PublicKeyBytes>::empty(),
            map@ == Map::<PublicKeyBytes, V>::empty(),
    {
        let map = PubkeyMap { entries: Vec::new() };
        assert(map.keys() =~= Seq::<PublicKeyBytes>::empty());
        assert(map@ =~= Map::<PublicKeyBytes, V>::empty());
        map
    }

    /// Where `key` stands among the keys.
    fn position(&self, key: &PublicKeyBytes) -> (position: Option<usize>)
        ensures
            match position {
                Some(i) => i < self.keys().len() && self.keys()[i as int] == *key,
                None => !self.keys().contains(*key),
            },
    {
        let mut i: usize = 0;
        while i < self.entries.len()
            invariant
                0 <= i <= self.entries@.len(),
                forall|j: int| 0 <= j < i ==> self.keys()[j] != *key,
            decreases self.entries@.len() - i,
        {
            if self.entries[i].0 == *key {
                return Some(i);
            }
            i += 1;
        }
        None
    }

    /// The value at `key`.
    pub fn get(&self, key: &PublicKeyBytes) -> (value: Option<&V>)
        ensures
            value == (if self@.contains_key(*key) { Some(&self@[*key]) } else { None }),
    {
        proof {
            use_type_invariant(self);
        }
        match self.position(key) {
            Some(i) => Some(&self.entries[i].1),
            None => None,
        }
    }

    /// How many keys there are.
    pub fn len(&self) -> (len: usize)
        ensures
            len == self.keys().len(),
            len == self@.dom().len(),
            self@.dom().finite(),
    {
        proof {
            use_type_invariant(self);
            self.keys().unique_seq_to_set();
            self.lemma_keys();
        }
        self.entries.len()
    }

    /// The keys in the order in which they came.
    pub fn to_keys(&self) -> (keys: Vec<PublicKeyBytes>)
        ensures
            keys@ == self.keys(),
            keys@.no_duplicates(),
            keys@.to_set() == self@.dom(),
    {
        proof {
            use_type_invariant(self);
        }
        let mut keys: Vec<PublicKeyBytes> = Vec::new();
        let mut i: usize = 0;
        while i < self.entries.len()
            invariant
                0 <= i <= self.entries@.len(),
                keys@ == self.keys().take(i as int),
            decreases self.entries@.len() - i,
        {
            keys.push(self.entries[i].0);
            i += 1;
        }
        assert(keys@ =~= self.keys());
        proof {
            self.lemma_keys();
        }
        keys
    }

    /// Puts `value` at `key`. A new key goes to the end.
    pub fn insert(&mut self, key: PublicKeyBytes, value: V)
        ensures
            final(self).wf(),
            final(self)@ == old(self)@.insert(key, value),
            final(self).keys() == (if old(self)@.contains_key(key) {
                old(self).keys()
            } else {
                old(self).keys().push(key)
            }),
    {
        proof {
            use_type_invariant(&*self);
        }
        let position = self.position(&key);
        let mut entries: Vec<(PublicKeyBytes, V)> = Vec::new();
        std::mem::swap(&mut entries, &mut self.entries);
        match position {
            Some(i) => {
                entries[i] = (key, value);
                assert(keys_of(entries@) =~= old(self).keys());
            },
            None => {
                entries.push((key, value));
                assert(keys_of(entries@) =~= old(self).keys().push(key));
            },
        }
        self.entries = entries;
        proof {
            let before = old(self)@.insert(key, value);
            assert forall|k: PublicKeyBytes|
                self@.contains_key(k) == #[trigger] before.contains_key(k) && (before.contains_key(
                    k,
                ) ==> self@[k] == before[k]) by {
                if k == key {
                    let at = match position {
                        Some(i) => i as int,
                        None => self.keys().len() - 1,
                    };
                    assert(self.keys()[at] == key);
                } else if old(self).keys().contains(k) {
                    let at = old(self).keys().index_of(k);
                    assert(self.keys()[at] == k);
                } else if self.keys().contains(k) {
                    let at = self.keys().index_of(k);
                    assert(at < old(self).keys().len() ==> old(self).keys()[at] == k);
                }
            }
            assert(self@ =~= before);
        }
    }

    /// Takes `key` out. The other keys keep their order.
    pub fn remove(&mut self, key: &PublicKeyBytes)
        ensures
            final(self).wf(),
            final(self)@ == old(self)@.remove(*key),
            final(self).keys() == (if old(self)@.contains_key(*key) {
                old(self).keys().remove(old(self).keys().index_of(*key))
            } else {
                old(self).keys()
            }),
    {
        proof {
            use_type_invariant(&*self);
        }
        match self.position(key) {
            Some(i) => {
                let mut entries: Vec<(PublicKeyBytes, V)> = Vec::new();
                std::mem::swap(&mut entries, &mut self.entries);
                entries.remove(i);
                assert(keys_of(entries@) =~= old(self).keys().remove(i as int));
                self.entries = entries;
                proof {
                    let keys = old(self).keys();
                    let after = old(self)@.remove(*key);
                    assert forall|k: PublicKeyBytes|
                        self@.contains_key(k) == #[trigger] after.contains_key(k)
                            && (after.contains_key(k) ==> self@[k] == after[k]) by {
                        if keys.contains(k) && k != *key {
                            let at = keys.index_of(k);
                            let moved = if at < i { at } else { at - 1 };
                            assert(self.keys()[moved] == k);
                        } else if self.keys().contains(k) {
                            let at = self.keys().index_of(k);
                            assert(keys[if at < i { at } else { at + 1 }] == k);
                        }
                    }
                    assert(self@ =~= after);
                }
            },
            None => {
                assert(self@ =~= old(self)@.remove(*key));
            },
        }
    }
}

} // verus!
