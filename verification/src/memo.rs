use vstd::prelude::*;
use crate::key::Key;

verus! {

struct MemoEntry<K: Key> {
    key: K,
    value: K::Value,
}

/// The values that a transaction has computed, each under its key. Every
/// stored value is the value of its key.
pub struct Memo<K: Key> {
    entries: Vec<MemoEntry<K>>,
}

impl<K: Key> Memo<K> {
    #[verifier::type_invariant]
    spec fn sound(self) -> bool {
        forall|i: int| 0 <= i < self.entries@.len() ==> (#[trigger] self.entries@[i]).value
            == self.entries@[i].key.value()
    }

    /// The keys that have a stored value, in the order in which they got one.
    pub closed spec fn keys(&self) -> Seq<K> {
        Seq::new(self.entries@.len(), |i: int| self.entries@[i].key)
    }

    /// The memo of a transaction that has computed nothing yet.
    pub fn new() -> (m: Self)
        ensures
            m.keys() == Seq::<K>::empty(),
    {
        Memo { entries: Vec::new() }
    }

    /// The number of keys that have a stored value.
    pub fn len(&self) -> (n: usize)
        ensures
            n == self.keys().len(),
    {
        self.entries.len()
    }

    fn position(&self, key: &K) -> (r: Option<usize>)
        ensures
            match r {
                Some(i) => i < self.entries@.len() && self.entries@[i as int].key == *key,
                None => !self.keys().contains(*key),
            },
    {
        let mut i: usize = 0;
        while i < self.entries.len()
            invariant
                i <= self.entries.len(),
                forall|j: int| 0 <= j < i ==> self.entries@[j].key != *key,
            decreases self.entries.len() - i,
        {
            if self.entries[i].key.same_key(key) {
                return Some(i);
            }
            i += 1;
        }
        None
    }

    /// Whether a value is stored for `key`.
    pub fn holds(&self, key: &K) -> (b: bool)
        ensures
            b == self.keys().contains(*key),
    {
        match self.position(key) {
            Some(i) => {
                assert(self.keys()[i as int] == *key);
                true
            },
            None => false,
        }
    }

    /// A copy of the value stored for `key`, if there is one and the key's own
    /// test of validity lets it be used again.
    pub fn lookup(&self, key: &K) -> (r: Option<K::Value>)
        ensures
            r == if self.keys().contains(*key) && K::valid(&key.value()) {
                Some(key.value())
            } else {
                None
            },
    {
        proof {
            use_type_invariant(self);
        }
        match self.position(key) {
            Some(i) => {
                assert(self.keys()[i as int] == *key);
                if K::validity(&self.entries[i].value) {
                    Some(K::dupe_value(&self.entries[i].value))
                } else {
                    None
                }
            },
            None => None,
        }
    }

    /// A copy of the memo.
    pub fn dupe(&self) -> (m: Self)
        ensures
            m.keys() == self.keys(),
    {
        proof {
            use_type_invariant(self);
        }
        let mut entries: Vec<MemoEntry<K>> = Vec::new();
        let mut i: usize = 0;
        while i < self.entries.len()
            invariant
                i <= self.entries@.len(),
                entries@.len() == i,
                forall|j: int|
                    0 <= j < self.entries@.len() ==> (#[trigger] self.entries@[j]).value
                        == self.entries@[j].key.value(),
                forall|j: int|
                    0 <= j < i ==> (#[trigger] entries@[j]).key == self.entries@[j].key
                        && entries@[j].value == self.entries@[j].value,
            decreases self.entries@.len() - i,
        {
            entries.push(
                MemoEntry {
                    key: self.entries[i].key.dupe(),
                    value: K::dupe_value(&self.entries[i].value),
                },
            );
            i += 1;
        }
        let m = Memo { entries };
        m
    }

    /// Takes over the values that `other` holds: afterwards a key has a
    /// stored value exactly if it had one here or there.
    pub fn absorb(&mut self, other: Memo<K>)
        ensures
            forall|k: K|
                #![trigger final(self).keys().contains(k)]
                final(self).keys().contains(k) <==> old(self).keys().contains(k)
                    || other.keys().contains(k),
    {
        proof {
            use_type_invariant(&other);
        }
        let ghost all = other.entries@;
        let mut entries = other.entries;
        while entries.len() > 0
            invariant
                all == other.entries@,
                entries@.len() <= all.len(),
                entries@ == all.take(entries@.len() as int),
                forall|j: int| 0 <= j < all.len() ==> (#[trigger] all[j]).value == all[j].key.value(),
                forall|k: K|
                    #![trigger self.keys().contains(k)]
                    self.keys().contains(k) <==> old(self).keys().contains(k) || exists|j: int|
                        entries@.len() <= j < all.len() && (#[trigger] all[j]).key == k,
            decreases entries@.len(),
        {
            let ghost before = self.keys();
            let ghost n = entries@.len() as int;
            match entries.pop() {
                Some(entry) => {
                    let _ = self.store(&entry.key, entry.value);
                    assert forall|k: K| #![trigger self.keys().contains(k)]
                        self.keys().contains(k) <==> old(self).keys().contains(k) || exists|j: int|
                            n - 1 <= j < all.len() && (#[trigger] all[j]).key == k by {
                        assert(self.keys().contains(k) <==> before.contains(k) || k
                            == entry.key) by {
                            if !before.contains(entry.key) {
                                let after = before.push(entry.key);
                                assert(after.last() == entry.key);
                                if before.contains(k) {
                                    let at = choose|at: int| 0 <= at < before.len() && before[at] == k;
                                    assert(after[at] == k);
                                }
                            }
                        }
                    }
                },
                None => {},
            }
        }
        assert forall|k: K| #![trigger self.keys().contains(k)]
            self.keys().contains(k) <==> old(self).keys().contains(k) || other.keys().contains(
                k,
            ) by {
            if exists|j: int| 0 <= j < all.len() && (#[trigger] all[j]).key == k {
                let j = choose|j: int| 0 <= j < all.len() && (#[trigger] all[j]).key == k;
                assert(other.keys()[j] == k);
            }
        }
    }

    /// Stores `value` for `key`, in place of what was stored for the key
    /// before. Returns whether the stored value changed: it did not if the key
    /// had a value that the key's own test of equality takes for the same.
    pub fn store(&mut self, key: &K, value: K::Value) -> (changed: bool)
        requires
            value == key.value(),
        ensures
            final(self).keys() == if old(self).keys().contains(*key) {
                old(self).keys()
            } else {
                old(self).keys().push(*key)
            },
            changed == !(old(self).keys().contains(*key) && K::equal(&value, &value)),
    {
        proof {
            use_type_invariant(&*self);
        }
        match self.position(key) {
            Some(i) => {
                assert(self.keys()[i as int] == *key);
                let changed = !K::equality(&self.entries[i].value, &value);
                if changed {
                    let mut entries: Vec<MemoEntry<K>> = Vec::new();
                    std::mem::swap(&mut self.entries, &mut entries);
                    entries.set(i, MemoEntry { key: key.dupe(), value });
                    std::mem::swap(&mut self.entries, &mut entries);
                }
                changed
            },
            None => {
                let mut entries: Vec<MemoEntry<K>> = Vec::new();
                std::mem::swap(&mut self.entries, &mut entries);
                entries.push(MemoEntry { key: key.dupe(), value });
                std::mem::swap(&mut self.entries, &mut entries);
                true
            },
        }
    }
}

} // verus!
