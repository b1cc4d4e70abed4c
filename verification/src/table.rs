//! A small keyed table: the shape in which a chain holds its registries. Its
//! view is a finite map, and no key is ever held twice.

use vstd::prelude::*;

verus! {

/// What can key a table: a value whose view decides identity, with an
/// executable test for it.
pub trait Key: View + Sized {
    fn same_key(&self, other: &Self) -> (r: bool)
        ensures
            r == (self@ == other@),
    ;

    fn clone_key(&self) -> (r: Self)
        ensures
            r@ == self@,
    ;
}

/// The views of a list of keys.
pub open spec fn key_list<K: Key>(keys: Seq<K>) -> Seq<K::V> {
    Seq::new(keys.len(), |i: int| keys[i]@)
}

/// A finite map from keys to values, held as two lists of equal length.
pub struct Table<K: Key, V: View> {
    keys: Vec<K>,
    values: Vec<V>,
}

impl<K: Key, V: View> Table<K, V> {
    #[verifier::type_invariant]
    spec fn inv(self) -> bool {
        &&& self.keys.len() == self.values.len()
        &&& forall|i: int, j: int|
            0 <= i < self.keys.len() && 0 <= j < self.keys.len() && i != j
                ==> self.keys[i]@ != self.keys[j]@
    }

    /// Whether position `i` holds key `k`.
    spec fn at(self, i: int, k: K::V) -> bool {
        0 <= i < self.keys.len() && self.keys[i]@ == k
    }

    /// The keys, in the order in which the table is walked.
    pub closed spec fn key_views(self) -> Seq<K::V> {
        Seq::new(self.keys.len() as nat, |i: int| self.keys[i]@)
    }

    proof fn lemma_dom(self)
        requires
            self.inv(),
        ensures
            self@.dom() =~= self.key_views().to_set(),
            self.key_views().no_duplicates(),
            self@.dom().finite(),
            self@.dom().len() == self.keys.len(),
    {
        let kv = self.key_views();
        assert forall|k: K::V| self@.dom().contains(k) <==> kv.to_set().contains(k) by {
            if self@.dom().contains(k) {
                let i = choose|i: int| self.at(i, k);
                assert(kv[i] == k);
            }
            if kv.to_set().contains(k) {
                let i = choose|i: int| 0 <= i < kv.len() && kv[i] == k;
                assert(self.at(i, k));
            }
        }
        assert(self@.dom() =~= kv.to_set());
        kv.unique_seq_to_set();
        vstd::seq_lib::seq_to_set_is_finite(kv);
    }

    proof fn lemma_at(self, i: int)
        requires
            self.inv(),
            0 <= i < self.keys.len(),
        ensures
            self@.contains_key(self.keys[i]@),
            self@[self.keys[i]@] == self.values[i]@,
    {
        let k = self.keys[i]@;
        assert(self.at(i, k));
        let j = choose|j: int| self.at(j, k);
        assert(j == i);
    }

    /// A table that holds nothing.
    pub fn new() -> (r: Self)
        ensures
            r@ == Map::<K::V, V::V>::empty(),
    {
        let r = Table { keys: Vec::new(), values: Vec::new() };
        assert(r@ =~= Map::<K::V, V::V>::empty());
        r
    }

    /// How many keys the table holds. A walk over the positions below that
    /// number visits every key, and each once.
    pub fn len(&self) -> (n: usize)
        ensures
            self@.dom().finite(),
            n == self@.dom().len(),
            n == self.key_views().len(),
            self.key_views().no_duplicates(),
            self.key_views().to_set() == self@.dom(),
    {
        proof {
            use_type_invariant(self);
            self.lemma_dom();
        }
        self.keys.len()
    }

    fn position(&self, key: &K) -> (r: Option<usize>)
        ensures
            match r {
                Some(i) => self.at(i as int, key@),
                None => !self@.contains_key(key@),
            },
    {
        let mut i: usize = 0;
        while i < self.keys.len()
            invariant
                i <= self.keys.len(),
                forall|j: int| 0 <= j < i ==> self.keys[j]@ != key@,
            decreases self.keys.len() - i,
        {
            if self.keys[i].same_key(key) {
                return Some(i);
            }
            i += 1;
        }
        assert(!self@.contains_key(key@)) by {
            if self@.contains_key(key@) {
                let j = choose|j: int| self.at(j, key@);
                assert(self.keys[j]@ == key@);
            }
        }
        None
    }

    /// Whether `key` is held.
    pub fn contains_key(&self, key: &K) -> (r: bool)
        ensures
            r == self@.contains_key(key@),
    {
        match self.position(key) {
            Some(i) => {
                proof {
                    use_type_invariant(self);
                    self.lemma_at(i as int);
                }
                true
            },
            None => false,
        }
    }

    /// The value held under `key`, if there is one.
    pub fn get(&self, key: &K) -> (r: Option<&V>)
        ensures
            match r {
                Some(v) => self@.contains_key(key@) && self@[key@] == v@,
                None => !self@.contains_key(key@),
            },
    {
        match self.position(key) {
            Some(i) => {
                proof {
                    use_type_invariant(self);
                    self.lemma_at(i as int);
                }
                Some(&self.values[i])
            },
            None => None,
        }
    }

    /// Puts `value` under `key`, in place of what was held there.
    pub fn insert(&mut self, key: K, value: V)
        ensures
            final(self)@ == old(self)@.insert(key@, value@),
    {
        proof {
            use_type_invariant(&*self);
        }
        let found = self.position(&key);
        let ghost before = *self;
        let mut held = Table { keys: Vec::new(), values: Vec::new() };
        core::mem::swap(self, &mut held);
        let Table { keys: mut keys, values: mut values } = held;
        match found {
            Some(i) => {
                values.set(i, value);
                *self = Table { keys, values };
                proof {
                    assert(self.inv());
                    assert forall|k: K::V| #[trigger]
                        self@.contains_key(k) <==> before@.insert(key@, value@).contains_key(
                            k,
                        ) by {
                        if self@.contains_key(k) {
                            let j = choose|j: int| self.at(j, k);
                            assert(before.at(j, k));
                        }
                        if before@.contains_key(k) {
                            let j = choose|j: int| before.at(j, k);
                            assert(self.at(j, k));
                        }
                        if k == key@ {
                            assert(self.at(i as int, k));
                        }
                    }
                    assert forall|k: K::V| #[trigger] self@.contains_key(k) implies self@[k]
                        == before@.insert(key@, value@)[k] by {
                        let j = choose|j: int| self.at(j, k);
                        self.lemma_at(j);
                        if k != key@ {
                            assert(before.at(j, k));
                            before.lemma_at(j);
                        } else {
                            assert(j == i);
                        }
                    }
                    assert(self@ =~= before@.insert(key@, value@));
                }
            },
            None => {
                keys.push(key);
                values.push(value);
                proof {
                    let n = before.keys.len() as int;
                    assert forall|a: int, b: int|
                        0 <= a < keys.len() && 0 <= b < keys.len() && a != b implies keys[a]@
                        != keys[b]@ by {
                        if a < n && b < n {
                            assert(keys[a] == before.keys[a]);
                            assert(keys[b] == before.keys[b]);
                        } else if a < n {
                            assert(before.at(a, before.keys[a]@));
                        } else {
                            assert(before.at(b, before.keys[b]@));
                        }
                    }
                }
                *self = Table { keys, values };
                proof {
                    let n = before.keys.len() as int;
                    assert forall|a: int, b: int|
                        0 <= a < self.keys.len() && 0 <= b < self.keys.len() && a
                            != b implies self.keys[a]@ != self.keys[b]@ by {
                        if a < n && b < n {
                            assert(self.keys[a] == before.keys[a]);
                            assert(self.keys[b] == before.keys[b]);
                        } else if a < n {
                            assert(before.at(a, before.keys[a]@));
                        } else {
                            assert(before.at(b, before.keys[b]@));
                        }
                    }
                    assert(self.inv());
                    assert forall|k: K::V| #[trigger]
                        self@.contains_key(k) <==> before@.insert(key@, value@).contains_key(
                            k,
                        ) by {
                        if self@.contains_key(k) {
                            let j = choose|j: int| self.at(j, k);
                            if j < n {
                                assert(before.at(j, k));
                            }
                        }
                        if before@.contains_key(k) {
                            let j = choose|j: int| before.at(j, k);
                            assert(self.at(j, k));
                        }
                        if k == key@ {
                            assert(self.at(n, k));
                        }
                    }
                    assert forall|k: K::V| #[trigger] self@.contains_key(k) implies self@[k]
                        == before@.insert(key@, value@)[k] by {
                        let j = choose|j: int| self.at(j, k);
                        self.lemma_at(j);
                        if j < n {
                            assert(before.at(j, k));
                            before.lemma_at(j);
                        }
                    }
                    assert(self@ =~= before@.insert(key@, value@));
                }
            },
        }
    }

    /// Takes out what is held under `key`, and hands it back.
    pub fn remove(&mut self, key: &K) -> (r: Option<V>)
        ensures
            final(self)@ == old(self)@.remove(key@),
            match r {
                Some(v) => old(self)@.contains_key(key@) && old(self)@[key@] == v@,
                None => !old(self)@.contains_key(key@),
            },
    {
        proof {
            use_type_invariant(&*self);
        }
        let found = self.position(key);
        let ghost before = *self;
        match found {
            Some(i) => {
                proof {
                    before.lemma_at(i as int);
                }
                let mut held = Table { keys: Vec::new(), values: Vec::new() };
                core::mem::swap(self, &mut held);
                let Table { keys: mut keys, values: mut values } = held;
                keys.remove(i);
                let value = values.remove(i);
                proof {
                    let ghost at_i = i as int;
                    assert forall|a: int| 0 <= a < keys.len() implies keys[a]
                        == before.keys[if a < at_i {
                        a
                    } else {
                        a + 1
                    }] by {}
                }
                *self = Table { keys, values };
                proof {
                    let ghost at_i = i as int;
                    assert forall|a: int| 0 <= a < self.keys.len() implies self.keys[a]
                        == before.keys[if a < at_i {
                        a
                    } else {
                        a + 1
                    }] && self.values[a] == before.values[if a < at_i {
                        a
                    } else {
                        a + 1
                    }] by {}
                    assert(self.inv());
                    assert forall|k: K::V| #[trigger]
                        self@.contains_key(k) <==> before@.remove(key@).contains_key(k) by {
                        if self@.contains_key(k) {
                            let j = choose|j: int| self.at(j, k);
                            let src = if j < at_i {
                                j
                            } else {
                                j + 1
                            };
                            assert(before.at(src, k));
                        }
                        if before@.contains_key(k) && k != key@ {
                            let j = choose|j: int| before.at(j, k);
                            let dst = if j < at_i {
                                j
                            } else {
                                j - 1
                            };
                            assert(self.at(dst, k));
                        }
                    }
                    assert forall|k: K::V| #[trigger] self@.contains_key(k) implies self@[k]
                        == before@.remove(key@)[k] by {
                        let j = choose|j: int| self.at(j, k);
                        self.lemma_at(j);
                        let src = if j < at_i {
                            j
                        } else {
                            j + 1
                        };
                        assert(before.at(src, k));
                        before.lemma_at(src);
                    }
                    assert(self@ =~= before@.remove(key@));
                }
                Some(value)
            },
            None => {
                assert(self@ =~= before@.remove(key@));
                None
            },
        }
    }

    /// The keys of the table, in the order of the walk: every key, and each
    /// once.
    pub fn keys(&self) -> (r: Vec<K>)
        ensures
            key_list(r@) == self.key_views(),
            self.key_views().no_duplicates(),
            self.key_views().to_set() == self@.dom(),
    {
        proof {
            use_type_invariant(self);
            self.lemma_dom();
        }
        let mut out: Vec<K> = Vec::new();
        let mut i: usize = 0;
        while i < self.keys.len()
            invariant
                i <= self.keys.len(),
                out.len() == i,
                forall|j: int| 0 <= j < i ==> out[j]@ == self.keys[j]@,
            decreases self.keys.len() - i,
        {
            out.push(self.keys[i].clone_key());
            i += 1;
        }
        assert(key_list(out@) =~= self.key_views());
        out
    }

    /// The key at a position of the walk: positions run from zero to
    /// `len()`.
    pub fn key_at(&self, i: usize) -> (r: Option<&K>)
        ensures
            match r {
                Some(k) => i < self.key_views().len() && k@ == self.key_views()[i as int]
                    && self@.contains_key(k@),
                None => i >= self.key_views().len(),
            },
    {
        proof {
            use_type_invariant(self);
            self.lemma_dom();
        }
        if i < self.keys.len() {
            proof {
                self.lemma_at(i as int);
            }
            Some(&self.keys[i])
        } else {
            None
        }
    }
}

impl<K: Key, V: View> View for Table<K, V> {
    type V = Map<K::V, V::V>;

    closed spec fn view(&self) -> Map<K::V, V::V> {
        Map::new(
            |k: K::V| exists|i: int| self.at(i, k),
            |k: K::V| self.values[choose|i: int| self.at(i, k)]@,
        )
    }
}

} // verus!
