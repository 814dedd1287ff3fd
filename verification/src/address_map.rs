use vstd::prelude::*;
use crate::domain::peer::PeerAddress;

verus! {

/// A finite map from peer addresses (compared by their text) to values.
/// Every table of this crate that is keyed by a peer uses it.
pub struct AddressMap<V> {
    keys: Vec<PeerAddress>,
    values: Vec<V>,
}

impl<V> View for AddressMap<V> {
    type V = Map<Seq<char>, V>;

    closed spec fn view(&self) -> Map<Seq<char>, V> {
        Map::new(
            |k: Seq<char>| exists|i: int| 0 <= i < self.keys.len() && #[trigger] self.keys@[i]@ == k,
            |k: Seq<char>| self.values@[self.index_of(k)],
        )
    }
}

impl<V> AddressMap<V> {
    /// The map's invariant: one value per key, no address stored twice.
    pub closed spec fn wf(self) -> bool {
        &&& self.keys.len() == self.values.len()
        &&& forall|i: int, j: int|
            0 <= i < self.keys.len() && 0 <= j < self.keys.len() && i != j ==> #[trigger] self.keys@[i]@
                != #[trigger] self.keys@[j]@
    }

    closed spec fn index_of(self, k: Seq<char>) -> int {
        choose|i: int| 0 <= i < self.keys.len() && #[trigger] self.keys@[i]@ == k
    }

    /// The addresses in the order `key_at` gives them.
    pub closed spec fn key_seq(self) -> Seq<PeerAddress> {
        self.keys@
    }

    /// The values in the order `value_at` gives them.
    pub closed spec fn value_seq(self) -> Seq<V> {
        self.values@
    }

    /// The entries in order: each stored address once, with its value.
    pub proof fn lemma_entries(self)
        requires
            self.wf(),
        ensures
            self.key_seq().len() == self.value_seq().len(),
            forall|i: int|
                0 <= i < self.key_seq().len() ==> #[trigger] self@.contains_key(self.key_seq()[i]@)
                    && self@[self.key_seq()[i]@] == self.value_seq()[i],
            forall|k: Seq<char>|
                #[trigger] self@.contains_key(k) ==> exists|i: int|
                    0 <= i < self.key_seq().len() && #[trigger] self.key_seq()[i]@ == k,
            forall|i: int, j: int|
                0 <= i < self.key_seq().len() && 0 <= j < self.key_seq().len() && i != j
                    ==> #[trigger] self.key_seq()[i]@ != #[trigger] self.key_seq()[j]@,
    {
        assert forall|i: int| 0 <= i < self.key_seq().len() implies #[trigger] self@.contains_key(
            self.key_seq()[i]@,
        ) && self@[self.key_seq()[i]@] == self.value_seq()[i] by {
            let k = self.keys@[i]@;
            assert(self@.contains_key(k));
            let j = self.index_of(k);
            assert(j == i);
        }
        assert forall|k: Seq<char>| #[trigger] self@.contains_key(k) implies exists|i: int|
            0 <= i < self.key_seq().len() && #[trigger] self.key_seq()[i]@ == k by {
            let i = self.index_of(k);
            assert(self.key_seq()[i]@ == k);
        }
    }

    /// The map holds as many keys as there are stored entries.
    pub proof fn lemma_dom_len(self)
        requires
            self.wf(),
        ensures
            self@.dom().finite(),
            self@.dom().len() == self.key_seq().len(),
    {
        let texts = self.keys@.map_values(|a: PeerAddress| a@);
        assert(texts.no_duplicates()) by {
            assert forall|i: int, j: int|
                0 <= i < texts.len() && 0 <= j < texts.len() && i != j implies texts[i]
                != texts[j] by {
                assert(texts[i] == self.keys@[i]@);
                assert(texts[j] == self.keys@[j]@);
            }
        }
        assert(self@.dom() =~= texts.to_set()) by {
            assert forall|k: Seq<char>| self@.dom().contains(k) implies texts.to_set().contains(
                k,
            ) by {
                let i = choose|i: int| 0 <= i < self.keys.len() && #[trigger] self.keys@[i]@ == k;
                assert(texts[i] == k);
            }
            assert forall|k: Seq<char>| texts.to_set().contains(k) implies self@.dom().contains(
                k,
            ) by {
                let i = choose|i: int| 0 <= i < texts.len() && texts[i] == k;
                assert(self.keys@[i]@ == k);
            }
        }
        texts.unique_seq_to_set();
        vstd::seq_lib::seq_to_set_is_finite(texts);
    }

    pub fn new() -> (r: Self)
        ensures
            r.wf(),
            r@ == Map::<Seq<char>, V>::empty(),
    {
        let r = AddressMap { keys: Vec::new(), values: Vec::new() };
        assert(r@ =~= Map::<Seq<char>, V>::empty());
        r
    }

    pub fn len(&self) -> (r: usize)
        requires
            self.wf(),
        ensures
            r == self.key_seq().len(),
    {
        self.keys.len()
    }

    pub fn key_at(&self, i: usize) -> (r: &PeerAddress)
        requires
            self.wf(),
            i < self.key_seq().len(),
        ensures
            *r == self.key_seq()[i as int],
    {
        &self.keys[i]
    }

    pub fn value_at(&self, i: usize) -> (r: &V)
        requires
            self.wf(),
            i < self.key_seq().len(),
        ensures
            *r == self.value_seq()[i as int],
    {
        &self.values[i]
    }

    /// The position of `key`, if it is stored.
    fn find(&self, key: &PeerAddress) -> (r: Option<usize>)
        requires
            self.wf(),
        ensures
            match r {
                Some(i) => i < self.keys.len() && self.keys@[i as int]@ == key@,
                None => !self@.contains_key(key@),
            },
    {
        let mut i: usize = 0;
        while i < self.keys.len()
            invariant
                i <= self.keys.len(),
                forall|j: int| 0 <= j < i ==> self.keys@[j]@ != key@,
            decreases self.keys.len() - i,
        {
            if self.keys[i] == *key {
                return Some(i);
            }
            i = i + 1;
        }
        None
    }

    pub fn contains(&self, key: &PeerAddress) -> (r: bool)
        requires
            self.wf(),
        ensures
            r == self@.contains_key(key@),
    {
        match self.find(key) {
            Some(_) => true,
            None => false,
        }
    }

    pub fn get(&self, key: &PeerAddress) -> (r: Option<&V>)
        requires
            self.wf(),
        ensures
            match r {
                Some(v) => self@.contains_key(key@) && *v == self@[key@],
                None => !self@.contains_key(key@),
            },
    {
        match self.find(key) {
            Some(i) => {
                proof {
                    assert(self@.contains_key(key@));
                    assert(self.index_of(key@) == i);
                }
                Some(&self.values[i])
            },
            None => None,
        }
    }

    /// Stores `value` under `key`, in place of any value stored there.
    pub fn insert(&mut self, key: PeerAddress, value: V)
        requires
            old(self).wf(),
        ensures
            final(self).wf(),
            final(self)@ == old(self)@.insert(key@, value),
    {
        let ghost old_self = *self;
        match self.find(&key) {
            Some(i) => {
                self.values.set(i, value);
                proof {
                    assert(self.keys@ == old_self.keys@);
                    assert forall|k: Seq<char>| #[trigger] self@.contains_key(k) implies self@[k]
                        == old_self@.insert(key@, value)[k] by {
                        let j = self.index_of(k);
                        if k != key@ {
                            assert(old_self@.contains_key(k));
                            assert(old_self.index_of(k) == j);
                        }
                    }
                    assert(self@ =~= old_self@.insert(key@, value));
                }
            },
            None => {
                self.keys.push(key);
                self.values.push(value);
                proof {
                    let n = old_self.keys.len() as int;
                    assert(self.keys@[n]@ == key@);
                    assert forall|k: Seq<char>| #[trigger] self@.contains_key(k) implies self@[k]
                        == old_self@.insert(key@, value)[k] by {
                        let j = self.index_of(k);
                        if k != key@ {
                            assert(j < n);
                            assert(old_self@.contains_key(k));
                            assert(old_self.index_of(k) == j);
                        }
                    }
                    assert forall|k: Seq<char>| #[trigger]
                        old_self@.insert(key@, value).contains_key(k) implies self@.contains_key(k) by {
                        if k != key@ {
                            let j = old_self.index_of(k);
                            assert(self.keys@[j]@ == k);
                        }
                    }
                    assert(self@ =~= old_self@.insert(key@, value));
                }
            },
        }
    }

    /// Takes the value stored under `key` out of the map.
    pub fn remove(&mut self, key: &PeerAddress) -> (r: Option<V>)
        requires
            old(self).wf(),
        ensures
            final(self).wf(),
            final(self)@ == old(self)@.remove(key@),
            r == (if old(self)@.contains_key(key@) {
                Some(old(self)@[key@])
            } else {
                None::<V>
            }),
    {
        let ghost old_self = *self;
        match self.find(key) {
            Some(i) => {
                let _k = self.keys.remove(i);
                let v = self.values.remove(i);
                proof {
                    assert(old_self@.contains_key(key@));
                    assert(old_self.index_of(key@) == i);
                    assert forall|a: int, b: int|
                        0 <= a < self.keys.len() && 0 <= b < self.keys.len() && a != b
                            implies #[trigger] self.keys@[a]@ != #[trigger] self.keys@[b]@ by {
                        let a2 = if a < i { a } else { a + 1 };
                        let b2 = if b < i { b } else { b + 1 };
                        assert(self.keys@[a] == old_self.keys@[a2]);
                        assert(self.keys@[b] == old_self.keys@[b2]);
                    }
                    assert forall|k: Seq<char>| #[trigger] self@.contains_key(k) implies k != key@
                        && old_self@.contains_key(k) && self@[k] == old_self@[k] by {
                        let j = self.index_of(k);
                        let j2 = if j < i { j } else { j + 1 };
                        assert(self.keys@[j] == old_self.keys@[j2]);
                        assert(old_self.keys@[j2]@ == k);
                        assert(old_self.index_of(k) == j2);
                    }
                    assert forall|k: Seq<char>| #[trigger]
                        old_self@.remove(key@).contains_key(k) implies self@.contains_key(k) by {
                        let j = old_self.index_of(k);
                        assert(j != i);
                        let j1 = if j < i { j } else { j - 1 };
                        assert(self.keys@[j1] == old_self.keys@[j]);
                    }
                    assert(self@ =~= old_self@.remove(key@));
                }
                Some(v)
            },
            None => {
                assert(self@ =~= old_self@.remove(key@));
                None
            },
        }
    }
}

} // verus!
