//! Key-value store keyed by byte strings.
//!
//! The topic index (interest tag to paid-message list) and the username
//! reverse index (username to owner) both need a map whose keys are byte
//! vectors compared by contents.  `TagMap` provides get, insert, remove
//! and contains over an association list, abstracted in specifications as
//! a `Map<Seq<u8>, V>`.

use vstd::prelude::*;

verus! {

/// Map abstraction of an association list: later entries win, though a
/// well-formed `TagMap` never stores a key twice.
pub open spec fn tag_map_of<V>(keys: Seq<Seq<u8>>, vals: Seq<V>) -> Map<Seq<u8>, V>
    decreases keys.len(),
{
    if keys.len() == 0 || keys.len() != vals.len() {
        Map::empty()
    } else {
        tag_map_of(keys.drop_last(), vals.drop_last()).insert(keys.last(), vals.last())
    }
}

/// Association map from byte-string keys to values.
pub struct TagMap<V> {
    pub keys: Vec<Vec<u8>>,
    pub vals: Vec<V>,
}

impl<V> View for TagMap<V> {
    type V = Map<Seq<u8>, V>;

    open spec fn view(&self) -> Map<Seq<u8>, V> {
        tag_map_of(self.key_seq(), self.vals@)
    }
}

impl<V> TagMap<V> {
    /// The stored keys, as byte sequences.
    pub open spec fn key_seq(self) -> Seq<Seq<u8>> {
        self.keys@.map_values(|k: Vec<u8>| k@)
    }

    /// One value per key, and no key stored twice.
    pub open spec fn wf(self) -> bool {
        &&& self.keys@.len() == self.vals@.len()
        &&& forall|i: int, j: int|
            #![trigger self.keys@[i], self.keys@[j]]
            0 <= i < j < self.keys@.len() ==> self.keys@[i]@ != self.keys@[j]@
    }

    /// An empty map.
    pub fn new() -> (m: TagMap<V>)
        ensures
            m.wf(),
            m@ == Map::<Seq<u8>, V>::empty(),
    {
        TagMap { keys: Vec::new(), vals: Vec::new() }
    }

    /// Index of the entry with key `k`, if any.
    fn find_key(&self, k: &Vec<u8>) -> (r: Option<usize>)
        ensures
            match r {
                Some(i) => {
                    &&& i < self.keys@.len()
                    &&& self.keys@[i as int]@ == k@
                    &&& forall|j: int| 0 <= j < i ==> self.keys@[j]@ != k@
                },
                None => forall|j: int| 0 <= j < self.keys@.len() ==> self.keys@[j]@ != k@,
            },
    {
        let mut i: usize = 0;
        while i < self.keys.len()
            invariant
                i <= self.keys@.len(),
                forall|j: int| 0 <= j < i ==> self.keys@[j]@ != k@,
            decreases self.keys@.len() - i,
        {
            if crate::types::bytes_eq(&self.keys[i], k) {
                return Some(i);
            }
            i = i + 1;
        }
        None
    }

    /// Whether the map holds key `k`.
    pub fn contains_key(&self, k: &Vec<u8>) -> (r: bool)
        requires
            self.wf(),
        ensures
            r == self@.contains_key(k@),
    {
        proof {
            lemma_tag_map_dom(self.key_seq(), self.vals@);
        }
        match self.find_key(k) {
            Some(i) => {
                proof {
                    assert(self.key_seq()[i as int] == k@);
                    assert(self.key_seq().contains(k@));
                }
                true
            },
            None => {
                proof {
                    if self.key_seq().contains(k@) {
                        let j = choose|j: int|
                            0 <= j < self.key_seq().len() && self.key_seq()[j] == k@;
                        assert(self.keys@[j]@ == k@);
                    }
                }
                false
            },
        }
    }

    /// The value stored under key `k`, if any.
    pub fn get(&self, k: &Vec<u8>) -> (r: Option<&V>)
        requires
            self.wf(),
        ensures
            match r {
                Some(v) => self@.contains_key(k@) && *v == self@[k@],
                None => !self@.contains_key(k@),
            },
    {
        proof {
            lemma_tag_map_dom(self.key_seq(), self.vals@);
        }
        match self.find_key(k) {
            Some(i) => {
                proof {
                    assert(self.key_seq()[i as int] == k@);
                    assert(self.key_seq().contains(k@));
                    lemma_tag_map_get(self.key_seq(), self.vals@, i as int);
                }
                Some(&self.vals[i])
            },
            None => {
                proof {
                    if self.key_seq().contains(k@) {
                        let j = choose|j: int|
                            0 <= j < self.key_seq().len() && self.key_seq()[j] == k@;
                        assert(self.keys@[j]@ == k@);
                    }
                }
                None
            },
        }
    }

    /// Stores `v` under `k`, replacing any earlier value.
    pub fn insert(&mut self, k: Vec<u8>, v: V)
        requires
            old(self).wf(),
        ensures
            final(self).wf(),
            final(self)@ == old(self)@.insert(k@, v),
    {
        match self.find_key(&k) {
            Some(i) => {
                self.vals.remove(i);
                self.vals.insert(i, v);
                proof {
                    assert(self.vals@ =~= old(self).vals@.update(i as int, v));
                    assert(self.key_seq() =~= old(self).key_seq());
                    assert(old(self).key_seq()[i as int] == k@);
                    lemma_tag_map_update(old(self).key_seq(), old(self).vals@, i as int, v);
                }
            },
            None => {
                self.keys.push(k);
                self.vals.push(v);
                proof {
                    assert(self.key_seq() =~= old(self).key_seq().push(k@));
                    assert(self.vals@ =~= old(self).vals@.push(v));
                    lemma_tag_map_push(old(self).key_seq(), old(self).vals@, k@, v);
                    assert forall|i: int, j: int|
                        0 <= i < j < self.keys@.len() implies #[trigger] self.keys@[i]@
                        != #[trigger] self.keys@[j]@ by {
                        if j == self.keys@.len() - 1 {
                            assert(self.keys@[i] == old(self).keys@[i]);
                        }
                    }
                }
            },
        }
    }

    /// Removes the value under `k` and hands it back, if present.
    pub fn remove(&mut self, k: &Vec<u8>) -> (out: Option<V>)
        requires
            old(self).wf(),
        ensures
            final(self).wf(),
            match out {
                Some(v) => {
                    &&& old(self)@.contains_key(k@)
                    &&& v == old(self)@[k@]
                    &&& final(self)@ == old(self)@.remove(k@)
                },
                None => {
                    &&& !old(self)@.contains_key(k@)
                    &&& *final(self) == *old(self)
                },
            },
    {
        proof {
            lemma_tag_map_dom(self.key_seq(), self.vals@);
        }
        match self.find_key(k) {
            Some(i) => {
                let v = self.vals.remove(i);
                self.keys.remove(i);
                proof {
                    assert(old(self).key_seq()[i as int] == k@);
                    assert(old(self).key_seq().contains(k@));
                    lemma_tag_map_get(old(self).key_seq(), old(self).vals@, i as int);
                    assert(self.key_seq() =~= old(self).key_seq().remove(i as int));
                    lemma_tag_map_remove_at(old(self).key_seq(), old(self).vals@, i as int);
                    assert forall|x: int, y: int|
                        0 <= x < y < self.keys@.len() implies #[trigger] self.keys@[x]@
                        != #[trigger] self.keys@[y]@ by {
                        let ox = if x < i { x } else { x + 1 };
                        let oy = if y < i { y } else { y + 1 };
                        assert(self.keys@[x] == old(self).keys@[ox]);
                        assert(self.keys@[y] == old(self).keys@[oy]);
                    }
                }
                Some(v)
            },
            None => {
                proof {
                    if self.key_seq().contains(k@) {
                        let j = choose|j: int|
                            0 <= j < self.key_seq().len() && self.key_seq()[j] == k@;
                        assert(self.keys@[j]@ == k@);
                    }
                }
                None
            },
        }
    }
}

/// The abstract map holds exactly the stored keys.
proof fn lemma_tag_map_dom<V>(keys: Seq<Seq<u8>>, vals: Seq<V>)
    requires
        keys.len() == vals.len(),
    ensures
        forall|t: Seq<u8>| #[trigger] tag_map_of(keys, vals).contains_key(t) <==> keys.contains(t),
    decreases keys.len(),
{
    if keys.len() == 0 {
        assert forall|t: Seq<u8>| #[trigger]
            tag_map_of(keys, vals).contains_key(t) <==> keys.contains(t) by {
            if keys.contains(t) {
                let j = choose|j: int| 0 <= j < keys.len() && keys[j] == t;
            }
        }
    } else {
        lemma_tag_map_dom(keys.drop_last(), vals.drop_last());
        assert forall|t: Seq<u8>| #[trigger]
            tag_map_of(keys, vals).contains_key(t) <==> keys.contains(t) by {
            if tag_map_of(keys, vals).contains_key(t) {
                if t == keys.last() {
                    assert(keys[keys.len() - 1] == t);
                } else {
                    assert(tag_map_of(keys.drop_last(), vals.drop_last()).contains_key(t));
                    assert(keys.drop_last().contains(t));
                    let j = choose|j: int|
                        0 <= j < keys.drop_last().len() && keys.drop_last()[j] == t;
                    assert(keys[j] == t);
                }
            }
            if keys.contains(t) {
                let j = choose|j: int| 0 <= j < keys.len() && keys[j] == t;
                if j == keys.len() - 1 {
                    assert(t == keys.last());
                } else {
                    assert(keys.drop_last()[j] == t);
                    assert(keys.drop_last().contains(t));
                    assert(tag_map_of(keys.drop_last(), vals.drop_last()).contains_key(t));
                }
            }
        }
    }
}

/// With distinct keys, the abstract map reads back the stored value.
proof fn lemma_tag_map_get<V>(keys: Seq<Seq<u8>>, vals: Seq<V>, i: int)
    requires
        keys.len() == vals.len(),
        0 <= i < keys.len(),
        forall|x: int, y: int| #![trigger keys[x], keys[y]] 0 <= x < y < keys.len() ==> keys[x]
            != keys[y],
    ensures
        tag_map_of(keys, vals).contains_key(keys[i]),
        tag_map_of(keys, vals)[keys[i]] == vals[i],
    decreases keys.len(),
{
    if i == keys.len() - 1 {
    } else {
        assert(keys[i] != keys.last());
        lemma_tag_map_get(keys.drop_last(), vals.drop_last(), i);
        assert(keys.drop_last()[i] == keys[i]);
        assert(vals.drop_last()[i] == vals[i]);
    }
}

/// Overwriting the value at index `i` updates the abstract map at its key.
proof fn lemma_tag_map_update<V>(keys: Seq<Seq<u8>>, vals: Seq<V>, i: int, v: V)
    requires
        keys.len() == vals.len(),
        0 <= i < keys.len(),
        forall|x: int, y: int| #![trigger keys[x], keys[y]] 0 <= x < y < keys.len() ==> keys[x]
            != keys[y],
    ensures
        tag_map_of(keys, vals.update(i, v)) == tag_map_of(keys, vals).insert(keys[i], v),
    decreases keys.len(),
{
    if i == keys.len() - 1 {
        assert(vals.update(i, v).drop_last() =~= vals.drop_last());
        assert(vals.update(i, v).last() == v);
        assert(tag_map_of(keys, vals.update(i, v)) =~= tag_map_of(keys, vals).insert(keys[i], v));
    } else {
        assert(keys[i] != keys.last());
        lemma_tag_map_update(keys.drop_last(), vals.drop_last(), i, v);
        assert(keys.drop_last()[i] == keys[i]);
        assert(vals.update(i, v).drop_last() =~= vals.drop_last().update(i, v));
        assert(vals.update(i, v).last() == vals.last());
        assert(tag_map_of(keys, vals.update(i, v)) =~= tag_map_of(keys, vals).insert(keys[i], v));
    }
}

/// Appending a fresh entry inserts its pair into the abstract map.
proof fn lemma_tag_map_push<V>(keys: Seq<Seq<u8>>, vals: Seq<V>, k: Seq<u8>, v: V)
    requires
        keys.len() == vals.len(),
    ensures
        tag_map_of(keys.push(k), vals.push(v)) == tag_map_of(keys, vals).insert(k, v),
{
    assert(keys.push(k).drop_last() =~= keys);
    assert(vals.push(v).drop_last() =~= vals);
    assert(keys.push(k).last() == k);
    assert(vals.push(v).last() == v);
}

/// Deleting the entry at index `i` removes its key from the abstract map.
proof fn lemma_tag_map_remove_at<V>(keys: Seq<Seq<u8>>, vals: Seq<V>, i: int)
    requires
        keys.len() == vals.len(),
        0 <= i < keys.len(),
        forall|x: int, y: int| #![trigger keys[x], keys[y]] 0 <= x < y < keys.len() ==> keys[x]
            != keys[y],
    ensures
        tag_map_of(keys.remove(i), vals.remove(i)) == tag_map_of(keys, vals).remove(keys[i]),
    decreases keys.len(),
{
    lemma_tag_map_dom(keys, vals);
    lemma_tag_map_dom(keys.drop_last(), vals.drop_last());
    if i == keys.len() - 1 {
        assert(keys.remove(i) =~= keys.drop_last());
        assert(vals.remove(i) =~= vals.drop_last());
        if keys.drop_last().contains(keys.last()) {
            let j = choose|j: int|
                0 <= j < keys.drop_last().len() && keys.drop_last()[j] == keys.last();
            assert(keys[j] == keys.last());
            assert(false);
        }
        assert(tag_map_of(keys.drop_last(), vals.drop_last()) =~= tag_map_of(keys, vals).remove(
            keys[i],
        ));
    } else {
        assert(keys[i] != keys.last());
        lemma_tag_map_remove_at(keys.drop_last(), vals.drop_last(), i);
        assert(keys.drop_last()[i] == keys[i]);
        assert(keys.remove(i).drop_last() =~= keys.drop_last().remove(i));
        assert(vals.remove(i).drop_last() =~= vals.drop_last().remove(i));
        assert(keys.remove(i).last() == keys.last());
        assert(vals.remove(i).last() == vals.last());
        assert(tag_map_of(keys.remove(i), vals.remove(i)) =~= tag_map_of(keys, vals).remove(
            keys[i],
        ));
    }
}

} // verus!
