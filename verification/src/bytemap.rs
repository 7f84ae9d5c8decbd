//! Byte-keyed map with a mathematical `Map` view.
//!
//! Both shared tables of the pipeline — the dedup cache (hash to last
//! verification response) and the pending-correlation table (hash to
//! submitter and original request) — are maps keyed by a transaction hash.
//! `ByteKeyedMap` stores the entries in a vector with pairwise-distinct keys
//! and exposes them as a `Map<Seq<u8>, _>`, so every contract above it can
//! speak in terms of plain map operations: latest write wins, lookup returns
//! the stored value verbatim, removal takes exactly the matching entry out.

use vstd::prelude::*;

use crate::types::bytes_eq;

verus! {

/// Map from byte-vector keys to values, with view `Map<Seq<u8>, V::V>`.
pub struct ByteKeyedMap<V> {
    entries: Vec<(Vec<u8>, V)>,
}

/// True when the keys of `s` are pairwise distinct.
pub open spec fn keys_distinct<V>(s: Seq<(Vec<u8>, V)>) -> bool {
    forall|i: int, j: int| 0 <= i < j < s.len() ==> s[i].0@ != s[j].0@
}

/// The map described by an entry sequence; a later entry overrides an
/// earlier one with the same key.
pub open spec fn seq_to_map<V: View>(s: Seq<(Vec<u8>, V)>) -> Map<Seq<u8>, V::V>
    decreases s.len(),
{
    if s.len() == 0 {
        Map::empty()
    } else {
        seq_to_map(s.drop_last()).insert(s.last().0@, s.last().1@)
    }
}

impl<V: View> View for ByteKeyedMap<V> {
    type V = Map<Seq<u8>, <V as View>::V>;

    closed spec fn view(&self) -> Map<Seq<u8>, <V as View>::V> {
        seq_to_map(self.entries@)
    }
}

/// A key is in the map exactly when some entry carries it.
proof fn lemma_dom<V: View>(s: Seq<(Vec<u8>, V)>, k: Seq<u8>)
    ensures
        seq_to_map(s).contains_key(k) <==> exists|i: int| 0 <= i < s.len() && s[i].0@ == k,
    decreases s.len(),
{
    if s.len() > 0 {
        lemma_dom(s.drop_last(), k);
        if seq_to_map(s).contains_key(k) {
            if s.last().0@ != k {
                let i = choose|i: int| 0 <= i < s.drop_last().len() && s.drop_last()[i].0@ == k;
                assert(s[i].0@ == k);
            } else {
                assert(s[s.len() - 1].0@ == k);
            }
        }
        if exists|i: int| 0 <= i < s.len() && s[i].0@ == k {
            let i = choose|i: int| 0 <= i < s.len() && s[i].0@ == k;
            if i < s.len() - 1 {
                assert(s.drop_last()[i].0@ == k);
            }
        }
    }
}

/// With distinct keys, the map sends each entry's key to that entry's value.
proof fn lemma_at<V: View>(s: Seq<(Vec<u8>, V)>, i: int)
    requires
        keys_distinct(s),
        0 <= i < s.len(),
    ensures
        seq_to_map(s).contains_key(s[i].0@),
        seq_to_map(s)[s[i].0@] == s[i].1@,
    decreases s.len(),
{
    if i == s.len() - 1 {
        assert(s.last() == s[i]);
    } else {
        lemma_at(s.drop_last(), i);
        assert(s.drop_last()[i] == s[i]);
    }
}

/// Removing entry `i` removes exactly its key from the map, when keys are
/// distinct.
proof fn lemma_remove_entry<V: View>(s: Seq<(Vec<u8>, V)>, i: int)
    requires
        keys_distinct(s),
        0 <= i < s.len(),
    ensures
        seq_to_map(s.remove(i)) =~= seq_to_map(s).remove(s[i].0@),
        keys_distinct(s.remove(i)),
    decreases s.len(),
{
    let k = s[i].0@;
    assert forall|p: int, q: int| 0 <= p < q < s.remove(i).len() implies s.remove(i)[p].0@ != s
        .remove(i)[q].0@ by {
        if p < i {
            if q < i {
                assert(s.remove(i)[p] == s[p] && s.remove(i)[q] == s[q]);
            } else {
                assert(s.remove(i)[p] == s[p] && s.remove(i)[q] == s[q + 1]);
            }
        } else {
            assert(s.remove(i)[p] == s[p + 1] && s.remove(i)[q] == s[q + 1]);
        }
    }
    assert forall|p: int| 0 <= p < s.drop_last().len() implies s.drop_last()[p] == s[p] by {}
    if i == s.len() - 1 {
        assert(s.remove(i) =~= s.drop_last());
        lemma_dom(s.drop_last(), k);
        if seq_to_map(s.drop_last()).contains_key(k) {
            let p = choose|p: int| 0 <= p < s.drop_last().len() && s.drop_last()[p].0@ == k;
            assert(s[p].0@ == k && s[i].0@ == k && p < i);
            assert(false);
        }
        assert(seq_to_map(s.drop_last()).remove(k) =~= seq_to_map(s.drop_last()));
        assert(seq_to_map(s).remove(k) =~= seq_to_map(s.drop_last()));
    } else {
        assert(s.remove(i).last() == s.last());
        assert(s.remove(i).drop_last() =~= s.drop_last().remove(i));
        lemma_remove_entry(s.drop_last(), i);
        assert(s.drop_last()[i] == s[i]);
        assert(seq_to_map(s.remove(i)) == seq_to_map(s.drop_last().remove(i)).insert(
            s.last().0@,
            s.last().1@,
        ));
        assert(s.last().0@ != k);
        assert(seq_to_map(s.drop_last()).remove(k).insert(s.last().0@, s.last().1@)
            =~= seq_to_map(s).remove(k));
    }
}

impl<V: View> ByteKeyedMap<V> {
    /// Keys of the stored entries are pairwise distinct.
    pub closed spec fn wf(&self) -> bool {
        keys_distinct(self.entries@)
    }

    /// An empty map.
    pub fn new() -> (r: Self)
        ensures
            r.wf(),
            r@ == Map::<Seq<u8>, <V as View>::V>::empty(),
    {
        ByteKeyedMap { entries: Vec::new() }
    }

    /// Position of the entry carrying `key`, if any.
    fn find(&self, key: &Vec<u8>) -> (r: Option<usize>)
        ensures
            match r {
                Some(i) => i < self.entries@.len() && self.entries@[i as int].0@ == key@,
                None => forall|i: int| 0 <= i < self.entries@.len() ==> self.entries@[i].0@ != key@,
            },
    {
        let mut i: usize = 0;
        while i < self.entries.len()
            invariant
                i <= self.entries@.len(),
                forall|j: int| 0 <= j < i ==> self.entries@[j].0@ != key@,
            decreases self.entries@.len() - i,
        {
            if bytes_eq(&self.entries[i].0, key) {
                return Some(i);
            }
            i = i + 1;
        }
        None
    }

    /// Look the key up; the stored value comes back verbatim.
    pub fn get(&self, key: &Vec<u8>) -> (r: Option<&V>)
        requires
            self.wf(),
        ensures
            match r {
                Some(v) => self@.contains_key(key@) && v@ == self@[key@],
                None => !self@.contains_key(key@),
            },
    {
        proof {
            lemma_dom(self.entries@, key@);
        }
        match self.find(key) {
            Some(i) => {
                proof {
                    lemma_at(self.entries@, i as int);
                }
                Some(&self.entries[i].1)
            },
            None => None,
        }
    }

    /// Insert the pair; an existing entry under the same key is replaced.
    pub fn insert(&mut self, key: Vec<u8>, value: V)
        requires
            old(self).wf(),
        ensures
            final(self).wf(),
            final(self)@ == old(self)@.insert(key@, value@),
    {
        self.take_out(&key);
        let ghost pre = self.entries@;
        let ghost kv = key@;
        let ghost vv = value@;
        self.entries.push((key, value));
        proof {
            assert(self.entries@.drop_last() =~= pre);
            assert(self.entries@.last().0@ == kv && self.entries@.last().1@ == vv);
            assert(self@ == seq_to_map(pre).insert(kv, vv));
            assert(old(self)@.remove(kv).insert(kv, vv) =~= old(self)@.insert(kv, vv));
            assert forall|p: int, q: int|
                0 <= p < q < self.entries@.len() implies self.entries@[p].0@ != self
                .entries@[q].0@ by {
                if q < self.entries@.len() - 1 {
                    assert(self.entries@[p] == pre[p] && self.entries@[q] == pre[q]);
                } else {
                    assert(self.entries@[p] == pre[p] && pre[p].0@ != kv);
                }
            }
        }
    }

    /// Remove the entry under `key`, handing its value back; absent keys
    /// leave the map unchanged.
    pub fn remove(&mut self, key: &Vec<u8>) -> (r: Option<V>)
        requires
            old(self).wf(),
        ensures
            final(self).wf(),
            final(self)@ == old(self)@.remove(key@),
            match r {
                Some(v) => old(self)@.contains_key(key@) && v@ == old(self)@[key@],
                None => !old(self)@.contains_key(key@) && final(self)@ == old(self)@,
            },
    {
        self.take_out(key)
    }

    /// Shared removal body behind `insert` and `remove`.
    fn take_out(&mut self, key: &Vec<u8>) -> (r: Option<V>)
        requires
            old(self).wf(),
        ensures
            final(self).wf(),
            final(self)@ == old(self)@.remove(key@),
            forall|i: int|
                0 <= i < final(self).entries@.len() ==> final(self).entries@[i].0@ != key@,
            match r {
                Some(v) => old(self)@.contains_key(key@) && v@ == old(self)@[key@],
                None => !old(self)@.contains_key(key@) && final(self)@ == old(self)@,
            },
    {
        proof {
            lemma_dom(self.entries@, key@);
        }
        match self.find(key) {
            Some(i) => {
                proof {
                    lemma_at(self.entries@, i as int);
                    lemma_remove_entry(self.entries@, i as int);
                }
                let (_, v) = self.entries.remove(i);
                proof {
                    lemma_dom(self.entries@, key@);
                }
                Some(v)
            },
            None => {
                proof {
                    assert(self@.remove(key@) =~= self@);
                }
                None
            },
        }
    }
}

} // verus!
