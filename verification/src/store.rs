//! Contract storage keyed by byte strings: each key holds at most one value,
//! and writing a key replaces what it held.
use vstd::prelude::*;

use crate::bytes::bytes_eq;

verus! {

/// A storage area whose keys are byte strings.
pub struct ByteMap<V> {
    entries: Vec<(Vec<u8>, V)>,
    contents: Ghost<Map<Seq<u8>, V>>,
}

impl<V> View for ByteMap<V> {
    type V = Map<Seq<u8>, V>;

    closed spec fn view(&self) -> Map<Seq<u8>, V> {
        self.contents@
    }
}

impl<V> ByteMap<V> {
    /// The entries list each stored key once, with its value.
    pub closed spec fn wf(&self) -> bool {
        &&& forall|i: int|
            0 <= i < self.entries@.len() ==> #[trigger] self.contents@.contains_key(
                self.entries@[i].0@,
            ) && self.contents@[self.entries@[i].0@] == self.entries@[i].1
        &&& forall|k: Seq<u8>|
            #[trigger] self.contents@.contains_key(k) ==> exists|i: int|
                0 <= i < self.entries@.len() && self.entries@[i].0@ == k
        &&& forall|i: int, j: int|
            0 <= i < j < self.entries@.len() ==> self.entries@[i].0@ != self.entries@[j].0@
    }

    /// An empty storage area.
    pub fn new() -> (m: Self)
        ensures
            m.wf(),
            m@ == Map::<Seq<u8>, V>::empty(),
    {
        ByteMap { entries: Vec::new(), contents: Ghost(Map::empty()) }
    }

    fn find(&self, key: &Vec<u8>) -> (r: Option<usize>)
        requires
            self.wf(),
        ensures
            match r {
                Some(i) => i < self.entries@.len() && self.entries@[i as int].0@ == key@,
                None => !self@.contains_key(key@),
            },
    {
        let mut i: usize = 0;
        while i < self.entries.len()
            invariant
                self.wf(),
                i <= self.entries@.len(),
                forall|j: int| 0 <= j < i ==> self.entries@[j].0@ != key@,
            decreases self.entries@.len() - i,
        {
            if bytes_eq(&self.entries[i].0, key) {
                return Some(i);
            }
            i = i + 1;
        }
        None
    }

    /// Whether the key holds a value.
    pub fn contains_key(&self, key: &Vec<u8>) -> (r: bool)
        requires
            self.wf(),
        ensures
            r == self@.contains_key(key@),
    {
        match self.find(key) {
            Some(i) => {
                assert(self.contents@.contains_key(self.entries@[i as int].0@));
                true
            },
            None => false,
        }
    }

    /// The value that the key holds, if any.
    pub fn get(&self, key: &Vec<u8>) -> (r: Option<&V>)
        requires
            self.wf(),
        ensures
            match r {
                Some(v) => self@.contains_key(key@) && *v == self@[key@],
                None => !self@.contains_key(key@),
            },
    {
        match self.find(key) {
            Some(i) => {
                assert(self.contents@.contains_key(self.entries@[i as int].0@));
                Some(&self.entries[i].1)
            },
            None => None,
        }
    }

    /// Stores `value` under `key`, replacing what the key held.
    pub fn insert(&mut self, key: Vec<u8>, value: V)
        requires
            old(self).wf(),
        ensures
            final(self).wf(),
            final(self)@ == old(self)@.insert(key@, value),
    {
        let ghost k = key@;
        let ghost v = value;
        match self.find(&key) {
            Some(i) => {
                self.entries.set(i, (key, value));
                self.contents = Ghost(self.contents@.insert(k, v));
                assert forall|kk: Seq<u8>| #[trigger]
                    self.contents@.contains_key(kk) implies exists|j: int|
                    0 <= j < self.entries@.len() && self.entries@[j].0@ == kk by {
                    if kk != k {
                        assert(old(self).contents@.contains_key(kk));
                        let j = choose|j: int|
                            0 <= j < old(self).entries@.len() && old(self).entries@[j].0@ == kk;
                        assert(self.entries@[j].0@ == kk);
                    } else {
                        assert(self.entries@[i as int].0@ == kk);
                    }
                }
                assert forall|a: int|
                    0 <= a < self.entries@.len() implies #[trigger] self.contents@.contains_key(
                    self.entries@[a].0@,
                ) && self.contents@[self.entries@[a].0@] == self.entries@[a].1 by {
                    if a != i {
                        assert(old(self).contents@.contains_key(old(self).entries@[a].0@));
                    }
                }
            },
            None => {
                self.entries.push((key, value));
                self.contents = Ghost(self.contents@.insert(k, v));
                assert forall|kk: Seq<u8>| #[trigger]
                    self.contents@.contains_key(kk) implies exists|j: int|
                    0 <= j < self.entries@.len() && self.entries@[j].0@ == kk by {
                    if kk != k {
                        assert(old(self).contents@.contains_key(kk));
                        let j = choose|j: int|
                            0 <= j < old(self).entries@.len() && old(self).entries@[j].0@ == kk;
                        assert(self.entries@[j].0@ == kk);
                    } else {
                        assert(self.entries@[old(self).entries@.len() as int].0@ == kk);
                    }
                }
                assert forall|a: int|
                    0 <= a < self.entries@.len() implies #[trigger] self.contents@.contains_key(
                    self.entries@[a].0@,
                ) && self.contents@[self.entries@[a].0@] == self.entries@[a].1 by {
                    if a < old(self).entries@.len() {
                        assert(old(self).contents@.contains_key(old(self).entries@[a].0@));
                    }
                }
                assert forall|a: int, b: int|
                    0 <= a < b < self.entries@.len() implies self.entries@[a].0@
                    != self.entries@[b].0@ by {
                    if b == old(self).entries@.len() {
                        assert(old(self).contents@.contains_key(old(self).entries@[a].0@));
                    }
                }
            },
        }
        assert(self.contents@ =~= old(self).contents@.insert(k, v));
    }
}

} // verus!
