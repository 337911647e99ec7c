use vstd::prelude::*;

verus! {

/// A fixed-width key of the account store.
#[derive(Clone, Copy, Debug, PartialEq, Eq, Structural)]
pub struct Key {
    pub a: u64,
    pub b: u64,
    pub c: u64,
}

/// A keyed table with get/put semantics and no deletion.
///
/// Its contents are the map `self@`; the entries are kept in insertion order
/// with distinct keys.
pub struct Table<V> {
    keys: Vec<Key>,
    vals: Vec<V>,
    contents: Ghost<Map<Key, V>>,
}

impl<V: Copy> View for Table<V> {
    type V = Map<Key, V>;

    closed spec fn view(&self) -> Map<Key, V> {
        self.contents@
    }
}

impl<V: Copy> Table<V> {
    /// Internal consistency between the entries and the contents.
    pub closed spec fn wf(&self) -> bool {
        &&& self.keys@.len() == self.vals@.len()
        &&& forall|i: int, j: int|
            0 <= i < j < self.keys@.len() ==> self.keys@[i] != self.keys@[j]
        &&& forall|i: int|
            0 <= i < self.keys@.len() ==> #[trigger] self.contents@.contains_key(self.keys@[i])
                && self.contents@[self.keys@[i]] == self.vals@[i]
        &&& forall|k: Key| #[trigger]
            self.contents@.contains_key(k) ==> exists|i: int|
                0 <= i < self.keys@.len() && self.keys@[i] == k
    }

    pub fn new() -> (r: Self)
        ensures
            r.wf(),
            r@ == Map::<Key, V>::empty(),
    {
        Table { keys: Vec::new(), vals: Vec::new(), contents: Ghost(Map::empty()) }
    }

    fn find(&self, k: &Key) -> (r: Option<usize>)
        requires
            self.wf(),
        ensures
            match r {
                Some(i) => i < self.keys@.len() && self.keys@[i as int] == *k,
                None => !self@.contains_key(*k),
            },
    {
        let mut i: usize = 0;
        while i < self.keys.len()
            invariant
                self.wf(),
                i <= self.keys@.len(),
                forall|j: int| 0 <= j < i ==> self.keys@[j] != *k,
            decreases self.keys@.len() - i,
        {
            if self.keys[i] == *k {
                return Some(i);
            }
            i = i + 1;
        }
        None
    }

    /// The record stored at `k`, if any.
    pub fn get(&self, k: &Key) -> (r: Option<V>)
        requires
            self.wf(),
        ensures
            r == (if self@.contains_key(*k) { Some(self@[*k]) } else { None::<V> }),
    {
        match self.find(k) {
            Some(i) => Some(self.vals[i]),
            None => None,
        }
    }

    /// Stores `v` at `k`, replacing any earlier record.
    pub fn put(&mut self, k: &Key, v: V)
        requires
            old(self).wf(),
        ensures
            final(self).wf(),
            final(self)@ == old(self)@.insert(*k, v),
    {
        match self.find(k) {
            Some(i) => {
                self.vals.set(i, v);
                self.contents = Ghost(self.contents@.insert(*k, v));
            },
            None => {
                self.keys.push(*k);
                self.vals.push(v);
                self.contents = Ghost(self.contents@.insert(*k, v));
                proof {
                    let n: int = self.keys@.len() - 1;
                    assert(self.keys@[n] == *k);
                    assert forall|kk: Key| #[trigger] self.contents@.contains_key(kk)
                        implies exists|i: int| 0 <= i < self.keys@.len() && self.keys@[i] == kk by {
                        if kk == *k {
                            assert(self.keys@[n] == kk);
                        } else {
                            assert(old(self).contents@.contains_key(kk));
                            let j: int = choose|j: int| 0 <= j < old(self).keys@.len() && old(self).keys@[j] == kk;
                            assert(self.keys@[j] == kk);
                        }
                    }
                }
            },
        }
    }
}

} // verus!
