//! A small keyed store: entries addressed by text keys, each key present at most once.
use vstd::prelude::*;

verus! {

/// Entries keyed by text. Its contents are the map from each key's characters to the
/// view of the value stored under it.
pub struct Table<V: View> {
    keys: Vec<String>,
    vals: Vec<V>,
    contents: Ghost<Map<Seq<char>, V::V>>,
}

impl<V: View> View for Table<V> {
    type V = Map<Seq<char>, V::V>;

    closed spec fn view(&self) -> Map<Seq<char>, V::V> {
        self.contents@
    }
}

impl<V: View> Table<V> {
    /// Internal consistency: one slot per key, and the contents mirror the slots.
    pub closed spec fn wf(&self) -> bool {
        &&& self.keys.len() == self.vals.len()
        &&& forall|i: int, j: int|
            0 <= i < j < self.keys.len() ==> #[trigger] self.keys@[i]@ != #[trigger] self.keys@[j]@
        &&& forall|k: Seq<char>|
            #[trigger] self.contents@.contains_key(k) <==> exists|i: int|
                0 <= i < self.keys.len() && #[trigger] self.keys@[i]@ == k
        &&& forall|i: int|
            0 <= i < self.keys.len() ==> self.contents@[#[trigger] self.keys@[i]@]
                == self.vals@[i]@
    }

    pub fn new() -> (t: Self)
        ensures
            t.wf(),
            t@ == Map::<Seq<char>, V::V>::empty(),
    {
        Table { keys: Vec::new(), vals: Vec::new(), contents: Ghost(Map::empty()) }
    }

    fn index_of(&self, key: &String) -> (r: Option<usize>)
        requires
            self.wf(),
        ensures
            match r {
                Some(i) => i < self.keys.len() && self.keys@[i as int]@ == key@,
                None => !self@.contains_key(key@),
            },
    {
        let mut i: usize = 0;
        while i < self.keys.len()
            invariant
                self.wf(),
                i <= self.keys.len(),
                forall|j: int| 0 <= j < i ==> self.keys@[j]@ != key@,
            decreases self.keys.len() - i,
        {
            if self.keys[i] == *key {
                return Some(i);
            }
            i = i + 1;
        }
        None
    }

    pub fn contains_key(&self, key: &String) -> (r: bool)
        requires
            self.wf(),
        ensures
            r == self@.contains_key(key@),
    {
        match self.index_of(key) {
            Some(_) => true,
            None => false,
        }
    }

    pub fn get(&self, key: &String) -> (r: Option<&V>)
        requires
            self.wf(),
        ensures
            r is Some == self@.contains_key(key@),
            r matches Some(v) ==> self@[key@] == v@,
    {
        match self.index_of(key) {
            Some(i) => Some(&self.vals[i]),
            None => None,
        }
    }

    /// Stores `value` under `key`, replacing what was there.
    pub fn insert(&mut self, key: String, value: V)
        requires
            old(self).wf(),
        ensures
            final(self).wf(),
            final(self)@ == old(self)@.insert(key@, value@),
    {
        let ghost k = key@;
        let ghost v = value@;
        match self.index_of(&key) {
            Some(i) => {
                self.vals.set(i, value);
                proof {
                    self.contents@ = self.contents@.insert(k, v);
                    assert forall|j: int| 0 <= j < self.keys.len() implies self.contents@[
                        #[trigger] self.keys@[j]@] == self.vals@[j]@ by {
                        if j != i {
                            assert(self.keys@[j]@ != self.keys@[i as int]@);
                        }
                    }
                    assert forall|q: Seq<char>|
                        #[trigger] self.contents@.contains_key(q) implies exists|j: int|
                        0 <= j < self.keys.len() && #[trigger] self.keys@[j]@ == q by {
                        if q == k {
                            assert(self.keys@[i as int]@ == q);
                        } else {
                            assert(old(self).contents@.contains_key(q));
                            let j = choose|j: int|
                                0 <= j < old(self).keys.len() && #[trigger] old(self).keys@[j]@ == q;
                            assert(self.keys@[j]@ == q);
                        }
                    }
                }
            },
            None => {
                self.keys.push(key);
                self.vals.push(value);
                proof {
                    self.contents@ = self.contents@.insert(k, v);
                    let n = self.keys.len() - 1;
                    assert(self.keys@[n]@ == k);
                    assert forall|q: Seq<char>|
                        #[trigger] self.contents@.contains_key(q) implies exists|j: int|
                        0 <= j < self.keys.len() && #[trigger] self.keys@[j]@ == q by {
                        if q == k {
                            assert(self.keys@[n]@ == q);
                        } else {
                            let j = choose|j: int| 0 <= j < n && #[trigger] old(self).keys@[j]@ == q;
                            assert(self.keys@[j]@ == q);
                        }
                    }
                }
            },
        }
    }
}

} // verus!
