use vstd::prelude::*;

verus! {

/// A keyed table of records: the storage primitive under the credential and
/// session stores. Each key holds at most one record, and a conditional
/// write inserts only where the key is absent, in one step.
pub struct Table<V> {
    keys: Vec<String>,
    values: Vec<V>,
    contents: Ghost<Map<Seq<char>, V>>,
}

impl<V> View for Table<V> {
    type V = Map<Seq<char>, V>;

    closed spec fn view(&self) -> Map<Seq<char>, V> {
        self.contents@
    }
}

impl<V> Table<V> {
    /// The keys are unique and the records stand in the view under them.
    pub closed spec fn wf(&self) -> bool {
        &&& self.keys@.len() == self.values@.len()
        &&& forall|i: int|
            #![trigger self.keys@[i]]
            0 <= i < self.keys@.len() ==> self.contents@.contains_key(self.keys@[i]@)
                && self.contents@[self.keys@[i]@] == self.values@[i]
        &&& forall|k: Seq<char>|
            #[trigger] self.contents@.contains_key(k) ==> exists|i: int|
                0 <= i < self.keys@.len() && self.keys@[i]@ == k
        &&& forall|i: int, j: int|
            0 <= i < self.keys@.len() && 0 <= j < self.keys@.len() && i != j
                ==> #[trigger] self.keys@[i]@ != #[trigger] self.keys@[j]@
    }

    /// An empty table.
    pub fn new() -> (r: Self)
        ensures
            r.wf(),
            r@ == Map::<Seq<char>, V>::empty(),
    {
        Table { keys: Vec::new(), values: Vec::new(), contents: Ghost(Map::empty()) }
    }

    /// The position of `key`, if the table holds it.
    fn find(&self, key: &String) -> (r: Option<usize>)
        requires
            self.wf(),
        ensures
            r matches Some(i) ==> i < self.keys@.len() && self.keys@[i as int]@ == key@,
            r is None <==> !self@.contains_key(key@),
    {
        let mut i: usize = 0;
        while i < self.keys.len()
            invariant
                self.wf(),
                i <= self.keys@.len(),
                forall|j: int| 0 <= j < i ==> self.keys@[j]@ != key@,
            decreases self.keys@.len() - i,
        {
            if self.keys[i] == *key {
                assert(self.contents@.contains_key(self.keys@[i as int]@));
                return Some(i);
            }
            i = i + 1;
        }
        proof {
            if self.contents@.contains_key(key@) {
                let j = choose|j: int| 0 <= j < self.keys@.len() && self.keys@[j]@ == key@;
                assert(self.keys@[j]@ == key@);
            }
        }
        None
    }

    /// The record under `key`, if any.
    pub fn get(&self, key: &String) -> (r: Option<&V>)
        requires
            self.wf(),
        ensures
            r is None <==> !self@.contains_key(key@),
            r matches Some(v) ==> *v == self@[key@],
    {
        match self.find(key) {
            Some(i) => Some(&self.values[i]),
            None => None,
        }
    }

    /// Writes `value` under `key`, replacing any record there.
    pub fn put(&mut self, key: String, value: V)
        requires
            old(self).wf(),
        ensures
            final(self).wf(),
            final(self)@ == old(self)@.insert(key@, value),
    {
        match self.find(&key) {
            Some(i) => {
                let ghost k = key@;
                self.values.set(i, value);
                self.contents = Ghost(self.contents@.insert(k, self.values@[i as int]));
                assert forall|k2: Seq<char>| #[trigger] self.contents@.contains_key(k2) implies exists|j: int|
                    0 <= j < self.keys@.len() && self.keys@[j]@ == k2 by {
                    if k2 != k {
                        assert(old(self).contents@.contains_key(k2));
                        let j = choose|j: int| 0 <= j < old(self).keys@.len() && old(self).keys@[j]@ == k2;
                        assert(self.keys@[j]@ == k2);
                    } else {
                        assert(self.keys@[i as int]@ == k2);
                    }
                }
            },
            None => {
                self.insert_new(key, value);
            },
        }
    }

    /// Appends a record under a key that the table does not hold.
    fn insert_new(&mut self, key: String, value: V)
        requires
            old(self).wf(),
            !old(self)@.contains_key(key@),
        ensures
            final(self).wf(),
            final(self)@ == old(self)@.insert(key@, value),
    {
        let ghost k = key@;
        let ghost n = self.keys@.len();
        self.keys.push(key);
        self.values.push(value);
        self.contents = Ghost(self.contents@.insert(k, self.values@[n as int]));
        assert(self.keys@[n as int]@ == k);
        assert forall|i: int|
            #![trigger self.keys@[i]]
            0 <= i < self.keys@.len() implies self.contents@.contains_key(self.keys@[i]@)
                && self.contents@[self.keys@[i]@] == self.values@[i] by {
            if i < n {
                assert(old(self).keys@[i] == self.keys@[i]);
                assert(old(self).contents@.contains_key(old(self).keys@[i]@));
            }
        }
        assert forall|k2: Seq<char>| #[trigger] self.contents@.contains_key(k2) implies exists|j: int|
            0 <= j < self.keys@.len() && self.keys@[j]@ == k2 by {
            if k2 != k {
                assert(old(self).contents@.contains_key(k2));
                let j = choose|j: int| 0 <= j < n && old(self).keys@[j]@ == k2;
                assert(self.keys@[j] == old(self).keys@[j]);
            }
        }
        assert forall|i: int, j: int|
            0 <= i < self.keys@.len() && 0 <= j < self.keys@.len() && i != j
                implies #[trigger] self.keys@[i]@ != #[trigger] self.keys@[j]@ by {
            if i < n && j < n {
                assert(self.keys@[i] == old(self).keys@[i]);
                assert(self.keys@[j] == old(self).keys@[j]);
            } else if i < n {
                assert(old(self).contents@.contains_key(old(self).keys@[i]@));
            } else if j < n {
                assert(old(self).contents@.contains_key(old(self).keys@[j]@));
            }
        }
    }

    /// Conditional write: inserts `value` under `key` only where the key is
    /// absent, and says whether it did.
    pub fn insert_if_absent(&mut self, key: String, value: V) -> (r: bool)
        requires
            old(self).wf(),
        ensures
            final(self).wf(),
            r == !old(self)@.contains_key(key@),
            r ==> final(self)@ == old(self)@.insert(key@, value),
            !r ==> final(self)@ == old(self)@,
    {
        match self.find(&key) {
            Some(_) => false,
            None => {
                self.insert_new(key, value);
                true
            },
        }
    }

    /// Removes the record under `key` and hands it back, if there was one.
    pub fn remove(&mut self, key: &String) -> (r: Option<V>)
        requires
            old(self).wf(),
        ensures
            final(self).wf(),
            final(self)@ == old(self)@.remove(key@),
            r is None <==> !old(self)@.contains_key(key@),
            r matches Some(v) ==> v == old(self)@[key@],
    {
        match self.find(key) {
            None => {
                assert(self.contents@.remove(key@) =~= self.contents@);
                None
            },
            Some(i) => {
                let ghost k = key@;
                let ghost ok = self.keys@;
                let ghost ov = self.values@;
                self.keys.remove(i);
                let v = self.values.remove(i);
                self.contents = Ghost(self.contents@.remove(k));
                assert forall|a: int|
                    #![trigger self.keys@[a]]
                    0 <= a < self.keys@.len() implies self.contents@.contains_key(self.keys@[a]@)
                        && self.contents@[self.keys@[a]@] == self.values@[a] by {
                    let b = if a < i { a } else { a + 1 };
                    assert(self.keys@[a] == ok[b]);
                    assert(self.values@[a] == ov[b]);
                    assert(old(self).contents@.contains_key(ok[b]@));
                    assert(ok[b]@ != ok[i as int]@);
                }
                assert forall|k2: Seq<char>| #[trigger] self.contents@.contains_key(k2) implies exists|j: int|
                    0 <= j < self.keys@.len() && self.keys@[j]@ == k2 by {
                    assert(old(self).contents@.contains_key(k2));
                    let b = choose|b: int| 0 <= b < ok.len() && ok[b]@ == k2;
                    assert(b != i);
                    let j = if b < i { b } else { b - 1 };
                    assert(self.keys@[j] == ok[b]);
                }
                assert forall|a: int, c: int|
                    0 <= a < self.keys@.len() && 0 <= c < self.keys@.len() && a != c
                        implies #[trigger] self.keys@[a]@ != #[trigger] self.keys@[c]@ by {
                    let ba = if a < i { a } else { a + 1 };
                    let bc = if c < i { c } else { c + 1 };
                    assert(self.keys@[a] == ok[ba]);
                    assert(self.keys@[c] == ok[bc]);
                    assert(ok[ba]@ != ok[bc]@);
                }
                Some(v)
            },
        }
    }
}

} // verus!
