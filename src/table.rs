use vstd::prelude::*;

verus! {

/// Compares two byte strings.
pub fn bytes_eq(a: &Vec<u8>, b: &Vec<u8>) -> (r: bool)
    ensures
        r == (a@ == b@),
{
    if a.len() != b.len() {
        return false;
    }
    let mut i: usize = 0;
    while i < a.len()
        invariant
            a@.len() == b@.len(),
            0 <= i <= a@.len(),
            forall|j: int| 0 <= j < i ==> a@[j] == b@[j],
        decreases a@.len() - i,
    {
        if a[i] != b[i] {
            return false;
        }
        i += 1;
    }
    assert(a@ =~= b@);
    true
}

/// Copies a byte string.
pub fn copy_bytes(a: &Vec<u8>) -> (r: Vec<u8>)
    ensures
        r@ == a@,
{
    let mut r: Vec<u8> = Vec::new();
    let mut i: usize = 0;
    while i < a.len()
        invariant
            0 <= i <= a@.len(),
            r@ == a@.subrange(0, i as int),
        decreases a@.len() - i,
    {
        r.push(a[i]);
        i += 1;
        assert(r@ =~= a@.subrange(0, i as int));
    }
    assert(a@ =~= a@.subrange(0, a@.len() as int));
    r
}

/// Appends `src` to `dst`.
pub fn append_bytes_to(dst: &mut Vec<u8>, src: &Vec<u8>)
    ensures
        final(dst)@ == old(dst)@ + src@,
{
    let ghost start = dst@;
    let mut i: usize = 0;
    while i < src.len()
        invariant
            0 <= i <= src@.len(),
            dst@ == start + src@.subrange(0, i as int),
        decreases src@.len() - i,
    {
        dst.push(src[i]);
        i += 1;
        assert(dst@ =~= start + src@.subrange(0, i as int));
    }
    assert(src@ =~= src@.subrange(0, src@.len() as int));
}

/// A table from byte-string keys to values, each key held at most once.
pub struct ByteTable<V> {
    entries: Vec<(Vec<u8>, V)>,
    contents: Ghost<Map<Seq<u8>, V>>,
}

impl<V> View for ByteTable<V> {
    type V = Map<Seq<u8>, V>;

    closed spec fn view(&self) -> Map<Seq<u8>, V> {
        self.contents@
    }
}

impl<V> ByteTable<V> {
    /// The entries hold each key once, and exactly the keys and values of the view.
    pub closed spec fn wf(&self) -> bool {
        &&& forall|i: int, j: int|
            0 <= i < j < self.entries@.len() ==> self.entries@[i].0@ != self.entries@[j].0@
        &&& forall|i: int|
            0 <= i < self.entries@.len() ==> #[trigger] self.contents@.contains_key(
                self.entries@[i].0@,
            ) && self.contents@[self.entries@[i].0@] == self.entries@[i].1
        &&& forall|k: Seq<u8>|
            #[trigger] self.contents@.contains_key(k) ==> exists|i: int|
                0 <= i < self.entries@.len() && self.entries@[i].0@ == k
    }

    /// An empty table.
    pub fn new() -> (r: Self)
        ensures
            r.wf(),
            r@ == Map::<Seq<u8>, V>::empty(),
    {
        ByteTable { entries: Vec::new(), contents: Ghost(Map::empty()) }
    }

    /// The position of the entry that holds `key`.
    fn find(&self, key: &Vec<u8>) -> (r: Option<usize>)
        requires
            self.wf(),
        ensures
            match r {
                Some(i) => i < self.entries@.len() && self.entries@[i as int].0@ == key@,
                None => !self@.contains_key(key@),
            },
    {
        let mut i: usize = 0;
        while i < self.entries.len()
            invariant
                0 <= i <= self.entries@.len(),
                forall|j: int| 0 <= j < i ==> self.entries@[j].0@ != key@,
            decreases self.entries@.len() - i,
        {
            if bytes_eq(&self.entries[i].0, key) {
                return Some(i);
            }
            i += 1;
        }
        None
    }

    /// Whether `key` is held.
    pub fn contains(&self, key: &Vec<u8>) -> (r: bool)
        requires
            self.wf(),
        ensures
            r == self@.contains_key(key@),
    {
        match self.find(key) {
            Some(_) => true,
            None => false,
        }
    }

    /// The value held under `key`, if any.
    pub fn get(&self, key: &Vec<u8>) -> (r: Option<&V>)
        requires
            self.wf(),
        ensures
            match r {
                Some(v) => self@.contains_key(key@) && *v == self@[key@],
                None => !self@.contains_key(key@),
            },
    {
        match self.find(key) {
            Some(i) => {
                assert(self.contents@.contains_key(self.entries@[i as int].0@));
                Some(&self.entries[i].1)
            },
            None => None,
        }
    }

    /// Holds `value` under `key`, replacing what was there.
    pub fn insert(&mut self, key: Vec<u8>, value: V)
        requires
            old(self).wf(),
        ensures
            final(self).wf(),
            final(self)@ == old(self)@.insert(key@, value),
    {
        let ghost k = key@;
        let ghost m = self.contents@.insert(k, value);
        match self.find(&key) {
            Some(i) => {
                let ghost before = self.entries@;
                self.entries.set(i, (key, value));
                self.contents = Ghost(m);
                assert forall|a: int|
                    0 <= a < self.entries@.len() implies #[trigger] self.contents@.contains_key(
                    self.entries@[a].0@,
                ) && self.contents@[self.entries@[a].0@] == self.entries@[a].1 by {
                    if a != i {
                        assert(before[a].0@ != k);
                    }
                }
                assert forall|q: Seq<u8>| #[trigger] self.contents@.contains_key(q) implies exists|a: int|
                    0 <= a < self.entries@.len() && self.entries@[a].0@ == q by {
                    if q != k {
                        let a = choose|a: int| 0 <= a < before.len() && before[a].0@ == q;
                        assert(self.entries@[a].0@ == q);
                    } else {
                        assert(self.entries@[i as int].0@ == q);
                    }
                }
            },
            None => {
                let ghost before = self.entries@;
                self.entries.push((key, value));
                self.contents = Ghost(m);
                assert forall|a: int|
                    0 <= a < self.entries@.len() implies #[trigger] self.contents@.contains_key(
                    self.entries@[a].0@,
                ) && self.contents@[self.entries@[a].0@] == self.entries@[a].1 by {
                    if a < before.len() {
                        assert(before[a].0@ != k);
                    }
                }
                assert forall|q: Seq<u8>| #[trigger] self.contents@.contains_key(q) implies exists|a: int|
                    0 <= a < self.entries@.len() && self.entries@[a].0@ == q by {
                    if q != k {
                        let a = choose|a: int| 0 <= a < before.len() && before[a].0@ == q;
                        assert(self.entries@[a].0@ == q);
                    } else {
                        assert(self.entries@[before.len() as int].0@ == q);
                    }
                }
            },
        }
    }

    /// Drops what is held under `key`.
    pub fn remove(&mut self, key: &Vec<u8>)
        requires
            old(self).wf(),
        ensures
            final(self).wf(),
            final(self)@ == old(self)@.remove(key@),
    {
        let ghost k = key@;
        let ghost m = self.contents@.remove(k);
        let ghost oc = self.contents@;
        match self.find(key) {
            Some(i) => {
                let ghost before = self.entries@;
                self.entries.remove(i);
                self.contents = Ghost(m);
                assert forall|a: int|
                    0 <= a < self.entries@.len() implies #[trigger] self.contents@.contains_key(
                    self.entries@[a].0@,
                ) && self.contents@[self.entries@[a].0@] == self.entries@[a].1 by {
                    if a < i {
                        assert(self.entries@[a] == before[a]);
                        assert(before[a].0@ != k);
                        assert(oc.contains_key(before[a].0@));
                    } else {
                        assert(self.entries@[a] == before[a + 1]);
                        assert(before[a + 1].0@ != k);
                        assert(oc.contains_key(before[a + 1].0@));
                    }
                }
                assert forall|q: Seq<u8>| #[trigger] self.contents@.contains_key(q) implies exists|a: int|
                    0 <= a < self.entries@.len() && self.entries@[a].0@ == q by {
                    let a = choose|a: int| 0 <= a < before.len() && before[a].0@ == q;
                    if a < i {
                        assert(self.entries@[a].0@ == q);
                    } else {
                        assert(a != i);
                        assert(self.entries@[a - 1].0@ == q);
                    }
                }
            },
            None => {
                assert(m =~= self.contents@);
            },
        }
    }
}

impl ByteTable<u32> {
    /// The key of an entry whose value is `v`, if any.
    pub fn key_of(&self, v: u32) -> (r: Option<Vec<u8>>)
        requires
            self.wf(),
        ensures
            match r {
                Some(k) => self@.contains_key(k@) && self@[k@] == v,
                None => forall|k: Seq<u8>| #[trigger] self@.contains_key(k) ==> self@[k] != v,
            },
    {
        let mut i: usize = 0;
        while i < self.entries.len()
            invariant
                self.wf(),
                0 <= i <= self.entries@.len(),
                forall|j: int| 0 <= j < i ==> self.entries@[j].1 != v,
            decreases self.entries@.len() - i,
        {
            if self.entries[i].1 == v {
                assert(self.contents@.contains_key(self.entries@[i as int].0@));
                return Some(copy_bytes(&self.entries[i].0));
            }
            i += 1;
        }
        assert forall|k: Seq<u8>| #[trigger] self@.contains_key(k) implies self@[k] != v by {
            let a = choose|a: int| 0 <= a < self.entries@.len() && self.entries@[a].0@ == k;
            assert(self.contents@.contains_key(self.entries@[a].0@));
        }
        None
    }

    /// The largest value held, if the table is not empty.
    pub fn max_value(&self) -> (r: Option<u32>)
        requires
            self.wf(),
        ensures
            match r {
                Some(m) => (exists|k: Seq<u8>| #[trigger] self@.contains_key(k) && self@[k] == m)
                    && forall|k: Seq<u8>| #[trigger] self@.contains_key(k) ==> self@[k] <= m,
                None => self@.dom() == Set::<Seq<u8>>::empty(),
            },
    {
        let mut best: Option<u32> = None;
        let mut i: usize = 0;
        while i < self.entries.len()
            invariant
                self.wf(),
                0 <= i <= self.entries@.len(),
                match best {
                    Some(m) => (exists|j: int| 0 <= j < i && self.entries@[j].1 == m)
                        && forall|j: int| 0 <= j < i ==> self.entries@[j].1 <= m,
                    None => i == 0,
                },
            decreases self.entries@.len() - i,
        {
            let v = self.entries[i].1;
            match best {
                Some(m) => {
                    if v > m {
                        best = Some(v);
                    }
                },
                None => {
                    best = Some(v);
                },
            }
            i += 1;
        }
        match best {
            Some(m) => {
                proof {
                    let j = choose|j: int| 0 <= j < self.entries@.len() && self.entries@[j].1 == m;
                    assert(self.contents@.contains_key(self.entries@[j].0@));
                    assert(self@.contains_key(self.entries@[j].0@) && self@[self.entries@[j].0@] == m);
                }
                assert forall|k: Seq<u8>| #[trigger] self@.contains_key(k) implies self@[k] <= m by {
                    let a = choose|a: int| 0 <= a < self.entries@.len() && self.entries@[a].0@ == k;
                    assert(self.contents@.contains_key(self.entries@[a].0@));
                }
            },
            None => {
                assert forall|k: Seq<u8>| !self@.dom().contains(k) by {
                    if self@.contains_key(k) {
                        let a = choose|a: int| 0 <= a < self.entries@.len() && self.entries@[a].0@ == k;
                    }
                }
                assert(self@.dom() =~= Set::<Seq<u8>>::empty());
            },
        }
        best
    }
}

} // verus!
