use vstd::prelude::*;
use crate::error::Error;
use crate::table::ByteTable;

verus! {

/// No two denominations share an asset id.
pub open spec fn ids_distinct(m: Map<Seq<u8>, u32>) -> bool {
    forall|a: Seq<u8>, b: Seq<u8>|
        #[trigger] m.contains_key(a) && #[trigger] m.contains_key(b) && m[a] == m[b] ==> a == b
}

/// Some denomination is registered under `id`.
pub open spec fn id_in_use(m: Map<Seq<u8>, u32>, id: u32) -> bool {
    exists|k: Seq<u8>| #[trigger] m.contains_key(k) && m[k] == id
}

/// The id a newly seen denomination receives: one past the largest id in use,
/// and 1 while none is; `None` once the largest possible id is in use.
pub open spec fn next_asset_id(m: Map<Seq<u8>, u32>, r: Option<u32>) -> bool {
    match r {
        Some(n) => n >= 1 && (forall|k: Seq<u8>| #[trigger] m.contains_key(k) ==> m[k] < n) && (n
            == 1 || id_in_use(m, (n - 1) as u32)),
        None => id_in_use(m, u32::MAX),
    }
}

/// The id `next_asset_id` gives, where one is left.
pub open spec fn fresh_asset_id(m: Map<Seq<u8>, u32>) -> Option<u32> {
    if id_in_use(m, u32::MAX) {
        None
    } else {
        Some(choose|n: u32| next_asset_id(m, Some(n)))
    }
}

/// The id for a newly seen denomination is determined by the registry.
pub proof fn lemma_next_asset_id_unique(m: Map<Seq<u8>, u32>, r: Option<u32>)
    requires
        next_asset_id(m, r),
    ensures
        r == fresh_asset_id(m),
{
    match r {
        Some(a) => {
            if id_in_use(m, u32::MAX) {
                let k = choose|k: Seq<u8>| #[trigger] m.contains_key(k) && m[k] == u32::MAX;
                assert(m[k] < a);
            }
            let b = choose|n: u32| next_asset_id(m, Some(n));
            if a != 1 {
                let k = choose|k: Seq<u8>| #[trigger] m.contains_key(k) && m[k] == (a - 1) as u32;
                assert(m[k] < b);
            }
            if b != 1 {
                let k = choose|k: Seq<u8>| #[trigger] m.contains_key(k) && m[k] == (b - 1) as u32;
                assert(m[k] < a);
            }
        },
        None => {},
    }
}

/// The two-way mapping between denominations and the ledger's asset ids.
pub struct AssetRegistry {
    by_name: ByteTable<u32>,
}

impl View for AssetRegistry {
    type V = Map<Seq<u8>, u32>;

    closed spec fn view(&self) -> Map<Seq<u8>, u32> {
        self.by_name@
    }
}

impl AssetRegistry {
    /// The table is well formed and the mapping is one-to-one.
    pub closed spec fn wf(&self) -> bool {
        self.by_name.wf() && ids_distinct(self.by_name@)
    }

    /// A registry with no asset.
    pub fn new() -> (r: Self)
        ensures
            r.wf(),
            r@ == Map::<Seq<u8>, u32>::empty(),
    {
        AssetRegistry { by_name: ByteTable::new() }
    }

    /// The asset id registered for the denomination `name`.
    pub fn try_get_asset_id(&self, name: &Vec<u8>) -> (r: Result<u32, Error>)
        requires
            self.wf(),
        ensures
            self@.contains_key(name@) ==> r == Ok::<u32, Error>(self@[name@]),
            !self@.contains_key(name@) ==> r == Err::<u32, Error>(Error::InvalidTokenId),
    {
        match self.by_name.get(name) {
            Some(id) => Ok(*id),
            None => Err(Error::InvalidTokenId),
        }
    }

    /// The denomination registered under the asset id `asset_id`.
    pub fn try_get_asset_name(&self, asset_id: u32) -> (r: Result<Vec<u8>, Error>)
        requires
            self.wf(),
        ensures
            match r {
                Ok(n) => self@.contains_key(n@) && self@[n@] == asset_id,
                Err(e) => e == Error::WrongAssetId && !id_in_use(self@, asset_id),
            },
    {
        match self.by_name.key_of(asset_id) {
            Some(n) => Ok(n),
            None => Err(Error::WrongAssetId),
        }
    }

    /// Registers `name` under `asset_id`; a denomination or an id that is in use
    /// already is refused and leaves the registry as it was.
    pub fn register(&mut self, name: Vec<u8>, asset_id: u32) -> (r: Result<(), Error>)
        requires
            old(self).wf(),
        ensures
            final(self).wf(),
            (old(self)@.contains_key(name@) || id_in_use(old(self)@, asset_id)) ==> r == Err::<
                (),
                Error,
            >(Error::DuplicateAsset) && final(self)@ == old(self)@,
            !(old(self)@.contains_key(name@) || id_in_use(old(self)@, asset_id)) ==> r == Ok::<
                (),
                Error,
            >(()) && final(self)@ == old(self)@.insert(name@, asset_id),
    {
        if self.by_name.contains(&name) {
            return Err(Error::DuplicateAsset);
        }
        match self.by_name.key_of(asset_id) {
            Some(_) => Err(Error::DuplicateAsset),
            None => {
                let ghost before = self.by_name@;
                self.by_name.insert(name, asset_id);
                assert(ids_distinct(self.by_name@)) by {
                    assert forall|a: Seq<u8>, b: Seq<u8>|
                        #[trigger] self.by_name@.contains_key(a) && #[trigger] self.by_name@.contains_key(b)
                            && self.by_name@[a] == self.by_name@[b] implies a == b by {
                        if a != b {
                            if before.contains_key(a) && before.contains_key(b) {
                            } else if before.contains_key(a) {
                                assert(before[a] != asset_id);
                            } else if before.contains_key(b) {
                                assert(before[b] != asset_id);
                            }
                        }
                    }
                }
                Ok(())
            },
        }
    }

    /// The id for a denomination seen for the first time.
    pub fn next_asset_id(&self) -> (r: Option<u32>)
        requires
            self.wf(),
        ensures
            next_asset_id(self@, r),
    {
        match self.by_name.max_value() {
            None => Some(1),
            Some(m) => {
                if m == u32::MAX {
                    None
                } else {
                    Some(m + 1)
                }
            },
        }
    }
}

/// A registered denomination is the one name of its id: looking its id up
/// again gives the denomination back, and no other denomination shares the id.
pub proof fn lemma_asset_round_trip(reg: &AssetRegistry, d: Seq<u8>, other: Seq<u8>)
    requires
        reg.wf(),
        reg@.contains_key(d),
    ensures
        id_in_use(reg@, reg@[d]),
        reg@.contains_key(other) && reg@[other] == reg@[d] ==> other == d,
{
}

/// The denominations and asset ids registered before any traffic.
pub struct GenesisConfig {
    pub asset_id_by_name: Vec<(Vec<u8>, u32)>,
}

/// No two pairs share a denomination or an id.
pub open spec fn pairs_distinct(s: Seq<(Vec<u8>, u32)>) -> bool {
    forall|i: int, j: int|
        0 <= i < j < s.len() ==> s[i].0@ != s[j].0@ && s[i].1 != s[j].1
}

/// The mapping that the pairs state.
pub open spec fn pairs_map(s: Seq<(Vec<u8>, u32)>) -> Map<Seq<u8>, u32>
    decreases s.len(),
{
    if s.len() == 0 {
        Map::empty()
    } else {
        pairs_map(s.drop_last()).insert(s.last().0@, s.last().1)
    }
}

proof fn lemma_pairs_map_keys(s: Seq<(Vec<u8>, u32)>)
    requires
        pairs_distinct(s),
    ensures
        forall|k: Seq<u8>|
            #[trigger] pairs_map(s).contains_key(k) <==> exists|i: int|
                0 <= i < s.len() && s[i].0@ == k,
        forall|v: u32|
            #[trigger] id_in_use(pairs_map(s), v) <==> exists|i: int| 0 <= i < s.len() && s[i].1 == v,
    decreases s.len(),
{
    if s.len() > 0 {
        let t = s.drop_last();
        assert forall|i: int, j: int| 0 <= i < j < t.len() implies t[i].0@ != t[j].0@ && t[i].1 != t[j].1 by {
            assert(t[i] == s[i] && t[j] == s[j]);
        }
        lemma_pairs_map_keys(t);
        let m = pairs_map(s);
        assert forall|k: Seq<u8>|
            #[trigger] m.contains_key(k) <==> exists|i: int| 0 <= i < s.len() && s[i].0@ == k by {
            if m.contains_key(k) && k != s.last().0@ {
                assert(pairs_map(t).contains_key(k));
                let i = choose|i: int| 0 <= i < t.len() && t[i].0@ == k;
                assert(s[i] == t[i]);
            }
            if exists|i: int| 0 <= i < s.len() && s[i].0@ == k {
                let i = choose|i: int| 0 <= i < s.len() && s[i].0@ == k;
                if i < t.len() {
                    assert(s[i] == t[i]);
                    assert(pairs_map(t).contains_key(k));
                }
            }
        }
        assert forall|v: u32| #[trigger] id_in_use(m, v) <==> exists|i: int|
            0 <= i < s.len() && s[i].1 == v by {
            if id_in_use(m, v) {
                let k = choose|k: Seq<u8>| #[trigger] m.contains_key(k) && m[k] == v;
                if k == s.last().0@ {
                    assert(s[s.len() - 1].1 == v);
                } else {
                    assert(pairs_map(t).contains_key(k) && pairs_map(t)[k] == v);
                    assert(id_in_use(pairs_map(t), v));
                    let i = choose|i: int| 0 <= i < t.len() && t[i].1 == v;
                    assert(s[i] == t[i]);
                }
            }
            if exists|i: int| 0 <= i < s.len() && s[i].1 == v {
                let i = choose|i: int| 0 <= i < s.len() && s[i].1 == v;
                if i == s.len() - 1 {
                    assert(m.contains_key(s.last().0@) && m[s.last().0@] == v);
                } else {
                    assert(t[i] == s[i]);
                    assert(id_in_use(pairs_map(t), v));
                    let k = choose|k: Seq<u8>| #[trigger] pairs_map(t).contains_key(k) && pairs_map(t)[k] == v;
                    if k == s.last().0@ {
                        let j = choose|j: int| 0 <= j < t.len() && t[j].0@ == k;
                        assert(t[j] == s[j]);
                        assert(false);
                    } else {
                        assert(m.contains_key(k) && m[k] == v);
                    }
                }
            }
        }
    }
}

impl Default for GenesisConfig {
    /// No pair.
    fn default() -> (r: Self)
        ensures
            r.asset_id_by_name@.len() == 0,
    {
        GenesisConfig { asset_id_by_name: Vec::new() }
    }
}

impl GenesisConfig {
    /// The registry that holds the configured pairs; a denomination or an id
    /// that occurs twice is refused.
    pub fn build(&self) -> (r: Result<AssetRegistry, Error>)
        ensures
            pairs_distinct(self.asset_id_by_name@) ==> r is Ok,
            !pairs_distinct(self.asset_id_by_name@) ==> r == Err::<AssetRegistry, Error>(
                Error::DuplicateAsset,
            ),
            r matches Ok(reg) ==> reg.wf() && reg@ == pairs_map(self.asset_id_by_name@),
    {
        let mut reg = AssetRegistry::new();
        let mut i: usize = 0;
        let ghost s = self.asset_id_by_name@;
        while i < self.asset_id_by_name.len()
            invariant
                reg.wf(),
                0 <= i <= s.len(),
                s == self.asset_id_by_name@,
                reg@ == pairs_map(s.subrange(0, i as int)),
                pairs_distinct(s.subrange(0, i as int)),
            decreases s.len() - i,
        {
            let name = crate::table::copy_bytes(&self.asset_id_by_name[i].0);
            let id = self.asset_id_by_name[i].1;
            let ghost p = s.subrange(0, i as int);
            let ghost q = s.subrange(0, i + 1);
            proof {
                lemma_pairs_map_keys(p);
                assert(q.drop_last() =~= p);
            }
            match reg.register(name, id) {
                Ok(()) => {
                    proof {
                        assert forall|a: int, b: int| 0 <= a < b < q.len() implies q[a].0@ != q[b].0@
                            && q[a].1 != q[b].1 by {
                            if b == i {
                                assert(q[a] == p[a]);
                                if q[a].0@ == q[b].0@ {
                                    assert(pairs_map(p).contains_key(p[a].0@));
                                }
                                if q[a].1 == q[b].1 {
                                    assert(id_in_use(pairs_map(p), p[a].1));
                                }
                            } else {
                                assert(q[a] == p[a] && q[b] == p[b]);
                            }
                        }
                    }
                },
                Err(e) => {
                    proof {
                        if pairs_map(p).contains_key(s[i as int].0@) {
                            let a = choose|a: int| 0 <= a < p.len() && p[a].0@ == s[i as int].0@;
                            assert(s[a] == p[a]);
                        } else {
                            assert(id_in_use(pairs_map(p), s[i as int].1));
                            let a = choose|a: int| 0 <= a < p.len() && p[a].1 == s[i as int].1;
                            assert(s[a] == p[a]);
                        }
                        assert(!pairs_distinct(s));
                    }
                    return Err(e);
                },
            }
            i += 1;
        }
        assert(s.subrange(0, s.len() as int) =~= s);
        Ok(reg)
    }
}

} // verus!
