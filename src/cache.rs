//! A bounded least-recently-used cache of rasterizer output, keyed by the exact
//! markup handed to the rasterizer.
use vstd::prelude::*;

verus! {

/// How many rasterized results the cache keeps.
pub const RASTER_CACHE_CAPACITY: usize = 20;

#[verifier::external_type_specification]
#[verifier::external_body]
#[verifier::reject_recursive_types(K)]
#[verifier::reject_recursive_types(V)]
#[verifier::reject_recursive_types(S)]
pub struct ExLruCache<K, V, S>(lru::LruCache<K, V, S>);

#[verifier::external_type_specification]
#[verifier::external_body]
pub struct ExLruHasher(lru::DefaultHasher);

/// The entries of an `lru::LruCache`, most recently used first.
pub uninterp spec fn lru_entries(c: lru::LruCache<Vec<u8>, Vec<u8>>) -> Seq<(Seq<u8>, Seq<u8>)>;

/// The capacity an `lru::LruCache` was made with.
pub uninterp spec fn lru_capacity(c: lru::LruCache<Vec<u8>, Vec<u8>>) -> nat;

/// Position of the first entry of `e` whose key is `k`; `-1` when there is none.
pub open spec fn find_key(e: Seq<(Seq<u8>, Seq<u8>)>, k: Seq<u8>) -> int
    decreases e.len(),
{
    if e.len() == 0 {
        -1
    } else if e[0].0 == k {
        0
    } else {
        let r = find_key(e.drop_first(), k);
        if r < 0 { -1 } else { r + 1 }
    }
}

/// The entries after a lookup of `k`: a hit moves its entry to the front.
pub open spec fn lru_get_spec(e: Seq<(Seq<u8>, Seq<u8>)>, k: Seq<u8>) -> Seq<(Seq<u8>, Seq<u8>)> {
    let i = find_key(e, k);
    if i < 0 { e } else { seq![e[i]] + e.remove(i) }
}

/// The entries after storing `(k, v)`: an existing entry of `k` is replaced and moved
/// to the front; otherwise the new entry goes to the front and, in a full cache,
/// the least recently used entry (the last) leaves.
pub open spec fn lru_put_spec(e: Seq<(Seq<u8>, Seq<u8>)>, k: Seq<u8>, v: Seq<u8>, cap: nat) -> Seq<(Seq<u8>, Seq<u8>)> {
    let i = find_key(e, k);
    if i >= 0 {
        seq![(k, v)] + e.remove(i)
    } else if e.len() == cap {
        seq![(k, v)] + e.drop_last()
    } else {
        seq![(k, v)] + e
    }
}

/// Relies on `lru::LruCache::new`: an empty cache of the given capacity.
#[verifier::external_body]
fn lru_new(cap: usize) -> (r: lru::LruCache<Vec<u8>, Vec<u8>>)
    requires
        cap > 0,
    ensures
        lru_entries(r) == Seq::<(Seq<u8>, Seq<u8>)>::empty(),
        lru_capacity(r) == cap,
{
    lru::LruCache::new(std::num::NonZeroUsize::new(cap).unwrap())
}

/// Relies on `lru::LruCache::get`: the value of `k` if present, which then becomes
/// the most recently used entry.
#[verifier::external_body]
fn lru_get(c: &mut lru::LruCache<Vec<u8>, Vec<u8>>, k: &Vec<u8>) -> (r: Option<Vec<u8>>)
    ensures
        r is Some <==> find_key(lru_entries(*old(c)), k@) >= 0,
        r matches Some(v) ==> v@ == lru_entries(*old(c))[find_key(lru_entries(*old(c)), k@)].1,
        lru_entries(*final(c)) == lru_get_spec(lru_entries(*old(c)), k@),
        lru_capacity(*final(c)) == lru_capacity(*old(c)),
{
    c.get(k).cloned()
}

/// Relies on `lru::LruCache::put`: stores `(k, v)` as the most recently used entry,
/// evicting the least recently used one when a new key meets a full cache.
#[verifier::external_body]
fn lru_put(c: &mut lru::LruCache<Vec<u8>, Vec<u8>>, k: Vec<u8>, v: Vec<u8>)
    ensures
        lru_entries(*final(c)) == lru_put_spec(lru_entries(*old(c)), k@, v@, lru_capacity(*old(c))),
        lru_capacity(*final(c)) == lru_capacity(*old(c)),
{
    let _ = c.put(k, v);
}

/// The cache of rasterizer output.
pub struct RasterCache {
    cache: lru::LruCache<Vec<u8>, Vec<u8>>,
}

impl RasterCache {
    /// The cached entries, most recently used first.
    pub closed spec fn entries(&self) -> Seq<(Seq<u8>, Seq<u8>)> {
        lru_entries(self.cache)
    }

    pub closed spec fn wf(&self) -> bool {
        &&& lru_capacity(self.cache) == RASTER_CACHE_CAPACITY
        &&& lru_entries(self.cache).len() <= RASTER_CACHE_CAPACITY
    }

    pub fn new() -> (r: RasterCache)
        ensures
            r.wf(),
            r.entries() == Seq::<(Seq<u8>, Seq<u8>)>::empty(),
    {
        RasterCache { cache: lru_new(RASTER_CACHE_CAPACITY) }
    }

    /// The cached output for `key`, if any; a hit makes it the most recently used.
    pub fn lookup(&mut self, key: &Vec<u8>) -> (r: Option<Vec<u8>>)
        requires
            old(self).wf(),
        ensures
            final(self).wf(),
            r is Some <==> find_key(old(self).entries(), key@) >= 0,
            r matches Some(v) ==> v@ == old(self).entries()[find_key(old(self).entries(), key@)].1,
            final(self).entries() == lru_get_spec(old(self).entries(), key@),
    {
        let r = lru_get(&mut self.cache, key);
        proof {
            let e = lru_entries(old(self).cache);
            let i = find_key(e, key@);
            lemma_find_key_range(e, key@);
            if i >= 0 {
                assert((seq![e[i]] + e.remove(i)).len() == e.len());
            }
        }
        r
    }

    /// Records the output `value` for `key` as the most recently used entry.
    pub fn store(&mut self, key: Vec<u8>, value: Vec<u8>)
        requires
            old(self).wf(),
        ensures
            final(self).wf(),
            final(self).entries() == lru_put_spec(old(self).entries(), key@, value@, RASTER_CACHE_CAPACITY as nat),
    {
        lru_put(&mut self.cache, key, value);
        proof {
            lemma_find_key_range(lru_entries(old(self).cache), key@);
        }
    }
}

proof fn lemma_find_key_range(e: Seq<(Seq<u8>, Seq<u8>)>, k: Seq<u8>)
    ensures
        -1 <= find_key(e, k) < e.len(),
        find_key(e, k) >= 0 ==> e[find_key(e, k)].0 == k,
        find_key(e, k) < 0 ==> forall|j: int| 0 <= j < e.len() ==> #[trigger] e[j].0 != k,
    decreases e.len(),
{
    if e.len() > 0 && e[0].0 != k {
        lemma_find_key_range(e.drop_first(), k);
        assert forall|j: int| 0 <= j < e.len() && find_key(e, k) < 0 implies #[trigger] e[j].0 != k by {
            if j > 0 {
                assert(e[j] == e.drop_first()[j - 1]);
            }
        }
    }
}

/// Eviction order: storing a key that is not cached into a full cache drops exactly
/// the least recently used entry (the last one) and puts the new entry first.
pub proof fn lemma_full_cache_evicts_least_recent(e: Seq<(Seq<u8>, Seq<u8>)>, k: Seq<u8>, v: Seq<u8>, cap: nat)
    requires
        cap > 0,
        e.len() == cap,
        find_key(e, k) < 0,
    ensures
        lru_put_spec(e, k, v, cap).len() == cap,
        lru_put_spec(e, k, v, cap)[0] == (k, v),
        lru_put_spec(e, k, v, cap).subrange(1, cap as int) == e.subrange(0, cap - 1),
{
    assert(lru_put_spec(e, k, v, cap).subrange(1, cap as int) =~= e.subrange(0, cap - 1));
}

/// Recency: a hit moves the entry found to the front, so that in a full cache of at
/// least two entries the next store of a new key does not evict it.
pub proof fn lemma_hit_refreshes_recency(e: Seq<(Seq<u8>, Seq<u8>)>, k: Seq<u8>, k2: Seq<u8>, v2: Seq<u8>, cap: nat)
    requires
        cap >= 2,
        e.len() == cap,
        find_key(e, k) >= 0,
        find_key(lru_get_spec(e, k), k2) < 0,
    ensures
        lru_get_spec(e, k).len() == cap,
        lru_get_spec(e, k)[0] == e[find_key(e, k)],
        lru_put_spec(lru_get_spec(e, k), k2, v2, cap)[1] == e[find_key(e, k)],
        find_key(lru_put_spec(lru_get_spec(e, k), k2, v2, cap), k) >= 0,
{
    lemma_find_key_range(e, k);
    let g = lru_get_spec(e, k);
    assert(g.len() == cap);
    let p = lru_put_spec(g, k2, v2, cap);
    assert(p[1] == g[0]);
    lemma_find_key_range(p, k);
    if find_key(p, k) < 0 {
        assert(p[1].0 != k);
    }
}

} // verus!
