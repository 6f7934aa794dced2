//! The per-worker handle cache and the handle resolution path.
//!
//! Each worker keeps its own `HandleCache`. Resolving a handle consults the
//! cache first; on a miss it consults the registry, records the handle in the
//! cache (growing it to fit), and from then on resolves the same handle from
//! the cache alone — the verified rendition of the lock-free read path: once
//! a handle is cached, its validity is known without consulting the registry.
//!
//! Cache entries never go stale, because the registry is append-only: filters
//! are never removed or replaced, so a handle once seen valid stays valid.
//! `lemma_cache_stays_consistent` states exactly that.

use vstd::prelude::*;

use crate::filter::{batch_query, batch_view};
use crate::registry::FilterStore;

verus! {

/// A resolved handle: direct access to one registered filter, with no further
/// registry consultation.
#[derive(Clone, Copy)]
pub struct BloomFilterHandle {
    pub(crate) index: usize,
}

impl BloomFilterHandle {
    /// The registry position this handle resolves to.
    pub closed spec fn target(self) -> int {
        self.index as int
    }

    /// The handle resolves to a live entry of the store's registry.
    pub open spec fn valid(self, store: FilterStore) -> bool {
        store.valid_handle(self.target())
    }

    /// The registry position this handle resolves to.
    pub fn position(&self) -> (i: usize)
        ensures
            i as int == self.target(),
    {
        self.index
    }

    /// Tests one item against the resolved filter.
    pub fn contains(&self, store: &FilterStore, item: &Vec<u8>) -> (r: bool)
        requires
            self.valid(*store),
        ensures
            r == store.filter_at(self.target()).may_contain(item@),
    {
        store.filter_ref(self.index).contains(item)
    }

    /// Tests every item of a non-nullable batch against the resolved filter.
    pub fn contains_batch(&self, store: &FilterStore, items: &Vec<Vec<u8>>) -> (r: Vec<bool>)
        requires
            self.valid(*store),
        ensures
            r@.len() == items@.len(),
            forall|i: int|
                0 <= i < items@.len() ==> r@[i] == store.filter_at(self.target()).may_contain(
                    items@[i]@,
                ),
    {
        store.filter_ref(self.index).contains_batch(items)
    }

    /// Tests every entry of a nullable batch against the resolved filter.
    pub fn contains_optional_batch(&self, store: &FilterStore, items: &Vec<Option<Vec<u8>>>) -> (r:
        Vec<bool>)
        requires
            self.valid(*store),
        ensures
            r@ == batch_query(store.filter_at(self.target()), batch_view(items@)),
    {
        store.filter_ref(self.index).contains_optional_batch(items)
    }

    /// Tests every entry of a nullable batch in parallel; same answers as
    /// `contains_optional_batch`, position for position.
    pub fn contains_batch_parallel(&self, store: &FilterStore, items: &Vec<Option<Vec<u8>>>) -> (r:
        Vec<bool>)
        requires
            self.valid(*store),
        ensures
            r@ == batch_query(store.filter_at(self.target()), batch_view(items@)),
    {
        store.filter_ref(self.index).contains_batch_parallel(items)
    }

    /// `contains_batch_parallel` over an owned batch.
    pub fn contains_batch_par(&self, store: &FilterStore, items: Vec<Option<Vec<u8>>>) -> (r: Vec<
        bool,
    >)
        requires
            self.valid(*store),
        ensures
            r@ == batch_query(store.filter_at(self.target()), batch_view(items@)),
    {
        store.filter_ref(self.index).contains_batch_par(items)
    }
}

/// One worker's handle cache: position `h` records whether this worker has
/// already resolved handle `h`. Populated lazily, grown on demand, never
/// evicted.
pub struct HandleCache {
    entries: Vec<bool>,
}

impl HandleCache {
    /// Whether this worker has already resolved handle `h`.
    pub closed spec fn cached(self, h: int) -> bool {
        0 <= h < self.entries@.len() && self.entries@[h]
    }

    /// Every cached handle is live in the store's registry.
    pub open spec fn consistent(self, store: FilterStore) -> bool {
        forall|h: int| #[trigger] self.cached(h) ==> store.valid_handle(h)
    }

    /// An empty cache, consistent with any store.
    pub fn new() -> (c: HandleCache)
        ensures
            forall|h: int| !c.cached(h),
    {
        HandleCache { entries: Vec::new() }
    }
}

/// Cache entries never go stale: a cache consistent with a registry stays
/// consistent however the registry grows, because registered filters are only
/// appended, never removed or replaced.
pub proof fn lemma_cache_stays_consistent(c: HandleCache, before: FilterStore, after: FilterStore)
    requires
        c.consistent(before),
        before.filter_count() <= after.filter_count(),
    ensures
        c.consistent(after),
{
}

/// Resolves a handle to a filter, consulting the worker's cache first and the
/// registry only on a miss; a hit answers without touching the registry, and
/// a miss records the handle so later resolutions hit. Returns the resolved
/// handle exactly when the registry has an entry for `filter_id`.
pub fn get_bloom_filter_handle(
    cache: &mut HandleCache,
    store: &FilterStore,
    filter_id: i32,
) -> (r: Option<BloomFilterHandle>)
    requires
        old(cache).consistent(*store),
    ensures
        final(cache).consistent(*store),
        forall|h: int| old(cache).cached(h) ==> final(cache).cached(h),
        r is Some <==> store.valid_handle(filter_id as int),
        r is Some ==> (r->0).target() == filter_id as int,
        r is Some ==> final(cache).cached(filter_id as int),
{
    if filter_id < 0 {
        return None;
    }
    let idx = filter_id as usize;

    // Check the worker's cache first: a hit needs no registry access at all.
    if idx < cache.entries.len() && cache.entries[idx] {
        proof {
            assert(cache.cached(idx as int));
        }
        return Some(BloomFilterHandle { index: idx });
    }

    // Cache miss: consult the registry.
    if idx >= store.num_filters() {
        return None;
    }

    // Record the handle, growing the cache to fit.
    if idx < cache.entries.len() {
        let slot = &mut cache.entries[idx];
        *slot = true;
    } else {
        while cache.entries.len() <= idx
            invariant
                old(cache).entries@.len() <= cache.entries@.len() <= idx + 1,
                forall|h: int|
                    0 <= h < old(cache).entries@.len() ==> cache.entries@[h] == old(cache).entries@[h],
                forall|h: int|
                    old(cache).entries@.len() <= h < cache.entries@.len()
                        ==> !cache.entries@[h],
            decreases idx + 1 - cache.entries@.len(),
        {
            cache.entries.push(false);
        }
        let slot = &mut cache.entries[idx];
        *slot = true;
    }
    proof {
        assert forall|h: int| cache.cached(h) implies store.valid_handle(h) by {
            if h != idx as int {
                assert(old(cache).cached(h));
            }
        }
    }
    Some(BloomFilterHandle { index: idx })
}

} // verus!
