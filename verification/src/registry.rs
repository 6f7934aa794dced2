//! The filter store: an append-only registry of filters indexed by handle,
//! and the process-wide table of bound endpoints.
//!
//! Handles are assigned sequentially from 0 — a registration returns the
//! previous registry length as the new handle — and are never reused or
//! removed; only a filter's internal bit state changes after registration.
//! An endpoint pins a resolved handle behind a generated identifier: because
//! the store keeps every bound handle within the registry's bounds (see
//! `wf`), an endpoint operation reaches its filter with no handle resolution
//! and no validity check at all. Endpoints are resolved by identifier lookup
//! in this table, never by reinterpreting an integer as a memory address.

use vstd::prelude::*;

use crate::cache::{get_bloom_filter_handle, BloomFilterHandle, HandleCache};
use crate::filter::{batch_query, batch_view, count_non_null, non_null_set, PgBloomFilter};
use crate::timing::{elapsed_nanos, instant_now};
use crate::FilterError;

verus! {

/// A bound endpoint's record: the resolved handle it pins.
pub struct BoundBloomFilter {
    pub(crate) handle: BloomFilterHandle,
}

/// The process-wide store: the filter registry and the bound-endpoint table.
/// Constructed once at process start and passed through the request context.
pub struct FilterStore {
    filters: Vec<PgBloomFilter>,
    endpoints: Vec<BoundBloomFilter>,
}

impl FilterStore {
    /// How many filters the registry holds.
    pub closed spec fn filter_count(self) -> int {
        self.filters@.len() as int
    }

    /// The filter registered under handle `h`.
    pub closed spec fn filter_at(self, h: int) -> PgBloomFilter {
        self.filters@[h]
    }

    /// Whether a handle names a registered filter.
    pub open spec fn valid_handle(self, h: int) -> bool {
        0 <= h < self.filter_count()
    }

    /// How many endpoints are bound.
    pub closed spec fn endpoint_count(self) -> int {
        self.endpoints@.len() as int
    }

    /// The handle an endpoint is bound to.
    pub closed spec fn endpoint_target(self, e: int) -> int {
        self.endpoints@[e].handle.target()
    }

    /// Whether an identifier names a bound endpoint.
    pub open spec fn valid_endpoint(self, e: int) -> bool {
        0 <= e < self.endpoint_count()
    }

    /// Well-formedness: every bound endpoint's handle is within the
    /// registry's bounds — endpoints never dangle, because registered filters
    /// are never removed — and every registered filter upholds the
    /// no-false-negative invariant.
    pub closed spec fn wf(self) -> bool {
        &&& forall|e: int|
            0 <= e < self.endpoints@.len() ==> 0 <= (#[trigger] self.endpoints@[e]).handle.target()
                < self.filters@.len()
        &&& forall|i: int| 0 <= i < self.filters@.len() ==> (#[trigger] self.filters@[i]).inv()
    }

    /// An empty store: no filters, no endpoints.
    pub fn new() -> (s: FilterStore)
        ensures
            s.wf(),
            s.filter_count() == 0,
            s.endpoint_count() == 0,
    {
        FilterStore { filters: Vec::new(), endpoints: Vec::new() }
    }

    /// How many filters the registry holds.
    pub fn num_filters(&self) -> (n: usize)
        ensures
            n == self.filter_count(),
    {
        self.filters.len()
    }

    /// How many endpoints are bound.
    pub fn num_endpoints(&self) -> (n: usize)
        ensures
            n == self.endpoint_count(),
    {
        self.endpoints.len()
    }

    /// A shared reference to the filter registered under a live handle.
    pub(crate) fn filter_ref(&self, index: usize) -> (r: &PgBloomFilter)
        requires
            self.valid_handle(index as int),
        ensures
            *r == self.filter_at(index as int),
    {
        &self.filters[index]
    }

    /// Shared-access read of the registry: the filter registered under the
    /// handle, or absence for any handle outside the registry's bounds —
    /// negative, or at or beyond the registry's length.
    pub fn lookup(&self, filter_id: i32) -> (r: Option<&PgBloomFilter>)
        ensures
            r is Some <==> self.valid_handle(filter_id as int),
            r is Some ==> *r->0 == self.filter_at(filter_id as int),
    {
        if filter_id < 0 {
            return None;
        }
        let idx = filter_id as usize;
        if idx >= self.filters.len() {
            return None;
        }
        Some(&self.filters[idx])
    }

    /// Appends a filter to the registry and returns the previous length as
    /// its handle: handles are assigned sequentially from 0 and never reused.
    /// Never fails for a valid filter.
    pub fn register(&mut self, f: PgBloomFilter) -> (h: i32)
        requires
            old(self).wf(),
            f.inv(),
            old(self).filter_count() < 0x7FFF_FFFF,
        ensures
            final(self).wf(),
            h == old(self).filter_count(),
            final(self).filter_count() == old(self).filter_count() + 1,
            final(self).filter_at(h as int) == f,
            forall|i: int|
                0 <= i < old(self).filter_count() ==> final(self).filter_at(i) == old(self).filter_at(i),
            final(self).endpoint_count() == old(self).endpoint_count(),
            forall|e: int|
                0 <= e < old(self).endpoint_count() ==> final(self).endpoint_target(e) == old(self).endpoint_target(e),
    {
        let h = self.filters.len() as i32;
        self.filters.push(f);
        h
    }

    /// Inserts an item into the filter registered under `filter_id`, and
    /// reports whether it may have already been present — what a membership
    /// test answered before the call. An unknown handle changes nothing and
    /// answers false.
    pub fn insert(&mut self, filter_id: i32, item: &Vec<u8>) -> (r: bool)
        requires
            old(self).wf(),
        ensures
            final(self).wf(),
            !old(self).valid_handle(filter_id as int) ==> r == false && *final(self) == *old(self),
            final(self).filter_count() == old(self).filter_count(),
            final(self).endpoint_count() == old(self).endpoint_count(),
            forall|e: int|
                0 <= e < old(self).endpoint_count() ==> final(self).endpoint_target(e) == old(self).endpoint_target(e),
            old(self).valid_handle(filter_id as int) ==> {
                let before = old(self).filter_at(filter_id as int);
                let after = final(self).filter_at(filter_id as int);
                &&& r == before.may_contain(item@)
                &&& after.elems() == before.elems().insert(item@)
                &&& after.may_contain(item@)
                &&& forall|x: Seq<u8>| before.may_contain(x) ==> after.may_contain(x)
                &&& forall|i: int|
                    0 <= i < old(self).filter_count() && i != filter_id as int ==> final(self).filter_at(i) == old(self).filter_at(i)
            },
    {
        if filter_id < 0 {
            return false;
        }
        let idx = filter_id as usize;
        if idx >= self.filters.len() {
            return false;
        }
        let f = &mut self.filters[idx];
        f.insert(item)
    }

    /// Inserts every non-null entry of the batch into the filter registered
    /// under `filter_id`, and returns how many entries were non-null. An
    /// unknown handle changes nothing and answers 0. Already-applied
    /// insertions stay in effect whatever happens later.
    pub fn insert_batch(&mut self, filter_id: i32, items: &Vec<Option<Vec<u8>>>) -> (r: i32)
        requires
            old(self).wf(),
            items@.len() <= 0x7FFF_FFFF,
        ensures
            final(self).wf(),
            !old(self).valid_handle(filter_id as int) ==> r == 0 && *final(self) == *old(self),
            final(self).filter_count() == old(self).filter_count(),
            final(self).endpoint_count() == old(self).endpoint_count(),
            forall|e: int|
                0 <= e < old(self).endpoint_count() ==> final(self).endpoint_target(e) == old(self).endpoint_target(e),
            old(self).valid_handle(filter_id as int) ==> {
                let before = old(self).filter_at(filter_id as int);
                let after = final(self).filter_at(filter_id as int);
                &&& r == count_non_null(batch_view(items@))
                &&& after.elems() == before.elems().union(non_null_set(batch_view(items@)))
                &&& forall|x: Seq<u8>| before.may_contain(x) ==> after.may_contain(x)
                &&& forall|i: int|
                    0 <= i < old(self).filter_count() && i != filter_id as int ==> final(self).filter_at(i) == old(self).filter_at(i)
            },
    {
        if filter_id < 0 {
            return 0;
        }
        let idx = filter_id as usize;
        if idx >= self.filters.len() {
            return 0;
        }
        let f = &mut self.filters[idx];
        f.insert_batch(items)
    }

    /// Encodes the state of the filter registered under `filter_id`: bytes
    /// for every live handle (encoding a filter state cannot fail), absence
    /// for an unknown one.
    pub fn serialize(&self, filter_id: i32) -> (r: Option<Vec<u8>>)
        ensures
            r is Some <==> self.valid_handle(filter_id as int),
            r is Some ==> (r->0)@
                == crate::codec::filter_encoding(self.filter_at(filter_id as int)),
    {
        if filter_id < 0 {
            return None;
        }
        let idx = filter_id as usize;
        if idx >= self.filters.len() {
            return None;
        }
        crate::codec::encode_state(&self.filters[idx].state)
    }

    /// Binds an endpoint to the filter registered under `filter_id`, first
    /// resolving it through the worker's cache: on success, the endpoint's
    /// generated identifier — assigned sequentially from 0, never reused —
    /// pins the resolved handle for the rest of the process lifetime. Binding
    /// an unknown handle fails with `BindingFailure` and binds nothing.
    pub fn create_bound_filter_function(
        &mut self,
        cache: &mut HandleCache,
        filter_id: i32,
    ) -> (r: Result<i64, FilterError>)
        requires
            old(self).wf(),
            old(cache).consistent(*old(self)),
            old(self).endpoint_count() < 0x7FFF_FFFF_FFFF_FFFF,
        ensures
            final(self).wf(),
            final(cache).consistent(*final(self)),
            final(self).filter_count() == old(self).filter_count(),
            forall|i: int|
                0 <= i < old(self).filter_count() ==> final(self).filter_at(i) == old(self).filter_at(i),
            r is Ok <==> old(self).valid_handle(filter_id as int),
            r is Err ==> r->Err_0 == FilterError::BindingFailure && final(self).endpoint_count()
                == old(self).endpoint_count(),
            r is Ok ==> {
                &&& r->Ok_0 == old(self).endpoint_count()
                &&& final(self).endpoint_count() == old(self).endpoint_count() + 1
                &&& final(self).endpoint_target(r->Ok_0 as int) == filter_id as int
            },
            forall|e: int|
                0 <= e < old(self).endpoint_count() ==> final(self).endpoint_target(e) == old(self).endpoint_target(e),
    {
        match get_bloom_filter_handle(cache, self, filter_id) {
            Some(handle) => {
                let endpoint_id = self.endpoints.len() as i64;
                self.endpoints.push(BoundBloomFilter { handle });
                Ok(endpoint_id)
            },
            None => Err(FilterError::BindingFailure),
        }
    }

    /// Tests every entry of a nullable batch against the filter a bound
    /// endpoint pins, with no handle resolution: the store keeps every bound
    /// handle live, so the filter is reached directly. An unknown endpoint
    /// answers all-false, one position per input entry.
    pub fn _bf_contains_bound_batch(&self, endpoint_id: i64, items: &Vec<Option<Vec<u8>>>) -> (r:
        Vec<bool>)
        requires
            self.wf(),
        ensures
            r@.len() == items@.len(),
            self.valid_endpoint(endpoint_id as int) ==> r@ == batch_query(
                self.filter_at(self.endpoint_target(endpoint_id as int)),
                batch_view(items@),
            ),
            !self.valid_endpoint(endpoint_id as int) ==> r@ == Seq::new(
                items@.len(),
                |i: int| false,
            ),
    {
        if endpoint_id < 0 {
            return all_false(items.len());
        }
        let eidx64 = endpoint_id as u64;
        if eidx64 >= self.endpoints.len() as u64 {
            return all_false(items.len());
        }
        let eidx = eidx64 as usize;
        let bound = &self.endpoints[eidx];
        proof {
            assert(0 <= self.endpoints@[eidx as int].handle.target() < self.filters@.len());
        }
        let out = self.filter_ref(bound.handle.position()).contains_optional_batch(items);
        out
    }

    /// Reports the elapsed processing time, in nanoseconds, of one batch
    /// query through a bound endpoint: a nonnegative count whose value
    /// depends on the clock. An unknown endpoint runs no query and answers 0.
    pub fn _bf_contains_bound_nanos(&self, endpoint_id: i64, items: &Vec<Option<Vec<u8>>>) -> (r:
        i64)
        requires
            self.wf(),
        ensures
            r >= 0,
            !self.valid_endpoint(endpoint_id as int) ==> r == 0,
    {
        let start = instant_now();
        if endpoint_id < 0 {
            return 0;
        }
        let eidx64 = endpoint_id as u64;
        if eidx64 >= self.endpoints.len() as u64 {
            return 0;
        }
        let eidx = eidx64 as usize;
        let bound = &self.endpoints[eidx];
        proof {
            assert(0 <= self.endpoints@[eidx as int].handle.target() < self.filters@.len());
        }
        let _res = self.filter_ref(bound.handle.position()).contains_optional_batch(items);
        elapsed_nanos(&start)
    }
}

/// A batch answer of `len` all-false positions, the soft default of every
/// lookup-style operation on an unknown handle or endpoint.
pub(crate) fn all_false(len: usize) -> (r: Vec<bool>)
    ensures
        r@ == Seq::new(len as nat, |i: int| false),
{
    let mut out: Vec<bool> = Vec::new();
    let mut i: usize = 0;
    while i < len
        invariant
            i <= len,
            out@ == Seq::new(i as nat, |j: int| false),
        decreases len - i,
    {
        out.push(false);
        proof {
            assert(out@ =~= Seq::new((i + 1) as nat, |j: int| false));
        }
        i = i + 1;
    }
    out
}

/// No false negatives, store-wide: an item in the inserted set of any
/// registered filter of a well-formed store tests positive on that filter.
pub proof fn lemma_store_no_false_negatives(store: FilterStore, h: int, x: Seq<u8>)
    requires
        store.wf(),
        store.valid_handle(h),
        store.filter_at(h).elems().contains(x),
    ensures
        store.filter_at(h).may_contain(x),
{
    assert(store.filters@[h].inv());
}

} // verus!
