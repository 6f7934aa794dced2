//! The exposed operations, as the host query engine invokes them: create a
//! filter, test membership singly or in batch (sequentially or in parallel),
//! serialize a filter's state, and time a batch query.
//!
//! Every lookup-style operation turns an unknown handle into a defined soft
//! default — false, an all-false batch, absence, or 0 — never an error: a
//! single bad handle never aborts a caller's broader request.

use vstd::prelude::*;

use crate::cache::{get_bloom_filter_handle, HandleCache};
use crate::filter::{batch_query, batch_view, PgBloomFilter};
use crate::registry::{all_false, FilterStore};
use crate::timing::{elapsed_nanos, instant_now};
use crate::FilterError;

verus! {

/// The answer of a batch query through a handle: the filter's answers in
/// input order for a live handle, all-false of the same length for an unknown
/// one. Sequential and parallel batch queries both answer exactly this.
pub open(crate) spec fn api_batch_result(store: FilterStore, h: int, items: Seq<Option<Vec<u8>>>) -> Seq<
    bool,
> {
    if store.valid_handle(h) {
        batch_query(store.filter_at(h), batch_view(items))
    } else {
        Seq::new(items.len(), |i: int| false)
    }
}

/// Builds a bloom filter for the target false-positive rate (parts per
/// million) sized for `expected_item_count` items, registers it, and returns
/// its handle: the registry's previous length. Fails with `InvalidParameter`
/// if and only if the rate is not strictly between 0 and 1.
pub fn new_bloom_filter(
    store: &mut FilterStore,
    false_positive_ppm: u64,
    expected_item_count: i64,
) -> (r: Result<i32, FilterError>)
    requires
        old(store).wf(),
        0 <= expected_item_count <= 0xFFFF_FFFF,
        old(store).filter_count() < 0x7FFF_FFFF,
    ensures
        final(store).wf(),
        r is Err <==> !(1 <= false_positive_ppm < 1_000_000),
        r is Err ==> r->Err_0 == FilterError::InvalidParameter && *final(store) == *old(store),
        r is Ok ==> {
            &&& r->Ok_0 == old(store).filter_count()
            &&& final(store).filter_count() == old(store).filter_count() + 1
            &&& final(store).filter_at(r->Ok_0 as int).elems() == Set::<Seq<u8>>::empty()
            &&& forall|x: Seq<u8>| !final(store).filter_at(r->Ok_0 as int).may_contain(x)
            &&& forall|i: int|
                0 <= i < old(store).filter_count() ==> final(store).filter_at(i) == old(
                    store,
                ).filter_at(i)
            &&& final(store).endpoint_count() == old(store).endpoint_count()
        },
{
    let filter = match PgBloomFilter::create(false_positive_ppm, expected_item_count as u64) {
        Ok(f) => f,
        Err(e) => {
            return Err(e);
        },
    };
    Ok(store.register(filter))
}

/// Builds a bloom filter sized for `items.len()`, inserting every non-null
/// entry during construction (null entries are skipped), registers it, and
/// returns its handle. Fails with `InvalidParameter` if and only if the rate
/// is out of range.
pub fn new_bloom_filter_from_items(
    store: &mut FilterStore,
    false_positive_ppm: u64,
    items: &Vec<Option<Vec<u8>>>,
) -> (r: Result<i32, FilterError>)
    requires
        old(store).wf(),
        items@.len() <= 0xFFFF_FFFF,
        old(store).filter_count() < 0x7FFF_FFFF,
    ensures
        final(store).wf(),
        r is Err <==> !(1 <= false_positive_ppm < 1_000_000),
        r is Err ==> r->Err_0 == FilterError::InvalidParameter && *final(store) == *old(store),
        r is Ok ==> {
            &&& r->Ok_0 == old(store).filter_count()
            &&& final(store).filter_count() == old(store).filter_count() + 1
            &&& final(store).filter_at(r->Ok_0 as int).elems() == crate::filter::non_null_set(
                batch_view(items@),
            )
            &&& forall|i: int|
                0 <= i < old(store).filter_count() ==> final(store).filter_at(i) == old(
                    store,
                ).filter_at(i)
            &&& final(store).endpoint_count() == old(store).endpoint_count()
        },
{
    let filter = match PgBloomFilter::create_from_items(false_positive_ppm, items) {
        Ok(f) => f,
        Err(e) => {
            return Err(e);
        },
    };
    Ok(store.register(filter))
}

/// Tests one item through a handle, resolving it via the worker's cache.
/// Answers true exactly when the handle is live and its filter's membership
/// test answers true; an unknown handle answers false.
pub fn bloom_filter_contains(
    store: &FilterStore,
    cache: &mut HandleCache,
    filter_id: i32,
    item: &Vec<u8>,
) -> (r: bool)
    requires
        old(cache).consistent(*store),
    ensures
        final(cache).consistent(*store),
        forall|h: int| old(cache).cached(h) ==> final(cache).cached(h),
        r == (store.valid_handle(filter_id as int) && store.filter_at(
            filter_id as int,
        ).may_contain(item@)),
{
    match get_bloom_filter_handle(cache, store, filter_id) {
        Some(handle) => handle.contains(store, item),
        None => false,
    }
}

/// Tests every entry of a nullable batch through a handle, resolving it once
/// via the worker's cache; null entries answer false, and an unknown handle
/// answers all-false of the batch's length.
pub fn bloom_filter_contains_batch(
    store: &FilterStore,
    cache: &mut HandleCache,
    filter_id: i32,
    items: &Vec<Option<Vec<u8>>>,
) -> (r: Vec<bool>)
    requires
        old(cache).consistent(*store),
    ensures
        final(cache).consistent(*store),
        forall|h: int| old(cache).cached(h) ==> final(cache).cached(h),
        r@ == api_batch_result(*store, filter_id as int, items@),
{
    match get_bloom_filter_handle(cache, store, filter_id) {
        Some(handle) => handle.contains_optional_batch(store, items),
        None => all_false(items.len()),
    }
}

/// `bloom_filter_contains_batch`, computed by an order-preserving parallel
/// map over owned items: the answers are the same, position for position.
pub fn bf_contains_parallel(
    store: &FilterStore,
    cache: &mut HandleCache,
    filter_id: i32,
    items: &Vec<Option<Vec<u8>>>,
) -> (r: Vec<bool>)
    requires
        old(cache).consistent(*store),
    ensures
        final(cache).consistent(*store),
        forall|h: int| old(cache).cached(h) ==> final(cache).cached(h),
        r@ == api_batch_result(*store, filter_id as int, items@),
{
    match get_bloom_filter_handle(cache, store, filter_id) {
        Some(handle) => handle.contains_batch_parallel(store, items),
        None => all_false(items.len()),
    }
}

/// `bloom_filter_contains_batch`, computed by an order-preserving parallel
/// map over borrowed items: the answers are the same, position for position.
pub fn bf_contains_parallel_slice(
    store: &FilterStore,
    cache: &mut HandleCache,
    filter_id: i32,
    items: &Vec<Option<Vec<u8>>>,
) -> (r: Vec<bool>)
    requires
        old(cache).consistent(*store),
    ensures
        final(cache).consistent(*store),
        forall|h: int| old(cache).cached(h) ==> final(cache).cached(h),
        r@ == api_batch_result(*store, filter_id as int, items@),
{
    match get_bloom_filter_handle(cache, store, filter_id) {
        Some(handle) => handle.contains_batch_parallel(store, items),
        None => all_false(items.len()),
    }
}

/// Reports the elapsed processing time, in nanoseconds, of one parallel batch
/// query through a handle: a nonnegative count whose value depends on the
/// clock. An unknown handle runs no query and answers 0.
pub fn bf_contains_parallel_nanos(
    store: &FilterStore,
    cache: &mut HandleCache,
    filter_id: i32,
    items: Vec<Option<Vec<u8>>>,
) -> (r: i64)
    requires
        old(cache).consistent(*store),
    ensures
        final(cache).consistent(*store),
        forall|h: int| old(cache).cached(h) ==> final(cache).cached(h),
        r >= 0,
        !store.valid_handle(filter_id as int) ==> r == 0,
{
    let start = instant_now();
    match get_bloom_filter_handle(cache, store, filter_id) {
        Some(handle) => {
            let _res = handle.contains_batch_par(store, items);
            elapsed_nanos(&start)
        },
        None => 0,
    }
}

/// Reports the elapsed processing time, in nanoseconds, of one sequential
/// batch query through a handle: a nonnegative count whose value depends on
/// the clock. An unknown handle runs no query and answers 0.
pub fn bf_contains_nanos(
    store: &FilterStore,
    cache: &mut HandleCache,
    filter_id: i32,
    items: &Vec<Option<Vec<u8>>>,
) -> (r: i64)
    requires
        old(cache).consistent(*store),
    ensures
        final(cache).consistent(*store),
        forall|h: int| old(cache).cached(h) ==> final(cache).cached(h),
        r >= 0,
        !store.valid_handle(filter_id as int) ==> r == 0,
{
    let start = instant_now();
    match get_bloom_filter_handle(cache, store, filter_id) {
        Some(handle) => {
            let _res = handle.contains_optional_batch(store, items);
            elapsed_nanos(&start)
        },
        None => 0,
    }
}

/// Encodes the state of the filter registered under `filter_id`: bytes for
/// every live handle (encoding a filter state cannot fail), absence for an
/// unknown one.
pub fn bloom_filter_serialize(store: &FilterStore, filter_id: i32) -> (r: Option<Vec<u8>>)
    ensures
        r is Some <==> store.valid_handle(filter_id as int),
        r is Some ==> (r->0)@
            == crate::codec::filter_encoding(store.filter_at(filter_id as int)),
{
    store.serialize(filter_id)
}

} // verus!
