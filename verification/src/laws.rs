//! Laws of the library, stated and proved over the specification model that
//! the executable functions' contracts use. Further laws live beside the
//! types they speak of: `cache::lemma_cache_stays_consistent`,
//! `registry::lemma_store_no_false_negatives`, and
//! `codec::lemma_equivalent_filters_agree`.

use vstd::prelude::*;

use crate::api::api_batch_result;
use crate::filter::{batch_query, query_one, PgBloomFilter};
use crate::registry::FilterStore;

verus! {

/// No false negatives: an item in a filter's inserted set tests positive on
/// that filter. Constructors establish the underlying invariant and every
/// insertion preserves it.
pub proof fn lemma_no_false_negatives(f: PgBloomFilter, x: Seq<u8>)
    requires
        f.inv(),
        f.elems().contains(x),
    ensures
        f.may_contain(x),
{
}

/// Batch/parallel equivalence: a sequential and a parallel batch answer that
/// each match the engine's answer for the same handle and item sequence — as
/// the contracts of `bloom_filter_contains_batch` and of the parallel batch
/// operations state — are equal, element for element.
pub proof fn lemma_batch_parallel_equivalence(
    store: FilterStore,
    h: int,
    items: Seq<Option<Vec<u8>>>,
    sequential: Seq<bool>,
    parallel: Seq<bool>,
)
    requires
        sequential == api_batch_result(store, h, items),
        parallel == api_batch_result(store, h, items),
    ensures
        sequential == parallel,
        sequential.len() == items.len(),
        forall|i: int| 0 <= i < items.len() ==> sequential[i] == parallel[i],
{
}

/// Null handling: turning one batch position null makes that position's
/// answer false and leaves every other position's answer unchanged.
pub proof fn lemma_null_position(f: PgBloomFilter, items: Seq<Option<Seq<u8>>>, i: int)
    requires
        0 <= i < items.len(),
    ensures
        batch_query(f, items.update(i, None)).len() == items.len(),
        batch_query(f, items.update(i, None))[i] == false,
        forall|j: int|
            0 <= j < items.len() && j != i ==> batch_query(f, items.update(i, None))[j]
                == batch_query(f, items)[j],
{
    assert(query_one(f, items.update(i, None)[i]) == false);
}

/// Monotonic handles: registrations that start from an empty registry are
/// assigned the handles 0, 1, ..., k-1 in order — each returns the registry's
/// length as the handle, and each grows that length by one, as `register`'s
/// contract states.
pub proof fn lemma_monotonic_handles(handles: Seq<int>, counts: Seq<int>)
    requires
        counts.len() == handles.len() + 1,
        counts[0] == 0,
        forall|i: int| 0 <= i < handles.len() ==> #[trigger] handles[i] == counts[i],
        forall|i: int| 0 <= i < handles.len() ==> #[trigger] counts[i + 1] == counts[i] + 1,
    ensures
        forall|i: int| 0 <= i < handles.len() ==> #[trigger] handles[i] == i,
{
    assert forall|i: int| 0 <= i < handles.len() implies #[trigger] handles[i] == i by {
        lemma_count_value(counts, i);
    }
}

proof fn lemma_count_value(counts: Seq<int>, i: int)
    requires
        0 <= i < counts.len(),
        counts[0] == 0,
        forall|j: int| 0 <= j < counts.len() - 1 ==> #[trigger] counts[j + 1] == counts[j] + 1,
    ensures
        counts[i] == i,
    decreases i,
{
    if i > 0 {
        lemma_count_value(counts, i - 1);
        assert(counts[(i - 1) + 1] == counts[i - 1] + 1);
    }
}

} // verus!
